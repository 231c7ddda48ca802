use ronajo::episode_lookup::{episode_step, lookup_scan_defined, EpisodeStep};
use ronajo::show_data::{LinkData, SourceUrl};

fn source(name: &str, url: &str) -> SourceUrl {
    SourceUrl {
        source_url: url.to_string(),
        source_name: name.to_string(),
        source_type: "player".to_string(),
        class_name: String::new(),
        streamer_id: "allanime".to_string(),
    }
}

fn link(l: &str) -> LinkData {
    LinkData { link: l.to_string(), resolution_str: "1080p".to_string() }
}

// codes of "/clock" and of "/a/clock"
const CLOCK: &str = "--175b54575b53";
const A_CLOCK: &str = "--1759175b54575b53";

fn sources() -> Vec<SourceUrl> {
    vec![
        source("Luf-mp4", A_CLOCK),
        source("Sak", "https://example.org/plain.mp4"),
        source("Default", CLOCK),
        source("S-mp4", CLOCK),
    ]
}

#[test]
fn lookup_tries_preferred_sources_first() {
    let s = sources();
    // order: Sak (1), S-mp4 (3), Luf-mp4 (0); Sak names no link list
    assert_eq!(
        episode_step(&s, 0, None),
        EpisodeStep::Fetch { next: 2, address: "https://allanime.day/clock.json".to_string() }
    );
}

#[test]
fn empty_list_moves_to_next_source() {
    let s = sources();
    assert_eq!(
        episode_step(&s, 2, Some(&Vec::new())),
        EpisodeStep::Fetch { next: 3, address: "https://allanime.day/a/clock.json".to_string() }
    );
    assert_eq!(episode_step(&s, 3, Some(&Vec::new())), EpisodeStep::NotFound);
}

#[test]
fn non_empty_list_gives_its_first_link() {
    let s = sources();
    let links = vec![link("https://cdn/1.m3u8"), link("https://cdn/2.m3u8")];
    assert_eq!(episode_step(&s, 2, Some(&links)), EpisodeStep::Found("https://cdn/1.m3u8".to_string()));
}

#[test]
fn lookup_without_sources_finds_nothing() {
    assert_eq!(episode_step(&Vec::new(), 0, None), EpisodeStep::NotFound);
}

#[test]
fn whole_lookup_returns_first_non_empty_list() {
    let s = sources();
    let mut step = episode_step(&s, 0, None);
    let mut fetched = Vec::new();
    let found = loop {
        match step {
            EpisodeStep::Found(l) => break Some(l),
            EpisodeStep::NotFound => break None,
            EpisodeStep::Fetch { next, address } => {
                let reply = if address.ends_with("/a/clock.json") { vec![link("L")] } else { Vec::new() };
                fetched.push(address);
                step = episode_step(&s, next, Some(&reply));
            }
        }
    };
    assert_eq!(found, Some("L".to_string()));
    assert_eq!(fetched.len(), 2);
}

#[test]
fn malformed_sources_before_a_link_are_reported() {
    let s = vec![source("Sak", "a\u{e9}"), source("S-mp4", CLOCK)];
    assert!(!lookup_scan_defined(&s, 0));
    assert!(lookup_scan_defined(&s, 1));
    let s = vec![source("Sak", CLOCK), source("S-mp4", "a\u{e9}")];
    assert!(lookup_scan_defined(&s, 0));
}
