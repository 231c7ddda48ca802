use ronajo::show_data::SourceUrl;
use ronajo::stream_links::{episode_source_order, source_link_url, source_link_url_defined};

fn source(name: &str, url: &str) -> SourceUrl {
    SourceUrl {
        source_url: url.to_string(),
        source_name: name.to_string(),
        source_type: "player".to_string(),
        class_name: String::new(),
        streamer_id: "allanime".to_string(),
    }
}

#[test]
fn clock_source_gets_json_path() {
    // "--" then the codes of "/clock"
    assert_eq!(
        source_link_url("--175b54575b53"),
        Some("https://allanime.day/clock.json".to_string())
    );
}

#[test]
fn json_goes_after_first_clock() {
    // codes of "/apivtwo/clock?id=1"
    let url = "--175948514e4c4f57175b54575b5307515c0509";
    assert_eq!(
        source_link_url(url),
        Some("https://allanime.day/apivtwo/clock.json?id=1".to_string())
    );
}

#[test]
fn second_clock_is_left_alone() {
    // codes of "clockclock"
    let url = "--5b54575b535b54575b53";
    assert_eq!(
        source_link_url(url),
        Some("https://allanime.dayclock.jsonclock".to_string())
    );
}

#[test]
fn source_without_dashes_has_no_link() {
    assert_eq!(source_link_url("https://example.org/video.mp4"), None);
}

#[test]
fn source_without_clock_has_no_link() {
    assert_eq!(source_link_url("--175948"), None);
}

#[test]
fn definedness_of_source_addresses() {
    assert!(!source_link_url_defined(""));
    assert!(!source_link_url_defined("-"));
    assert!(source_link_url_defined("ab"));
    assert!(source_link_url_defined("\u{e9}"));
    assert!(!source_link_url_defined("a\u{e9}"));
    assert!(source_link_url_defined("--\u{e9}"));
    assert!(!source_link_url_defined("--a\u{e9}"));
    assert!(source_link_url_defined("--175b54575b53"));
}

#[test]
fn preferred_providers_come_first() {
    let sources = vec![
        source("Luf-mp4", "--01"),
        source("Sak", "--02"),
        source("Default", "--03"),
        source("S-mp4", "--04"),
        source("Luf-mp4", "--05"),
    ];
    assert_eq!(episode_source_order(&sources), vec![1, 3, 0, 4]);
}

#[test]
fn no_known_provider_no_order() {
    let sources = vec![source("Yt-mp4", "x"), source("sak", "y")];
    assert!(episode_source_order(&sources).is_empty());
}
