use ronajo::pages::{
    display_title, end_of_episode, episode_label, episode_numbers, episodes_for, library_page,
    next_episode, note_removed, rating_style, search_page, studios_label, PlaybackEnd,
};
use ronajo::show_data::ShowData;

#[test]
fn rating_styles() {
    assert_eq!(rating_style("G - All Ages"), Some("success"));
    assert_eq!(rating_style("PG - Children"), Some("success"));
    assert_eq!(rating_style("PG-13 - Teens 13 or older"), Some("warning"));
    assert_eq!(rating_style("R - 17+ (violence & profanity)"), Some("warning"));
    assert_eq!(rating_style("R+ - Mild Nudity"), None);
    assert_eq!(rating_style("Rx - Hentai"), None);
}

#[test]
fn titles_and_studios() {
    let mut show = ShowData { title: "Shingeki no Kyojin".into(), ..Default::default() };
    assert_eq!(display_title(&show), "Shingeki no Kyojin");
    show.title_english = Some("Attack on Titan".into());
    assert_eq!(display_title(&show), "Attack on Titan");
    assert_eq!(studios_label(&vec![]), "");
    assert_eq!(studios_label(&vec!["Wit".into()]), "Wit");
    assert_eq!(studios_label(&vec!["Wit".into(), "MAPPA".into(), "IG".into()]), "Wit, MAPPA, IG");
}

#[test]
fn episode_lists() {
    assert_eq!(episode_numbers(0), Vec::<u32>::new());
    assert_eq!(episode_numbers(3), vec![1, 2, 3]);
    let show = ShowData { sub_episodes: 12, dub_episodes: 10, ..Default::default() };
    assert_eq!(episodes_for(&show, "Sub"), (12, "sub"));
    assert_eq!(episodes_for(&show, "Dub"), (10, "dub"));
    assert_eq!(episode_label(7), "Episode 7");
    assert_eq!(episode_label(120), "Episode 120");
}

#[test]
fn notes() {
    assert!(note_removed(""));
    assert!(!note_removed(" "));
}

#[test]
fn end_of_episode_decisions() {
    assert_eq!(end_of_episode(true, 12, 12), PlaybackEnd::Replay);
    assert_eq!(end_of_episode(false, 12, 12), PlaybackEnd::Close);
    assert_eq!(end_of_episode(false, 3, 12), PlaybackEnd::PlayNext);
    assert_eq!(next_episode(3), 4);
}

#[test]
fn grid_pages() {
    assert_eq!(library_page(0), "empty-library");
    assert_eq!(library_page(2), "library-page");
    assert_eq!(search_page(0), "empty-shows");
    assert_eq!(search_page(10), "show-page");
}

#[test]
fn seek_targets() {
    let s = ronajo::pages::SECOND_NS;
    assert_eq!(ronajo::pages::forward_seek_target(5 * s, 100 * s), 15 * s);
    assert_eq!(ronajo::pages::forward_seek_target(95 * s, 100 * s), 99 * s);
    // within the last whole second the seek is not capped
    assert_eq!(ronajo::pages::forward_seek_target(90 * s + 500, 100 * s + 900), 100 * s + 500);
    assert_eq!(ronajo::pages::backward_seek_target(25 * s), 15 * s);
    assert_eq!(ronajo::pages::backward_seek_target(3 * s), 0);
}

#[test]
fn revealed_controls() {
    assert!(ronajo::pages::controls_revealed(false, 100));
    assert!(ronajo::pages::controls_revealed(true, 4));
    assert!(!ronajo::pages::controls_revealed(true, 5));
    assert!(ronajo::pages::volume_slider_revealed(1));
    assert!(!ronajo::pages::volume_slider_revealed(2));
    assert!(ronajo::pages::rate_label_revealed(0));
    assert!(!ronajo::pages::rate_label_revealed(1));
}

#[test]
fn control_icons_and_labels() {
    assert_eq!(ronajo::pages::play_icon(true), "media-playback-start-symbolic");
    assert_eq!(ronajo::pages::play_icon(false), "media-playback-pause-symbolic");
    assert_eq!(ronajo::pages::play_tooltip(true), "Play");
    assert_eq!(ronajo::pages::play_tooltip(false), "Pause");
    assert_eq!(ronajo::pages::fullscreen_icon(true), "arrows-pointing-inward-symbolic");
    assert_eq!(ronajo::pages::lock_icon(false), "padlock2-open-symbolic");
    assert_eq!(ronajo::pages::expand_label(true), "Show Less");
    assert_eq!(ronajo::pages::favourite_icon(false), "heart-outline-thick-symbolic");
}
