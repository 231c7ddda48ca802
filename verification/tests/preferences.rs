use ronajo::preferences::{
    config_row, ecchi_switch_filter, filter_switches, nsfw_switch_filter, player_row,
    translation_row, translation_setting,
};

#[test]
fn rows_for_settings() {
    assert_eq!(config_row("$HOME/.var/app/io.github.Ronajo"), 0);
    assert_eq!(config_row("$HOME/.config"), 1);
    assert_eq!(player_row("MPV"), 0);
    assert_eq!(player_row("VLC"), 1);
    assert_eq!(translation_row("sub"), 0);
    assert_eq!(translation_row("dub"), 1);
}

#[test]
fn translation_label_is_lowered() {
    assert_eq!(translation_setting("Sub"), "sub");
    assert_eq!(translation_setting("Dub"), "dub");
}

#[test]
fn switches_for_filters() {
    assert_eq!(filter_switches("nsfw"), (true, false));
    assert_eq!(filter_switches("nsfw-with-ecchi"), (true, true));
    assert_eq!(filter_switches("sfw-with-ecchi"), (false, true));
    assert_eq!(filter_switches("sfw"), (false, false));
}

#[test]
fn switches_round_trip() {
    for f in ["sfw", "nsfw", "sfw-with-ecchi", "nsfw-with-ecchi"] {
        let (nsfw, ecchi) = filter_switches(f);
        assert_eq!(nsfw_switch_filter(nsfw, ecchi), f);
    }
}

#[test]
fn ecchi_switch_ignores_adult_switch() {
    assert_eq!(ecchi_switch_filter(true), "sfw-with-ecchi");
    assert_eq!(ecchi_switch_filter(false), "sfw");
}
