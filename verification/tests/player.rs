use ronajo::player_data::{known_player, PlayerData, PlayerError};

fn device(password: Option<&str>) -> PlayerData {
    PlayerData::new(
        "tv".to_string(),
        "192.168.1.20".to_string(),
        "pi".to_string(),
        password.map(|p| p.to_string()),
        password.is_none(),
    )
}

#[test]
fn new_keeps_fields() {
    let d = device(Some("secret"));
    assert_eq!(d.name, "tv");
    assert_eq!(d.address, "192.168.1.20");
    assert_eq!(d.username, "pi");
    assert_eq!(d.password.as_deref(), Some("secret"));
    assert!(!d.use_key);
}

#[test]
fn connect_targets_port_22() {
    let t = device(Some("secret")).connect();
    assert_eq!(t.address, "192.168.1.20:22");
    assert_eq!(t.username, "pi");
    assert_eq!(t.password.as_deref(), Some("secret"));
    assert_eq!(device(None).connect().password, None);
}

#[test]
fn known_players() {
    assert!(known_player("MPV"));
    assert!(known_player("VLC"));
    assert!(!known_player("mpv"));
    assert!(!known_player(""));
}

#[test]
fn start_session_commands() {
    let d = device(None);
    assert_eq!(
        d.start_session("http://x/v.mp4", "MPV"),
        "systemd-run --user --scope --unit=mpv-session --setenv=DISPLAY=:0 nohup setsid mpv http://x/v.mp4 --input-ipc-server=/tmp/playersocket --no-terminal > /dev/null 2>&1 &"
    );
    assert_eq!(
        d.start_session("http://x/v.mp4", "VLC"),
        "systemd-run --user --scope --unit=vlc-session --setenv=DISPLAY=:0 nohup setsid vlc http://x/v.mp4 > /dev/null 2>&1 &"
    );
}

#[test]
fn vlc_falls_back_to_flatpak() {
    let d = device(None);
    assert_eq!(
        d.start_session_fallback("http://x/v.mp4", "bash: line 1: vlc: command not found\n"),
        Some("systemd-run --user --scope --unit=vlc-session --setenv=DISPLAY=:0 nohup setsid flatpak run org.videolan.VLC http://x/v.mp4  > /dev/null 2>&1 &".to_string())
    );
    assert_eq!(d.start_session_fallback("http://x/v.mp4", "Running scope as unit"), None);
    assert_eq!(d.start_session_fallback("http://x/v.mp4", ""), None);
}

#[test]
fn quit_commands() {
    let d = device(None);
    assert_eq!(d.quit("MPV"), "echo 'quit' | socat - /tmp/playersocket");
    assert_eq!(d.quit("VLC"), "pkill vlc");
}

#[test]
fn screenshot_commands() {
    let d = device(None);
    assert_eq!(d.screenshot("MPV"), Ok("echo 'quit' | socat - /tmp/playersocket".to_string()));
    assert_eq!(d.screenshot("VLC"), Err(PlayerError::Unsupported));
}

#[test]
fn pause_commands() {
    let d = device(None);
    assert_eq!(d.toggle_pause("MPV"), "echo 'cycle pause' | socat - /tmp/playersocket");
    assert_eq!(
        d.toggle_pause("VLC"),
        "busctl --user call org.mpris.MediaPlayer2.vlc /org/mpris/MediaPlayer2 org.mpris.MediaPlayer2.Player PlayPause"
    );
    assert_eq!(d.set_paused(true, "MPV"), "echo 'set pause yes' | socat - /tmp/playersocket");
    assert_eq!(d.set_paused(false, "MPV"), "echo 'set pause no' | socat - /tmp/playersocket");
    assert_eq!(
        d.set_paused(true, "VLC"),
        "busctl --user call org.mpris.MediaPlayer2.vlc /org/mpris/MediaPlayer2 org.mpris.MediaPlayer2.Player Pause"
    );
    assert_eq!(
        d.set_paused(false, "VLC"),
        "busctl --user call org.mpris.MediaPlayer2.vlc /org/mpris/MediaPlayer2 org.mpris.MediaPlayer2.Player Play"
    );
}

#[test]
fn mute_commands() {
    let d = device(None);
    assert_eq!(d.set_muted(true, "MPV"), "echo 'set mute yes' | socat - /tmp/playersocket");
    assert_eq!(d.set_muted(false, "MPV"), "echo 'set mute no' | socat - /tmp/playersocket");
    assert_eq!(
        d.set_muted(true, "VLC"),
        "busctl --user set-property org.mpris.MediaPlayer2.vlc /org/mpris/MediaPlayer2 org.mpris.MediaPlayer2.Player Volume d 0"
    );
    assert_eq!(
        d.set_muted(false, "VLC"),
        "busctl --user set-property org.mpris.MediaPlayer2.vlc /org/mpris/MediaPlayer2 org.mpris.MediaPlayer2.Player Volume d 50"
    );
}

#[test]
fn seek_commands() {
    let d = device(None);
    assert_eq!(d.seek_forward("MPV"), "echo 'seek 10' | socat - /tmp/playersocket");
    assert_eq!(d.seek_backward("MPV"), "echo 'seek -10' | socat - /tmp/playersocket");
    assert_eq!(
        d.seek_forward("VLC"),
        "busctl --user call org.mpris.MediaPlayer2.vlc -- /org/mpris/MediaPlayer2 org.mpris.MediaPlayer2.Player Seek x 10000000"
    );
    assert_eq!(
        d.seek_backward("VLC"),
        "busctl --user call org.mpris.MediaPlayer2.vlc -- /org/mpris/MediaPlayer2 org.mpris.MediaPlayer2.Player Seek x -10000000"
    );
}

#[test]
fn queries() {
    let d = device(None);
    assert_eq!(
        d.duration_query("MPV"),
        "echo '{\"command\": [\"get_property\", \"duration\"]}' | socat - /tmp/playersocket"
    );
    assert_eq!(
        d.position_query("MPV"),
        "echo '{\"command\": [\"get_property\", \"playback-time\"]}' | socat - /tmp/playersocket"
    );
    assert_eq!(
        d.duration_query("VLC"),
        "busctl --user get-property org.mpris.MediaPlayer2.vlc /org/mpris/MediaPlayer2 org.mpris.MediaPlayer2.Player Metadata"
    );
    assert_eq!(d.metadata_query(), d.duration_query("VLC"));
    assert_eq!(
        d.position_query("VLC"),
        "busctl --user get-property org.mpris.MediaPlayer2.vlc /org/mpris/MediaPlayer2 org.mpris.MediaPlayer2.Player Position"
    );
}

const METADATA: &str = "a{sv} 3 \"mpris:trackid\" o \"/org/videolan/vlc/playlist/4\" \"mpris:length\" x 1440000000 \"xesam:title\" s \"ep\"";

#[test]
fn length_and_track_tokens() {
    let d = device(None);
    assert_eq!(d.length_token(METADATA), Some("1440000000".to_string()));
    assert_eq!(d.length_token("nothing here"), None);
    assert_eq!(d.length_token("\"mpris:length\" x"), None);
    assert_eq!(d.track_id(METADATA), Some("\"/org/videolan/vlc/playlist/4\"".to_string()));
    assert_eq!(d.track_id("a{sv} 0"), Some("/".to_string()));
    assert_eq!(d.track_id("\"mpris:trackid\""), None);
}

#[test]
fn position_token() {
    let d = device(None);
    assert_eq!(d.position_token("x 12500000\n"), Some("12500000".to_string()));
    assert_eq!(d.position_token("  x  "), None);
}

#[test]
fn seek_to_command() {
    let d = device(None);
    assert_eq!(
        d.seek_to_command("/org/videolan/vlc/playlist/4", 75),
        "dbus-send --session --dest=org.mpris.MediaPlayer2.vlc --type=method_call /org/mpris/MediaPlayer2 org.mpris.MediaPlayer2.Player.SetPosition objpath:/org/videolan/vlc/playlist/4 int64:75000000"
    );
    assert!(d.seek_to_command("/", -2).ends_with("int64:-2000000"));
    assert!(d.seek_to_command("/", 0).ends_with("int64:0"));
}
