//! Remote playback devices and the commands that drive a media player on
//! them over SSH.

use vstd::prelude::*;
use crate::text::{chars_of, contains_chars, decimal, digit_char, occurs_at, occurs_in, push_decimal, split_words, str_equals, texts, words};

verus! {

/// The control socket the remote MPV instance listens on.
pub const SOCKET_PATH: &'static str = "/tmp/playersocket";

/// A remote playback device: how it is named and reached, and whether it is
/// reached with a key held by the SSH agent instead of a password.
#[derive(Clone, Debug, Default)]
pub struct PlayerData {
    pub name: String,
    pub address: String,
    pub username: String,
    pub password: Option<String>,
    pub use_key: bool,
}

/// Where and as whom to open an SSH session; without a password the
/// session authenticates through the SSH agent.
#[derive(Clone, Debug)]
pub struct SshTarget {
    pub address: String,
    pub username: String,
    pub password: Option<String>,
}

/// Why a remote command cannot be issued.
#[derive(Clone, Copy, Debug, PartialEq, Eq)]
pub enum PlayerError {
    /// The player offers no such operation.
    Unsupported,
}

/// The players a device can drive.
pub open spec fn is_player(p: Seq<char>) -> bool {
    p == "MPV"@ || p == "VLC"@
}

/// Decides `is_player`.
pub fn known_player(player: &str) -> (b: bool)
    ensures
        b == is_player(player@),
{
    str_equals(player, "MPV") || str_equals(player, "VLC")
}

/// `echo '<message>' | socat - <socket>`: a message to the MPV control socket.
pub open spec fn mpv_message(message: Seq<char>) -> Seq<char> {
    "echo '"@ + message + "' | socat - "@ + SOCKET_PATH@
}

/// A D-Bus method call on VLC's MPRIS player interface.
pub open spec fn vlc_call(method: Seq<char>) -> Seq<char> {
    "busctl --user call org.mpris.MediaPlayer2.vlc /org/mpris/MediaPlayer2 org.mpris.MediaPlayer2.Player "@
        + method
}

/// A D-Bus property write on VLC's MPRIS player interface.
pub open spec fn vlc_set_property(assignment: Seq<char>) -> Seq<char> {
    "busctl --user set-property org.mpris.MediaPlayer2.vlc /org/mpris/MediaPlayer2 org.mpris.MediaPlayer2.Player "@
        + assignment
}

/// A D-Bus seek by a signed number of microseconds on VLC.
pub open spec fn vlc_seek(offset: Seq<char>) -> Seq<char> {
    "busctl --user call org.mpris.MediaPlayer2.vlc -- /org/mpris/MediaPlayer2 org.mpris.MediaPlayer2.Player Seek x "@
        + offset
}

/// A D-Bus property read on VLC's MPRIS player interface.
pub open spec fn vlc_get_property(name: Seq<char>) -> Seq<char> {
    "busctl --user get-property org.mpris.MediaPlayer2.vlc /org/mpris/MediaPlayer2 org.mpris.MediaPlayer2.Player "@
        + name
}

/// The command that starts playing `url` on the device's display.
pub open spec fn start_command(url: Seq<char>, player: Seq<char>) -> Seq<char> {
    if player == "MPV"@ {
        "systemd-run --user --scope --unit=mpv-session --setenv=DISPLAY=:0 nohup setsid mpv "@ + url
            + " --input-ipc-server="@ + SOCKET_PATH@ + " --no-terminal > /dev/null 2>&1 &"@
    } else {
        "systemd-run --user --scope --unit=vlc-session --setenv=DISPLAY=:0 nohup setsid vlc "@ + url
            + " > /dev/null 2>&1 &"@
    }
}

/// The command that starts the Flatpak build of VLC, run when a native VLC
/// is not installed.
pub open spec fn flatpak_start_command(url: Seq<char>) -> Seq<char> {
    "systemd-run --user --scope --unit=vlc-session --setenv=DISPLAY=:0 nohup setsid flatpak run org.videolan.VLC "@
        + url + "  > /dev/null 2>&1 &"@
}

/// The command that quits the player.
pub open spec fn quit_command(player: Seq<char>) -> Seq<char> {
    if player == "MPV"@ {
        mpv_message("quit"@)
    } else {
        "pkill vlc"@
    }
}

/// The command that toggles between playing and paused.
pub open spec fn toggle_pause_command(player: Seq<char>) -> Seq<char> {
    if player == "MPV"@ {
        mpv_message("cycle pause"@)
    } else {
        vlc_call("PlayPause"@)
    }
}

/// The command that pauses (`paused`) or resumes playback.
pub open spec fn set_paused_command(paused: bool, player: Seq<char>) -> Seq<char> {
    if player == "MPV"@ {
        mpv_message("set pause "@ + if paused {
            "yes"@
        } else {
            "no"@
        })
    } else {
        vlc_call(
            if paused {
                "Pause"@
            } else {
                "Play"@
            },
        )
    }
}

/// The command that mutes (`muted`) or unmutes the player; VLC is unmuted
/// to half volume.
pub open spec fn set_muted_command(muted: bool, player: Seq<char>) -> Seq<char> {
    if player == "MPV"@ {
        mpv_message("set mute "@ + if muted {
            "yes"@
        } else {
            "no"@
        })
    } else {
        vlc_set_property(
            "Volume d "@ + if muted {
                "0"@
            } else {
                "50"@
            },
        )
    }
}

/// The command that seeks ten seconds forward.
pub open spec fn seek_forward_command(player: Seq<char>) -> Seq<char> {
    if player == "MPV"@ {
        mpv_message("seek 10"@)
    } else {
        vlc_seek("10000000"@)
    }
}

/// The command that seeks ten seconds backward.
pub open spec fn seek_backward_command(player: Seq<char>) -> Seq<char> {
    if player == "MPV"@ {
        mpv_message("seek -10"@)
    } else {
        vlc_seek("-10000000"@)
    }
}

/// The command that asks the player for the length of the media.
pub open spec fn duration_command(player: Seq<char>) -> Seq<char> {
    if player == "MPV"@ {
        mpv_message("{\"command\": [\"get_property\", \"duration\"]}"@)
    } else {
        vlc_get_property("Metadata"@)
    }
}

/// The command that asks the player for the playback position.
pub open spec fn position_command(player: Seq<char>) -> Seq<char> {
    if player == "MPV"@ {
        mpv_message("{\"command\": [\"get_property\", \"playback-time\"]}"@)
    } else {
        vlc_get_property("Position"@)
    }
}

/// The VLC command that moves track `track_id` to an absolute position,
/// given in microseconds.
pub open spec fn vlc_seek_to_command(track_id: Seq<char>, micros: int) -> Seq<char> {
    "dbus-send --session --dest=org.mpris.MediaPlayer2.vlc --type=method_call /org/mpris/MediaPlayer2 org.mpris.MediaPlayer2.Player.SetPosition objpath:"@
        + track_id + " int64:"@ + signed_decimal(micros)
}

/// Decimal rendering of an integer, with a leading `-` when negative.
pub open spec fn signed_decimal(n: int) -> Seq<char> {
    if n < 0 {
        "-"@ + decimal((-n) as nat)
    } else {
        decimal(n as nat)
    }
}

/// Whether VLC reported that it is not installed.
pub open spec fn reports_missing_command(output: Seq<char>) -> bool {
    occurs_in(output, "command not found"@)
}

/// The word two places after the first word that contains `field`, in the
/// words of a metadata listing, if there is such a word.
pub open spec fn field_value(listing: Seq<char>, field: Seq<char>) -> Option<Seq<char>> {
    let w = words(listing);
    if exists|k: int| 0 <= k < w.len() && occurs_in(w[k], field) {
        let k = choose|k: int|
            0 <= k < w.len() && occurs_in(w[k], field) && forall|j: int|
                0 <= j < k ==> !occurs_in(w[j], field);
        if k + 2 < w.len() {
            Some(w[k + 2])
        } else {
            None
        }
    } else {
        None
    }
}

/// Whether some word of the listing contains `field`.
pub open spec fn has_field(listing: Seq<char>, field: Seq<char>) -> bool {
    let w = words(listing);
    exists|k: int| 0 <= k < w.len() && occurs_in(w[k], field)
}

fn mpv_message_text(message: &str) -> (c: String)
    ensures
        c@ == mpv_message(message@),
{
    let mut c = String::from_str("echo '");
    c.append(message);
    c.append("' | socat - ");
    c.append(SOCKET_PATH);
    c
}

fn vlc_call_text(method: &str) -> (c: String)
    ensures
        c@ == vlc_call(method@),
{
    let mut c = String::from_str(
        "busctl --user call org.mpris.MediaPlayer2.vlc /org/mpris/MediaPlayer2 org.mpris.MediaPlayer2.Player ",
    );
    c.append(method);
    c
}

fn vlc_set_property_text(assignment: &str) -> (c: String)
    ensures
        c@ == vlc_set_property(assignment@),
{
    let mut c = String::from_str(
        "busctl --user set-property org.mpris.MediaPlayer2.vlc /org/mpris/MediaPlayer2 org.mpris.MediaPlayer2.Player ",
    );
    c.append(assignment);
    c
}

fn vlc_seek_text(offset: &str) -> (c: String)
    ensures
        c@ == vlc_seek(offset@),
{
    let mut c = String::from_str(
        "busctl --user call org.mpris.MediaPlayer2.vlc -- /org/mpris/MediaPlayer2 org.mpris.MediaPlayer2.Player Seek x ",
    );
    c.append(offset);
    c
}

fn vlc_get_property_text(name: &str) -> (c: String)
    ensures
        c@ == vlc_get_property(name@),
{
    let mut c = String::from_str(
        "busctl --user get-property org.mpris.MediaPlayer2.vlc /org/mpris/MediaPlayer2 org.mpris.MediaPlayer2.Player ",
    );
    c.append(name);
    c
}

/// The position of the first word that contains `field`, if any.
fn first_word_with(w: &Vec<String>, field: &str) -> (r: Option<usize>)
    ensures
        match r {
            Some(k) => k < w@.len() && occurs_in(w@[k as int]@, field@) && forall|j: int|
                0 <= j < k ==> !occurs_in(#[trigger] w@[j]@, field@),
            None => forall|j: int| 0 <= j < w@.len() ==> !occurs_in(#[trigger] w@[j]@, field@),
        },
{
    let needle = chars_of(field);
    for k in 0..w.len()
        invariant
            needle@ == field@,
            forall|j: int| 0 <= j < k ==> !occurs_in(#[trigger] w@[j]@, field@),
    {
        let cs = chars_of(w[k].as_str());
        if contains_chars(&cs, &needle) {
            return Some(k);
        }
    }
    None
}

/// The word two places after the first word of `listing` that contains
/// `field`, if there is one.
pub fn field_value_text(listing: &str, field: &str) -> (r: Option<String>)
    ensures
        match r {
            Some(v) => field_value(listing@, field@) == Some(v@),
            None => field_value(listing@, field@) is None,
        },
{
    let w = split_words(listing);
    let ghost ws = words(listing@);
    assert(ws.len() == w@.len());
    assert(forall|j: int| 0 <= j < w@.len() ==> #[trigger] w@[j]@ == ws[j]) by {
        assert forall|j: int| 0 <= j < w@.len() implies #[trigger] w@[j]@ == ws[j] by {
            assert(texts(w@)[j] == w@[j]@);
        }
    }
    match first_word_with(&w, field) {
        Some(k) => {
            proof {
                let kk = choose|kk: int|
                    0 <= kk < ws.len() && occurs_in(ws[kk], field@) && forall|j: int|
                        0 <= j < kk ==> !occurs_in(ws[j], field@);
                if kk < k {
                    assert(!occurs_in(w@[kk]@, field@));
                } else if k < kk {
                    assert(!occurs_in(ws[k as int], field@));
                }
            }
            if w.len() >= 2 && k < w.len() - 2 {
                Some(w[k + 2].clone())
            } else {
                None
            }
        },
        None => {
            proof {
                if exists|kk: int| 0 <= kk < ws.len() && occurs_in(ws[kk], field@) {
                    let kk = choose|kk: int| 0 <= kk < ws.len() && occurs_in(ws[kk], field@);
                    assert(!occurs_in(w@[kk]@, field@));
                }
            }
            None
        },
    }
}

impl PlayerData {
    /// A device with the given name, address, user, optional password and
    /// authentication choice.
    pub fn new(
        name: String,
        address: String,
        username: String,
        password: Option<String>,
        use_key: bool,
    ) -> (p: PlayerData)
        ensures
            p.name == name,
            p.address == address,
            p.username == username,
            p.password == password,
            p.use_key == use_key,
    {
        PlayerData { name, address, username, password, use_key }
    }

    /// The SSH session to open for this device: port 22 of its address, as
    /// its user, with its password when it has one and through the SSH agent
    /// otherwise.
    pub fn connect(&self) -> (t: SshTarget)
        ensures
            t.address@ == self.address@ + ":22"@,
            t.username@ == self.username@,
            t.password == self.password,
    {
        let mut address = self.address.clone();
        address.append(":22");
        SshTarget { address, username: self.username.clone(), password: self.password.clone() }
    }

    /// The command that starts playing `url` with the given player.
    pub fn start_session(&self, url: &str, player: &str) -> (cmd: String)
        requires
            is_player(player@),
        ensures
            cmd@ == start_command(url@, player@),
    {
        if str_equals(player, "MPV") {
            let mut c = String::from_str(
                "systemd-run --user --scope --unit=mpv-session --setenv=DISPLAY=:0 nohup setsid mpv ",
            );
            c.append(url);
            c.append(" --input-ipc-server=");
            c.append(SOCKET_PATH);
            c.append(" --no-terminal > /dev/null 2>&1 &");
            c
        } else {
            let mut c = String::from_str(
                "systemd-run --user --scope --unit=vlc-session --setenv=DISPLAY=:0 nohup setsid vlc ",
            );
            c.append(url);
            c.append(" > /dev/null 2>&1 &");
            c
        }
    }

    /// After VLC was started with `start_session`, the command to run next
    /// given what the first command printed: the Flatpak build of VLC when
    /// the output reports `command not found`, nothing otherwise.
    pub fn start_session_fallback(&self, url: &str, output: &str) -> (cmd: Option<String>)
        ensures
            match cmd {
                Some(c) => reports_missing_command(output@) && c@ == flatpak_start_command(url@),
                None => !reports_missing_command(output@),
            },
    {
        proof {
            reveal_strlit("command not found");
        }
        let out = chars_of(output);
        let needle = chars_of("command not found");
        if contains_chars(&out, &needle) {
            let mut c = String::from_str(
                "systemd-run --user --scope --unit=vlc-session --setenv=DISPLAY=:0 nohup setsid flatpak run org.videolan.VLC ",
            );
            c.append(url);
            c.append("  > /dev/null 2>&1 &");
            Some(c)
        } else {
            None
        }
    }

    /// The command that quits the player.
    pub fn quit(&self, player: &str) -> (cmd: String)
        requires
            is_player(player@),
        ensures
            cmd@ == quit_command(player@),
    {
        if str_equals(player, "MPV") {
            mpv_message_text("quit")
        } else {
            String::from_str("pkill vlc")
        }
    }

    /// The command sent for a screenshot: MPV is sent the same `quit`
    /// message as `quit` sends; VLC does not support it.
    pub fn screenshot(&self, player: &str) -> (cmd: Result<String, PlayerError>)
        requires
            is_player(player@),
        ensures
            player@ == "MPV"@ ==> (cmd matches Ok(c) && c@ == mpv_message("quit"@)),
            player@ == "VLC"@ ==> cmd == Err::<String, PlayerError>(PlayerError::Unsupported),
    {
        proof {
            reveal_strlit("MPV");
            reveal_strlit("VLC");
            assert("MPV"@[0] != "VLC"@[0]);
        }
        if str_equals(player, "MPV") {
            Ok(mpv_message_text("quit"))
        } else {
            Err(PlayerError::Unsupported)
        }
    }

    /// The command that toggles between playing and paused.
    pub fn toggle_pause(&self, player: &str) -> (cmd: String)
        requires
            is_player(player@),
        ensures
            cmd@ == toggle_pause_command(player@),
    {
        if str_equals(player, "MPV") {
            mpv_message_text("cycle pause")
        } else {
            vlc_call_text("PlayPause")
        }
    }

    /// The command that pauses (`paused`) or resumes playback.
    pub fn set_paused(&self, paused: bool, player: &str) -> (cmd: String)
        requires
            is_player(player@),
        ensures
            cmd@ == set_paused_command(paused, player@),
    {
        if str_equals(player, "MPV") {
            let mut m = String::from_str("set pause ");
            m.append(if paused { "yes" } else { "no" });
            mpv_message_text(m.as_str())
        } else {
            vlc_call_text(if paused { "Pause" } else { "Play" })
        }
    }

    /// The command that mutes (`muted`) or unmutes the player.
    pub fn set_muted(&self, muted: bool, player: &str) -> (cmd: String)
        requires
            is_player(player@),
        ensures
            cmd@ == set_muted_command(muted, player@),
    {
        if str_equals(player, "MPV") {
            let mut m = String::from_str("set mute ");
            m.append(if muted { "yes" } else { "no" });
            mpv_message_text(m.as_str())
        } else {
            let mut m = String::from_str("Volume d ");
            m.append(if muted { "0" } else { "50" });
            vlc_set_property_text(m.as_str())
        }
    }

    /// The command that seeks ten seconds forward.
    pub fn seek_forward(&self, player: &str) -> (cmd: String)
        requires
            is_player(player@),
        ensures
            cmd@ == seek_forward_command(player@),
    {
        if str_equals(player, "MPV") {
            mpv_message_text("seek 10")
        } else {
            vlc_seek_text("10000000")
        }
    }

    /// The command that seeks ten seconds backward.
    pub fn seek_backward(&self, player: &str) -> (cmd: String)
        requires
            is_player(player@),
        ensures
            cmd@ == seek_backward_command(player@),
    {
        if str_equals(player, "MPV") {
            mpv_message_text("seek -10")
        } else {
            vlc_seek_text("-10000000")
        }
    }

    /// The command that asks the player for the length of the media.
    pub fn duration_query(&self, player: &str) -> (cmd: String)
        requires
            is_player(player@),
        ensures
            cmd@ == duration_command(player@),
    {
        if str_equals(player, "MPV") {
            mpv_message_text("{\"command\": [\"get_property\", \"duration\"]}")
        } else {
            vlc_get_property_text("Metadata")
        }
    }

    /// The command that asks the player for the playback position.
    pub fn position_query(&self, player: &str) -> (cmd: String)
        requires
            is_player(player@),
        ensures
            cmd@ == position_command(player@),
    {
        if str_equals(player, "MPV") {
            mpv_message_text("{\"command\": [\"get_property\", \"playback-time\"]}")
        } else {
            vlc_get_property_text("Position")
        }
    }

    /// The command that reads VLC's track metadata, from which the track to
    /// seek in is taken.
    pub fn metadata_query(&self) -> (cmd: String)
        ensures
            cmd@ == vlc_get_property("Metadata"@),
    {
        vlc_get_property_text("Metadata")
    }

    /// The length field of VLC's metadata listing: the word two places after
    /// the first word containing `mpris:length`, if there is one.
    pub fn length_token(&self, listing: &str) -> (r: Option<String>)
        ensures
            match r {
                Some(v) => field_value(listing@, "mpris:length"@) == Some(v@),
                None => field_value(listing@, "mpris:length"@) is None,
            },
    {
        field_value_text(listing, "mpris:length")
    }

    /// The position value of VLC's position reply: its second word, if any.
    pub fn position_token(&self, reply: &str) -> (r: Option<String>)
        ensures
            match r {
                Some(v) => words(reply@).len() > 1 && v@ == words(reply@)[1],
                None => words(reply@).len() <= 1,
            },
    {
        let w = split_words(reply);
        if w.len() > 1 {
            assert(texts(w@)[1] == w@[1]@);
            Some(w[1].clone())
        } else {
            None
        }
    }

    /// The track to seek in, from VLC's metadata listing: the word two places
    /// after the first word containing `mpris:trackid`, or `/` when no word
    /// contains it; `None` when the word is missing from the listing.
    pub fn track_id(&self, listing: &str) -> (r: Option<String>)
        ensures
            match r {
                Some(v) => if has_field(listing@, "mpris:trackid"@) {
                    field_value(listing@, "mpris:trackid"@) == Some(v@)
                } else {
                    v@ == "/"@
                },
                None => has_field(listing@, "mpris:trackid"@) && field_value(
                    listing@,
                    "mpris:trackid"@,
                ) is None,
            },
    {
        let w = split_words(listing);
        let ghost ws = words(listing@);
        assert(forall|j: int| 0 <= j < w@.len() ==> #[trigger] w@[j]@ == ws[j]) by {
            assert forall|j: int| 0 <= j < w@.len() implies #[trigger] w@[j]@ == ws[j] by {
                assert(texts(w@)[j] == w@[j]@);
            }
        }
        match first_word_with(&w, "mpris:trackid") {
            Some(_) => field_value_text(listing, "mpris:trackid"),
            None => {
                proof {
                    if has_field(listing@, "mpris:trackid"@) {
                        let kk = choose|kk: int|
                            0 <= kk < ws.len() && occurs_in(ws[kk], "mpris:trackid"@);
                        assert(!occurs_in(w@[kk]@, "mpris:trackid"@));
                    }
                }
                Some(String::from_str("/"))
            },
        }
    }

    /// The VLC command that moves track `track_id` to `position` seconds.
    pub fn seek_to_command(&self, track_id: &str, position: i64) -> (cmd: String)
        requires
            -9223372036854 <= position <= 9223372036854,
        ensures
            cmd@ == vlc_seek_to_command(track_id@, position * 1000000),
    {
        let mut c = String::from_str(
            "dbus-send --session --dest=org.mpris.MediaPlayer2.vlc --type=method_call /org/mpris/MediaPlayer2 org.mpris.MediaPlayer2.Player.SetPosition objpath:",
        );
        c.append(track_id);
        c.append(" int64:");
        let micros = position * 1000000;
        if micros < 0 {
            c.append("-");
            push_decimal(&mut c, (-micros) as u64);
        } else {
            push_decimal(&mut c, micros as u64);
        }
        c
    }
}

/// VLC is reported missing exactly when the text `command not found` occurs
/// somewhere in the output, whatever surrounds it (the shell's name, the
/// command's name, a newline).
pub proof fn missing_command_is_any_occurrence(output: Seq<char>, before: Seq<char>, after: Seq<char>)
    ensures
        reports_missing_command(output) <==> exists|i: int|
            0 <= i && i + 17 <= output.len() && #[trigger] output.subrange(i, i + 17)
                == "command not found"@,
        reports_missing_command(before + "command not found"@ + after),
{
    reveal_strlit("command not found");
    let needle = "command not found"@;
    assert(needle.len() == 17);
    if reports_missing_command(output) {
        let i = choose|i: int| occurs_at(output, needle, i);
        assert(0 <= i && i + 17 <= output.len() && output.subrange(i, i + 17) == needle);
    }
    if exists|i: int|
        0 <= i && i + 17 <= output.len() && #[trigger] output.subrange(i, i + 17) == needle {
        let i = choose|i: int|
            0 <= i && i + 17 <= output.len() && #[trigger] output.subrange(i, i + 17) == needle;
        assert(occurs_at(output, needle, i));
    }
    let t = before + "command not found"@ + after;
    assert(t.subrange(before.len() as int, before.len() + 17int) =~= "command not found"@);
    assert(occurs_at(t, "command not found"@, before.len() as int));
}

/// The exact commands sent to each player: MPV is driven through its
/// control socket at `/tmp/playersocket`, VLC through its MPRIS interface on
/// the session bus; VLC is unmuted to half volume and seeks by ten million
/// microseconds.
pub proof fn player_commands(url: Seq<char>)
    ensures
        start_command(url, "MPV"@)
            == "systemd-run --user --scope --unit=mpv-session --setenv=DISPLAY=:0 nohup setsid mpv "@
            + url + " --input-ipc-server=/tmp/playersocket --no-terminal > /dev/null 2>&1 &"@,
        start_command(url, "VLC"@)
            == "systemd-run --user --scope --unit=vlc-session --setenv=DISPLAY=:0 nohup setsid vlc "@
            + url + " > /dev/null 2>&1 &"@,
        flatpak_start_command(url)
            == "systemd-run --user --scope --unit=vlc-session --setenv=DISPLAY=:0 nohup setsid flatpak run org.videolan.VLC "@
            + url + "  > /dev/null 2>&1 &"@,
        quit_command("MPV"@) == "echo 'quit' | socat - /tmp/playersocket"@,
        quit_command("VLC"@) == "pkill vlc"@,
        toggle_pause_command("MPV"@) == "echo 'cycle pause' | socat - /tmp/playersocket"@,
        toggle_pause_command("VLC"@)
            == "busctl --user call org.mpris.MediaPlayer2.vlc /org/mpris/MediaPlayer2 org.mpris.MediaPlayer2.Player PlayPause"@,
        set_paused_command(true, "MPV"@) == "echo 'set pause yes' | socat - /tmp/playersocket"@,
        set_paused_command(false, "MPV"@) == "echo 'set pause no' | socat - /tmp/playersocket"@,
        set_paused_command(true, "VLC"@)
            == "busctl --user call org.mpris.MediaPlayer2.vlc /org/mpris/MediaPlayer2 org.mpris.MediaPlayer2.Player Pause"@,
        set_paused_command(false, "VLC"@)
            == "busctl --user call org.mpris.MediaPlayer2.vlc /org/mpris/MediaPlayer2 org.mpris.MediaPlayer2.Player Play"@,
        set_muted_command(true, "MPV"@) == "echo 'set mute yes' | socat - /tmp/playersocket"@,
        set_muted_command(false, "MPV"@) == "echo 'set mute no' | socat - /tmp/playersocket"@,
        set_muted_command(true, "VLC"@)
            == "busctl --user set-property org.mpris.MediaPlayer2.vlc /org/mpris/MediaPlayer2 org.mpris.MediaPlayer2.Player Volume d 0"@,
        set_muted_command(false, "VLC"@)
            == "busctl --user set-property org.mpris.MediaPlayer2.vlc /org/mpris/MediaPlayer2 org.mpris.MediaPlayer2.Player Volume d 50"@,
        seek_forward_command("MPV"@) == "echo 'seek 10' | socat - /tmp/playersocket"@,
        seek_backward_command("MPV"@) == "echo 'seek -10' | socat - /tmp/playersocket"@,
        seek_forward_command("VLC"@)
            == "busctl --user call org.mpris.MediaPlayer2.vlc -- /org/mpris/MediaPlayer2 org.mpris.MediaPlayer2.Player Seek x 10000000"@,
        seek_backward_command("VLC"@)
            == "busctl --user call org.mpris.MediaPlayer2.vlc -- /org/mpris/MediaPlayer2 org.mpris.MediaPlayer2.Player Seek x -10000000"@,
{
    reveal_strlit("MPV");
    reveal_strlit("VLC");
    assert("MPV"@ != "VLC"@) by {
        assert("MPV"@[0] != "VLC"@[0]);
    }
    reveal_strlit("/tmp/playersocket");
    reveal_strlit("echo '");
    reveal_strlit("' | socat - ");
    reveal_strlit(" --input-ipc-server=");
    reveal_strlit(" --no-terminal > /dev/null 2>&1 &");
    reveal_strlit(" --input-ipc-server=/tmp/playersocket --no-terminal > /dev/null 2>&1 &");
    let a = " --input-ipc-server="@ + "/tmp/playersocket"@ + " --no-terminal > /dev/null 2>&1 &"@;
    assert(a =~= " --input-ipc-server=/tmp/playersocket --no-terminal > /dev/null 2>&1 &"@);
    let m = "systemd-run --user --scope --unit=mpv-session --setenv=DISPLAY=:0 nohup setsid mpv "@;
    assert(m + url + " --input-ipc-server="@ + "/tmp/playersocket"@
        + " --no-terminal > /dev/null 2>&1 &"@ =~= m + url + a);
    reveal_strlit("quit");
    reveal_strlit("echo 'quit' | socat - /tmp/playersocket");
    reveal_strlit("' | socat - /tmp/playersocket");
    assert("echo 'quit' | socat - /tmp/playersocket"@ =~= "echo '"@ + "quit"@ + "' | socat - /tmp/playersocket"@);
    lemma_mpv_message("quit"@, "echo 'quit' | socat - /tmp/playersocket"@);
    reveal_strlit("cycle pause");
    reveal_strlit("echo 'cycle pause' | socat - /tmp/playersocket");
    reveal_strlit("' | socat - /tmp/playersocket");
    assert("echo 'cycle pause' | socat - /tmp/playersocket"@ =~= "echo '"@ + "cycle pause"@ + "' | socat - /tmp/playersocket"@);
    lemma_mpv_message("cycle pause"@, "echo 'cycle pause' | socat - /tmp/playersocket"@);
    reveal_strlit("seek 10");
    reveal_strlit("echo 'seek 10' | socat - /tmp/playersocket");
    reveal_strlit("' | socat - /tmp/playersocket");
    assert("echo 'seek 10' | socat - /tmp/playersocket"@ =~= "echo '"@ + "seek 10"@ + "' | socat - /tmp/playersocket"@);
    lemma_mpv_message("seek 10"@, "echo 'seek 10' | socat - /tmp/playersocket"@);
    reveal_strlit("seek -10");
    reveal_strlit("echo 'seek -10' | socat - /tmp/playersocket");
    reveal_strlit("' | socat - /tmp/playersocket");
    assert("echo 'seek -10' | socat - /tmp/playersocket"@ =~= "echo '"@ + "seek -10"@ + "' | socat - /tmp/playersocket"@);
    lemma_mpv_message("seek -10"@, "echo 'seek -10' | socat - /tmp/playersocket"@);
    reveal_strlit("set pause ");
    reveal_strlit("set mute ");
    reveal_strlit("yes");
    reveal_strlit("no");
    reveal_strlit("set pause yes");
    reveal_strlit("set pause no");
    reveal_strlit("set mute yes");
    reveal_strlit("set mute no");
    assert("set pause "@ + "yes"@ =~= "set pause yes"@);
    assert("set pause "@ + "no"@ =~= "set pause no"@);
    assert("set mute "@ + "yes"@ =~= "set mute yes"@);
    assert("set mute "@ + "no"@ =~= "set mute no"@);
    reveal_strlit("set pause yes");
    reveal_strlit("echo 'set pause yes' | socat - /tmp/playersocket");
    reveal_strlit("' | socat - /tmp/playersocket");
    assert("echo 'set pause yes' | socat - /tmp/playersocket"@ =~= "echo '"@ + "set pause yes"@ + "' | socat - /tmp/playersocket"@);
    lemma_mpv_message("set pause yes"@, "echo 'set pause yes' | socat - /tmp/playersocket"@);
    reveal_strlit("set pause no");
    reveal_strlit("echo 'set pause no' | socat - /tmp/playersocket");
    reveal_strlit("' | socat - /tmp/playersocket");
    assert("echo 'set pause no' | socat - /tmp/playersocket"@ =~= "echo '"@ + "set pause no"@ + "' | socat - /tmp/playersocket"@);
    lemma_mpv_message("set pause no"@, "echo 'set pause no' | socat - /tmp/playersocket"@);
    reveal_strlit("set mute yes");
    reveal_strlit("echo 'set mute yes' | socat - /tmp/playersocket");
    reveal_strlit("' | socat - /tmp/playersocket");
    assert("echo 'set mute yes' | socat - /tmp/playersocket"@ =~= "echo '"@ + "set mute yes"@ + "' | socat - /tmp/playersocket"@);
    lemma_mpv_message("set mute yes"@, "echo 'set mute yes' | socat - /tmp/playersocket"@);
    reveal_strlit("set mute no");
    reveal_strlit("echo 'set mute no' | socat - /tmp/playersocket");
    reveal_strlit("' | socat - /tmp/playersocket");
    assert("echo 'set mute no' | socat - /tmp/playersocket"@ =~= "echo '"@ + "set mute no"@ + "' | socat - /tmp/playersocket"@);
    lemma_mpv_message("set mute no"@, "echo 'set mute no' | socat - /tmp/playersocket"@);
    let call = "busctl --user call org.mpris.MediaPlayer2.vlc /org/mpris/MediaPlayer2 org.mpris.MediaPlayer2.Player "@;
    reveal_strlit("busctl --user call org.mpris.MediaPlayer2.vlc /org/mpris/MediaPlayer2 org.mpris.MediaPlayer2.Player ");
    reveal_strlit("PlayPause");
    reveal_strlit("Pause");
    reveal_strlit("Play");
    reveal_strlit("busctl --user call org.mpris.MediaPlayer2.vlc /org/mpris/MediaPlayer2 org.mpris.MediaPlayer2.Player PlayPause");
    reveal_strlit("busctl --user call org.mpris.MediaPlayer2.vlc /org/mpris/MediaPlayer2 org.mpris.MediaPlayer2.Player Pause");
    reveal_strlit("busctl --user call org.mpris.MediaPlayer2.vlc /org/mpris/MediaPlayer2 org.mpris.MediaPlayer2.Player Play");
    assert(call + "PlayPause"@ =~= "busctl --user call org.mpris.MediaPlayer2.vlc /org/mpris/MediaPlayer2 org.mpris.MediaPlayer2.Player PlayPause"@);
    assert(call + "Pause"@ =~= "busctl --user call org.mpris.MediaPlayer2.vlc /org/mpris/MediaPlayer2 org.mpris.MediaPlayer2.Player Pause"@);
    assert(call + "Play"@ =~= "busctl --user call org.mpris.MediaPlayer2.vlc /org/mpris/MediaPlayer2 org.mpris.MediaPlayer2.Player Play"@);
    let setp = "busctl --user set-property org.mpris.MediaPlayer2.vlc /org/mpris/MediaPlayer2 org.mpris.MediaPlayer2.Player "@;
    reveal_strlit("busctl --user set-property org.mpris.MediaPlayer2.vlc /org/mpris/MediaPlayer2 org.mpris.MediaPlayer2.Player ");
    reveal_strlit("Volume d ");
    reveal_strlit("0");
    reveal_strlit("50");
    reveal_strlit("busctl --user set-property org.mpris.MediaPlayer2.vlc /org/mpris/MediaPlayer2 org.mpris.MediaPlayer2.Player Volume d 0");
    reveal_strlit("busctl --user set-property org.mpris.MediaPlayer2.vlc /org/mpris/MediaPlayer2 org.mpris.MediaPlayer2.Player Volume d 50");
    assert(setp + ("Volume d "@ + "0"@) =~= "busctl --user set-property org.mpris.MediaPlayer2.vlc /org/mpris/MediaPlayer2 org.mpris.MediaPlayer2.Player Volume d 0"@);
    assert(setp + ("Volume d "@ + "50"@) =~= "busctl --user set-property org.mpris.MediaPlayer2.vlc /org/mpris/MediaPlayer2 org.mpris.MediaPlayer2.Player Volume d 50"@);
    let sk = "busctl --user call org.mpris.MediaPlayer2.vlc -- /org/mpris/MediaPlayer2 org.mpris.MediaPlayer2.Player Seek x "@;
    reveal_strlit("busctl --user call org.mpris.MediaPlayer2.vlc -- /org/mpris/MediaPlayer2 org.mpris.MediaPlayer2.Player Seek x ");
    reveal_strlit("10000000");
    reveal_strlit("-10000000");
    reveal_strlit("busctl --user call org.mpris.MediaPlayer2.vlc -- /org/mpris/MediaPlayer2 org.mpris.MediaPlayer2.Player Seek x 10000000");
    reveal_strlit("busctl --user call org.mpris.MediaPlayer2.vlc -- /org/mpris/MediaPlayer2 org.mpris.MediaPlayer2.Player Seek x -10000000");
    assert(sk + "10000000"@ =~= "busctl --user call org.mpris.MediaPlayer2.vlc -- /org/mpris/MediaPlayer2 org.mpris.MediaPlayer2.Player Seek x 10000000"@);
    assert(sk + "-10000000"@ =~= "busctl --user call org.mpris.MediaPlayer2.vlc -- /org/mpris/MediaPlayer2 org.mpris.MediaPlayer2.Player Seek x -10000000"@);
}

proof fn lemma_mpv_message(message: Seq<char>, whole: Seq<char>)
    requires
        whole == "echo '"@ + message + "' | socat - /tmp/playersocket"@,
    ensures
        mpv_message(message) == whole,
{
    reveal_strlit("/tmp/playersocket");
    reveal_strlit("' | socat - ");
    reveal_strlit("' | socat - /tmp/playersocket");
    assert("' | socat - "@ + "/tmp/playersocket"@ =~= "' | socat - /tmp/playersocket"@);
    assert(mpv_message(message) =~= "echo '"@ + message + ("' | socat - "@ + SOCKET_PATH@));
}

proof fn lemma_decimal_times_ten(n: nat)
    requires
        n > 0,
    ensures
        decimal(n * 10) == decimal(n).push('0'),
{
    assert((n * 10) / 10 == n);
    assert((n * 10) % 10 == 0);
    assert(digit_char(0) == '0');
}

/// The VLC seek command gives the position in microseconds: the decimal
/// seconds followed by six zeros (just `0` at the start), with a `-` before
/// a negative position, after the track's object path.
pub proof fn seek_to_command_in_microseconds(track_id: Seq<char>, position: int)
    ensures
        vlc_seek_to_command(track_id, position * 1000000)
            == "dbus-send --session --dest=org.mpris.MediaPlayer2.vlc --type=method_call /org/mpris/MediaPlayer2 org.mpris.MediaPlayer2.Player.SetPosition objpath:"@
            + track_id + " int64:"@ + (if position < 0 {
            "-"@
        } else {
            Seq::empty()
        }) + decimal(
            (if position < 0 {
                -position
            } else {
                position
            }) as nat,
        ) + (if position == 0 {
            Seq::empty()
        } else {
            "000000"@
        }),
{
    reveal_strlit("000000");
    let a = (if position < 0 {
        -position
    } else {
        position
    }) as nat;
    if position == 0 {
        assert(position * 1000000 == 0);
    } else {
        lemma_decimal_times_ten(a);
        lemma_decimal_times_ten(a * 10);
        lemma_decimal_times_ten(a * 100);
        lemma_decimal_times_ten(a * 1000);
        lemma_decimal_times_ten(a * 10000);
        lemma_decimal_times_ten(a * 100000);
        assert(a * 10 * 10 == a * 100);
        assert(a * 100 * 10 == a * 1000);
        assert(a * 1000 * 10 == a * 10000);
        assert(a * 10000 * 10 == a * 100000);
        assert(a * 100000 * 10 == a * 1000000);
        assert(decimal(a * 1000000) =~= decimal(a) + "000000"@);
        if position < 0 {
            assert(-(position * 1000000) == a * 1000000);
        } else {
            assert(position * 1000000 == a * 1000000);
        }
    }
    let p = "dbus-send --session --dest=org.mpris.MediaPlayer2.vlc --type=method_call /org/mpris/MediaPlayer2 org.mpris.MediaPlayer2.Player.SetPosition objpath:"@
        + track_id + " int64:"@;
    if position < 0 {
        assert(vlc_seek_to_command(track_id, position * 1000000) =~= p + "-"@ + decimal(a)
            + "000000"@);
    } else if position == 0 {
        assert(vlc_seek_to_command(track_id, position * 1000000) =~= p + Seq::<char>::empty()
            + decimal(a) + Seq::<char>::empty());
    } else {
        assert(vlc_seek_to_command(track_id, position * 1000000) =~= p + Seq::<char>::empty()
            + decimal(a) + "000000"@);
    }
}

} // verus!
