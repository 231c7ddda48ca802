//! The preferences dialog: how stored settings select its rows and switches,
//! and which setting each change stores.

use vstd::prelude::*;
use crate::text::{lowercase, str_equals, to_lowercase_text};
use crate::show_object::is_filter_state;

verus! {

/// The values of the `config-path` setting the dialog offers, in row order.
pub open spec fn config_row_of(path: Seq<char>) -> Option<u32> {
    if path == "$HOME/.var/app/io.github.Ronajo"@ {
        Some(0)
    } else if path == "$HOME/.config"@ {
        Some(1)
    } else {
        None
    }
}

/// The row selected for a `config-path` setting.
pub fn config_row(path: &str) -> (row: u32)
    requires
        config_row_of(path@) is Some,
    ensures
        Some(row) == config_row_of(path@),
{
    if str_equals(path, "$HOME/.var/app/io.github.Ronajo") {
        0
    } else {
        1
    }
}

/// The row selected for a `player` setting: MPV first, VLC second.
pub open spec fn player_row_of(player: Seq<char>) -> Option<u32> {
    if player == "MPV"@ {
        Some(0)
    } else if player == "VLC"@ {
        Some(1)
    } else {
        None
    }
}

/// The row selected for a `player` setting.
pub fn player_row(player: &str) -> (row: u32)
    requires
        player_row_of(player@) is Some,
    ensures
        Some(row) == player_row_of(player@),
{
    if str_equals(player, "MPV") {
        0
    } else {
        1
    }
}

/// The row selected for a `translation` setting: sub first, dub second.
pub open spec fn translation_row_of(translation: Seq<char>) -> Option<u32> {
    if translation == "sub"@ {
        Some(0)
    } else if translation == "dub"@ {
        Some(1)
    } else {
        None
    }
}

/// The row selected for a `translation` setting.
pub fn translation_row(translation: &str) -> (row: u32)
    requires
        translation_row_of(translation@) is Some,
    ensures
        Some(row) == translation_row_of(translation@),
{
    if str_equals(translation, "sub") {
        0
    } else {
        1
    }
}

/// The `translation` setting stored for a selected row label: the label in
/// lower case.
pub fn translation_setting(label: &str) -> (s: String)
    ensures
        s@ == lowercase(label@),
{
    to_lowercase_text(label)
}

/// The states of the "adult content" and "ecchi content" switches for a
/// `filter` setting.
pub open spec fn switches_of(filter: Seq<char>) -> (bool, bool) {
    if filter == "nsfw"@ {
        (true, false)
    } else if filter == "nsfw-with-ecchi"@ {
        (true, true)
    } else if filter == "sfw-with-ecchi"@ {
        (false, true)
    } else {
        (false, false)
    }
}

/// The switch states shown for a `filter` setting, adult switch first.
pub fn filter_switches(filter: &str) -> (s: (bool, bool))
    requires
        is_filter_state(filter@),
    ensures
        s == switches_of(filter@),
{
    if str_equals(filter, "nsfw") {
        (true, false)
    } else if str_equals(filter, "nsfw-with-ecchi") {
        (true, true)
    } else if str_equals(filter, "sfw-with-ecchi") {
        (false, true)
    } else {
        (false, false)
    }
}

/// The `filter` setting stored when the adult switch changes, given both
/// switch states.
pub open spec fn filter_from_switches(nsfw: bool, ecchi: bool) -> Seq<char> {
    if nsfw {
        if ecchi {
            "nsfw-with-ecchi"@
        } else {
            "nsfw"@
        }
    } else {
        if ecchi {
            "sfw-with-ecchi"@
        } else {
            "sfw"@
        }
    }
}

/// The `filter` setting stored when the adult switch changes.
pub fn nsfw_switch_filter(nsfw: bool, ecchi: bool) -> (f: String)
    ensures
        f@ == filter_from_switches(nsfw, ecchi),
{
    if nsfw {
        if ecchi {
            String::from_str("nsfw-with-ecchi")
        } else {
            String::from_str("nsfw")
        }
    } else {
        if ecchi {
            String::from_str("sfw-with-ecchi")
        } else {
            String::from_str("sfw")
        }
    }
}

/// The `filter` setting stored when the ecchi switch changes: safe for work
/// with ecchi when it is on, safe for work when it is off.
pub fn ecchi_switch_filter(ecchi: bool) -> (f: String)
    ensures
        f@ == (if ecchi {
            "sfw-with-ecchi"@
        } else {
            "sfw"@
        }),
{
    if ecchi {
        String::from_str("sfw-with-ecchi")
    } else {
        String::from_str("sfw")
    }
}

/// Showing a `filter` setting on the switches and storing what the adult
/// switch then reports gives back the same setting.
pub proof fn switches_round_trip(filter: Seq<char>)
    requires
        is_filter_state(filter),
    ensures
        filter_from_switches(switches_of(filter).0, switches_of(filter).1) == filter,
{
    reveal_strlit("sfw");
    reveal_strlit("nsfw");
    reveal_strlit("sfw-with-ecchi");
    reveal_strlit("nsfw-with-ecchi");
}

/// The rows of the preferences dialog: the Flatpak data folder, MPV and
/// subtitles are the first rows, the configuration folder, VLC and dubbing
/// the second, and no other setting value selects a row.
pub proof fn preference_rows(value: Seq<char>)
    ensures
        config_row_of("$HOME/.var/app/io.github.Ronajo"@) == Some(0u32),
        config_row_of("$HOME/.config"@) == Some(1u32),
        player_row_of("MPV"@) == Some(0u32),
        player_row_of("VLC"@) == Some(1u32),
        translation_row_of("sub"@) == Some(0u32),
        translation_row_of("dub"@) == Some(1u32),
        config_row_of(value) is Some ==> value == "$HOME/.var/app/io.github.Ronajo"@ || value
            == "$HOME/.config"@,
        player_row_of(value) is Some ==> value == "MPV"@ || value == "VLC"@,
        translation_row_of(value) is Some ==> value == "sub"@ || value == "dub"@,
{
    reveal_strlit("$HOME/.var/app/io.github.Ronajo");
    reveal_strlit("$HOME/.config");
    reveal_strlit("MPV");
    reveal_strlit("VLC");
    reveal_strlit("sub");
    reveal_strlit("dub");
    assert("$HOME/.var/app/io.github.Ronajo"@.len() != "$HOME/.config"@.len());
    assert("MPV"@[0] != "VLC"@[0]);
    assert("sub"@[0] != "dub"@[0]);
}

/// The setting the adult switch stores for each state of the two switches:
/// adult shows are allowed exactly when the adult switch is on, ecchi shows
/// exactly when the ecchi switch is on.
pub proof fn nsfw_switch_settings()
    ensures
        filter_from_switches(true, true) == "nsfw-with-ecchi"@,
        filter_from_switches(true, false) == "nsfw"@,
        filter_from_switches(false, true) == "sfw-with-ecchi"@,
        filter_from_switches(false, false) == "sfw"@,
{
}

} // verus!
