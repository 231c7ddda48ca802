//! The devices dialog: when a new device can be saved, which field hints
//! are shown, what is saved, and how connection errors are reported.

use vstd::prelude::*;
use crate::player_data::PlayerData;
use crate::text::{str_equals, trim_text, trimmed};

verus! {

/// Whether the entered fields are enough to save a device: an address and a
/// user name always, and a password unless the device uses a key.
pub open spec fn can_save(use_key: bool, address_empty: bool, username_empty: bool, password_empty: bool) -> bool {
    if use_key {
        !(username_empty || address_empty)
    } else {
        !(username_empty || address_empty || password_empty)
    }
}

/// Whether the save button is enabled for the entered fields.
pub fn save_enabled(use_key: bool, address_empty: bool, username_empty: bool, password_empty: bool) -> (b: bool)
    ensures
        b == can_save(use_key, address_empty, username_empty, password_empty),
{
    if use_key {
        !(username_empty || address_empty)
    } else {
        !(username_empty || address_empty || password_empty)
    }
}

/// Whether the "password required" hint is shown: only for password
/// authentication with an empty password.
pub fn password_hint_visible(use_key: bool, password_empty: bool) -> (b: bool)
    ensures
        b == (!use_key && password_empty),
{
    !use_key && password_empty
}

/// The device saved from the entered fields: with a key it keeps no
/// password, otherwise it keeps the entered one.
pub fn device_from_fields(name: String, address: String, username: String, password: String, use_key: bool) -> (d: PlayerData)
    ensures
        d.name == name,
        d.address == address,
        d.username == username,
        d.use_key == use_key,
        d.password == (if use_key {
            None
        } else {
            Some(password)
        }),
{
    if use_key {
        PlayerData::new(name, address, username, None, use_key)
    } else {
        PlayerData::new(name, address, username, Some(password), use_key)
    }
}

/// The message shown for a connection error, by its trimmed text: known
/// SSH failures get a short explanation, others keep their own text.
pub open spec fn error_title(err: Seq<char>) -> Option<Seq<char>> {
    let t = trimmed(err);
    if t == "failed to lookup address information: Temporary failure in name resolution"@ {
        Some("Couldn't connect to address"@)
    } else if t == "[Session(-18)] Authentication failed (username/password)"@ {
        Some("Invalid username or password"@)
    } else if t == "[Session(-42)] failed connecting with agent"@ {
        Some("Agent unavailable"@)
    } else {
        None
    }
}

/// The short explanation of a connection error, if it is a known one.
pub fn toast_title(err: &str) -> (r: Option<String>)
    ensures
        match r {
            Some(t) => error_title(err@) == Some(t@),
            None => error_title(err@) is None,
        },
{
    let t = trim_text(err);
    if str_equals(t.as_str(), "failed to lookup address information: Temporary failure in name resolution") {
        Some(String::from_str("Couldn't connect to address"))
    } else if str_equals(t.as_str(), "[Session(-18)] Authentication failed (username/password)") {
        Some(String::from_str("Invalid username or password"))
    } else if str_equals(t.as_str(), "[Session(-42)] failed connecting with agent") {
        Some(String::from_str("Agent unavailable"))
    } else {
        None
    }
}

/// The page of the devices list: an empty-state page without devices.
pub fn devices_page(n_items: u32) -> (page: &'static str)
    ensures
        page@ == (if n_items == 0 {
            "no-devices"@
        } else {
            "devices-list"@
        }),
{
    if n_items == 0 {
        "no-devices"
    } else {
        "devices-list"
    }
}

/// A device is asked for its password before remote playback exactly when
/// it does not use a key.
pub fn needs_password_prompt(device: &PlayerData) -> (b: bool)
    ensures
        b == !device.use_key,
{
    !device.use_key
}

/// A device can be saved exactly when its address and user name are filled
/// in and, unless it uses a key, its password too: an empty address or user
/// name always keeps the save button disabled, whatever the authentication.
pub proof fn save_needs_required_fields(
    use_key: bool,
    address_empty: bool,
    username_empty: bool,
    password_empty: bool,
)
    ensures
        address_empty ==> !can_save(use_key, address_empty, username_empty, password_empty),
        username_empty ==> !can_save(use_key, address_empty, username_empty, password_empty),
        !use_key && password_empty ==> !can_save(
            use_key,
            address_empty,
            username_empty,
            password_empty,
        ),
        !address_empty && !username_empty && (use_key || !password_empty) ==> can_save(
            use_key,
            address_empty,
            username_empty,
            password_empty,
        ),
{
}

} // verus!
