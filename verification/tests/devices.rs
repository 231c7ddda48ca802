use ronajo::devices::{
    device_from_fields, devices_page, needs_password_prompt, password_hint_visible, save_enabled,
    toast_title,
};

#[test]
fn save_button() {
    assert!(save_enabled(true, false, false, true));
    assert!(!save_enabled(true, true, false, false));
    assert!(!save_enabled(true, false, true, false));
    assert!(save_enabled(false, false, false, false));
    assert!(!save_enabled(false, false, false, true));
}

#[test]
fn password_hint() {
    assert!(password_hint_visible(false, true));
    assert!(!password_hint_visible(true, true));
    assert!(!password_hint_visible(false, false));
}

#[test]
fn saved_devices() {
    let d = device_from_fields("tv".into(), "host".into(), "me".into(), "pw".into(), true);
    assert_eq!(d.password, None);
    assert!(d.use_key);
    assert!(!needs_password_prompt(&d));
    let d = device_from_fields("tv".into(), "host".into(), "me".into(), "pw".into(), false);
    assert_eq!(d.password.as_deref(), Some("pw"));
    assert!(needs_password_prompt(&d));
}

#[test]
fn error_titles() {
    assert_eq!(
        toast_title(" failed to lookup address information: Temporary failure in name resolution\n"),
        Some("Couldn't connect to address".to_string())
    );
    assert_eq!(
        toast_title("[Session(-18)] Authentication failed (username/password)"),
        Some("Invalid username or password".to_string())
    );
    assert_eq!(
        toast_title("[Session(-42)] failed connecting with agent"),
        Some("Agent unavailable".to_string())
    );
    assert_eq!(toast_title("connection refused"), None);
}

#[test]
fn devices_list_page() {
    assert_eq!(devices_page(0), "no-devices");
    assert_eq!(devices_page(3), "devices-list");
}
