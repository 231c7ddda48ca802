use ronajo::config::{
    change_config_path, config_root, device_file, devices_path, in_library, library_path,
    notes_path, ratings_path, setup_config, show_file,
};

#[test]
fn root_from_setting() {
    assert_eq!(config_root("Home", "/home/me"), "/home/me");
    assert_eq!(config_root("/data", "/home/me"), "/data");
}

#[test]
fn folders_under_root() {
    assert_eq!(library_path("/home/me"), "/home/me/.ronajo/library");
    assert_eq!(notes_path("/home/me"), "/home/me/.ronajo/notes");
    assert_eq!(ratings_path("/home/me"), "/home/me/.ronajo/ratings");
    assert_eq!(devices_path("/home/me"), "/home/me/.ronajo/ratings");
    assert_eq!(
        setup_config("/r"),
        vec![
            "/r/.ronajo".to_string(),
            "/r/.ronajo/ratings".to_string(),
            "/r/.ronajo/notes".to_string(),
            "/r/.ronajo/devices".to_string(),
            "/r/.ronajo/library".to_string(),
        ]
    );
    assert_eq!(change_config_path("/a", "/b"), ("/a/.ronajo".to_string(), "/b/.ronajo".to_string()));
}

#[test]
fn files_in_folders() {
    assert_eq!(show_file("/lib", 0), "/lib/0");
    assert_eq!(show_file("/lib", 4294967295), "/lib/4294967295");
    assert_eq!(device_file("/dev", "tv"), "/dev/tv");
    assert_ne!(show_file("/lib", 1), show_file("/lib", 10));
}

#[test]
fn library_membership() {
    let names = vec!["20".to_string(), "1735".to_string()];
    assert!(in_library(&names, 20));
    assert!(in_library(&names, 1735));
    assert!(!in_library(&names, 2));
    assert!(!in_library(&Vec::new(), 0));
}
