use pan_upload::listing::{choose_initial_path, FileInfo};

#[test]
fn file_entry_reports_its_size() {
    let f = FileInfo::new(
        "a.txt".to_string(),
        "/tmp/a.txt".to_string(),
        false,
        123,
        false,
        Some(5000),
    );
    assert_eq!(f.size, Some(123));
    assert_eq!(f.modified, Some(5000));
    assert!(!f.is_dir);
}

#[test]
fn directory_entry_reports_no_size() {
    let d = FileInfo::new("sub".to_string(), "/tmp/sub".to_string(), true, 4096, true, None);
    assert_eq!(d.size, None);
    assert!(d.is_dir);
    assert!(d.readonly);
}

#[test]
fn initial_path_prefers_executable_directory() {
    let r = choose_initial_path(
        Some("/bin".to_string()),
        Some("/home/u".to_string()),
        Some("/data".to_string()),
    );
    assert_eq!(r, Some("/bin".to_string()));
}

#[test]
fn initial_path_falls_back_in_order() {
    assert_eq!(
        choose_initial_path(None, Some("/home/u".to_string()), Some("/data".to_string())),
        Some("/home/u".to_string())
    );
    assert_eq!(
        choose_initial_path(None, None, Some("/data".to_string())),
        Some("/data".to_string())
    );
    assert_eq!(choose_initial_path(None, None, None), None);
}
