use pan_upload::paths::{effective_remote_dir, resolve_remote_path, DEFAULT_REMOTE_DIR};

#[test]
fn resolve_joins_directory_and_name() {
    assert_eq!(resolve_remote_path("/dir", "f.txt"), "/dir/f.txt");
}

#[test]
fn resolve_trims_trailing_separators() {
    assert_eq!(resolve_remote_path("/dir/", "f.txt"), "/dir/f.txt");
    assert_eq!(resolve_remote_path("/dir///", "a"), "/dir/a");
    assert_eq!(resolve_remote_path("/", "x"), "/x");
}

#[test]
fn resolve_empty_directory() {
    assert_eq!(resolve_remote_path("", "x"), "/x");
}

#[test]
fn effective_remote_dir_defaults_when_empty() {
    assert_eq!(effective_remote_dir(""), DEFAULT_REMOTE_DIR);
    assert_eq!(effective_remote_dir("/mine"), "/mine");
}
