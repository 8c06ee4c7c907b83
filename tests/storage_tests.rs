use ruffle_libretro::storage::{is_path_allowed, join_path, mkdir_outcome, RetroVfsStorageBackend, StorageError};
use std::path::Path;

#[test]
fn join_matches_path_join() {
    for (base, rel) in [("/saves", "SharedObjects"), ("/saves/", "x"), ("", "x"), ("/a", "/etc/passwd"), ("a", "")] {
        assert_eq!(join_path(base, rel), Path::new(base).join(rel).to_str().unwrap(), "{base} {rel}");
    }
}

#[test]
fn parent_components_are_refused() {
    assert!(is_path_allowed("/saves/SharedObjects/game.sol"));
    assert!(is_path_allowed("/saves/a..b/c...sol"));
    assert!(is_path_allowed("/saves/.hidden"));
    assert!(!is_path_allowed("/saves/../etc"));
    assert!(!is_path_allowed(".."));
    assert!(!is_path_allowed("a/.."));
    assert!(!is_path_allowed("../a"));
    assert!(!is_path_allowed("a/../"));
}

#[test]
fn shared_object_paths() {
    let s = RetroVfsStorageBackend::new("/saves");
    assert_eq!(s.shared_objects_path, "/saves/SharedObjects");
    assert_eq!(s.get_shared_object_path("localhost/game"), "/saves/SharedObjects/localhost/game.sol");
    assert_eq!(s.shared_object_location("localhost/game"), Some("/saves/SharedObjects/localhost/game.sol".to_string()));
    assert_eq!(s.shared_object_location("../../escape"), None);
    assert_eq!(s.shared_object_location("a/../b"), None);
}

#[test]
fn mkdir_codes() {
    assert!(mkdir_outcome(0, "/x").is_ok());
    assert!(mkdir_outcome(-2, "/x").is_ok());
    match mkdir_outcome(-1, "/x") {
        Err(StorageError::MkdirError(code, path)) => {
            assert_eq!(code, -1);
            assert_eq!(path, "/x");
        }
        _ => panic!("expected a mkdir error"),
    }
}
