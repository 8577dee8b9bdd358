use autodl::errors::SubmitError;
use autodl::paths::{check_subdirectory, join_under_root, log_path, path_stays_within};

#[test]
fn ordinary_subdirectory_is_accepted() {
    let r = check_subdirectory("/data/media", "batch1");
    assert_eq!(r, Ok("/data/media/batch1".to_string()));
}

#[test]
fn nested_subdirectory_is_accepted() {
    let r = check_subdirectory("/data/media", "a/b/c");
    assert_eq!(r, Ok("/data/media/a/b/c".to_string()));
}

#[test]
fn empty_subdirectory_resolves_to_the_root_itself() {
    let r = check_subdirectory("/data/media", "");
    assert_eq!(r, Ok("/data/media".to_string()));
}

#[test]
fn dot_subdirectory_resolves_to_the_root_itself() {
    let r = check_subdirectory("/data/media", ".");
    assert_eq!(r, Ok("/data/media".to_string()));
}

#[test]
fn escaping_subdirectory_is_rejected() {
    let r = check_subdirectory("/data/media", "../../escape");
    assert_eq!(r, Err(SubmitError::PathEscape));
}

#[test]
fn parent_of_root_is_rejected() {
    assert_eq!(check_subdirectory("/data/media", ".."), Err(SubmitError::PathEscape));
    assert_eq!(check_subdirectory("/data/media", "a/../../.."), Err(SubmitError::PathEscape));
}

#[test]
fn inner_dotdot_that_stays_under_the_root_is_accepted() {
    let r = check_subdirectory("/data/media", "a/../b");
    assert_eq!(r, Ok("/data/media/b".to_string()));
}

#[test]
fn sibling_with_shared_prefix_is_rejected() {
    // "/data/media-extra" begins with the characters of "/data/media" but is
    // not under it; the component boundary check must refuse it.
    assert!(!path_stays_within("/data/media", "/data/media-extra"));
    assert!(path_stays_within("/data/media", "/data/media/x"));
    assert!(path_stays_within("/data/media", "/data/media"));
    assert!(path_stays_within("/", "/anything"));
}

#[test]
fn join_under_root_inserts_one_separator() {
    assert_eq!(join_under_root("/a", "b"), "/a/b".to_string());
    assert_eq!(join_under_root("", ""), "/".to_string());
}

#[test]
fn log_path_is_dir_slash_id_dot_log() {
    assert_eq!(log_path("./logs", "2024-01-02T03:04:05.678Z"), "./logs/2024-01-02T03:04:05.678Z.log".to_string());
}

#[test]
fn distinct_ids_give_distinct_log_paths() {
    let a = log_path("./logs", "2024-01-02T03:04:05.678Z");
    let b = log_path("./logs", "2024-01-02T03:04:05.679Z");
    assert_ne!(a, b);
}
