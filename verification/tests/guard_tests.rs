use veloxide::errors::ScaffoldError;
use veloxide::guard::{check_recursive_delete, delete_marker, path_safe_to_delete};

#[test]
fn guard_rejects_path_without_marker() {
    let r = check_recursive_delete("some/user/dir");
    match r {
        Err(ScaffoldError::PathNotSafeToDelete(p)) => assert_eq!(p, "some/user/dir"),
        _ => panic!("expected PathNotSafeToDelete"),
    }
}

#[test]
fn guard_accepts_path_with_marker() {
    assert!(check_recursive_delete("my-app/.git").is_ok());
    assert!(check_recursive_delete(".git").is_ok());
}

#[test]
fn guard_is_a_plain_substring_policy() {
    assert!(path_safe_to_delete("work/.gitmodules"));
    assert!(!path_safe_to_delete("my-app/frontends/react"));
    assert!(!path_safe_to_delete(""));
    assert_eq!(delete_marker(), ".git");
}
