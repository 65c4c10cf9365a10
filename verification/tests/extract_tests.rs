use arr_backup::errors::ExtractError;
use arr_backup::extract::{
    check_write_target, join_path, plan_one, sanitize_entry_path, ExtractAction,
};

#[test]
fn traversal_path_is_unsafe() {
    let r = plan_one(b"../../etc/passwd".to_vec(), false, Vec::new());
    assert_eq!(r, Err(ExtractError::UnsafePath));
}

#[test]
fn absolute_path_is_unsafe() {
    let r = plan_one(b"/etc/passwd".to_vec(), false, Vec::new());
    assert_eq!(r, Err(ExtractError::UnsafePath));
}

#[test]
fn empty_and_nul_paths_are_unsafe() {
    assert_eq!(plan_one(Vec::new(), false, Vec::new()), Err(ExtractError::UnsafePath));
    assert_eq!(plan_one(b"a\0b".to_vec(), false, Vec::new()), Err(ExtractError::UnsafePath));
}

#[test]
fn parent_steps_inside_are_resolved() {
    let r = plan_one(b"a/../b.txt".to_vec(), false, b"x".to_vec());
    assert_eq!(
        r,
        Ok(ExtractAction::WriteFile { path: b"b.txt".to_vec(), data: b"x".to_vec() })
    );
}

#[test]
fn path_resolving_to_nothing_is_unsafe_for_a_file() {
    assert_eq!(plan_one(b"a/..".to_vec(), false, Vec::new()), Err(ExtractError::UnsafePath));
    assert_eq!(plan_one(b".".to_vec(), false, Vec::new()), Err(ExtractError::UnsafePath));
}

#[test]
fn backslash_traversal_is_unsafe() {
    let r = plan_one(b"..\\..\\x".to_vec(), false, Vec::new());
    assert_eq!(r, Err(ExtractError::UnsafePath));
}

#[test]
fn backslash_absolute_path_is_unsafe() {
    let r = plan_one(b"\\etc\\passwd".to_vec(), false, Vec::new());
    assert_eq!(r, Err(ExtractError::UnsafePath));
}

#[test]
fn windows_drive_prefix_is_unsafe() {
    assert_eq!(
        plan_one(b"C:\\evil.txt".to_vec(), false, Vec::new()),
        Err(ExtractError::UnsafePath)
    );
    assert_eq!(
        plan_one(b"C:evil.txt".to_vec(), false, Vec::new()),
        Err(ExtractError::UnsafePath)
    );
    assert_eq!(
        plan_one(b"a/stream:ads.txt".to_vec(), false, Vec::new()),
        Err(ExtractError::UnsafePath)
    );
}

#[test]
fn backslash_separates_components() {
    let comps = sanitize_entry_path(&b"a\\b\\c.txt".to_vec()).unwrap();
    assert_eq!(comps, vec![b"a".to_vec(), b"b".to_vec(), b"c.txt".to_vec()]);
    assert_eq!(join_path(&comps), b"a/b/c.txt".to_vec());
}

#[test]
fn directory_marker_becomes_ensure_dir() {
    let r = plan_one(b"a/".to_vec(), true, Vec::new());
    assert_eq!(r, Ok(ExtractAction::EnsureDir { path: b"a".to_vec() }));
}

#[test]
fn nested_file_keeps_its_relative_path() {
    let r = plan_one(b"a/b/c.txt".to_vec(), false, b"hi".to_vec());
    assert_eq!(
        r,
        Ok(ExtractAction::WriteFile { path: b"a/b/c.txt".to_vec(), data: b"hi".to_vec() })
    );
}

#[test]
fn sanitize_drops_empty_and_dot_components() {
    let comps = sanitize_entry_path(&b"a//b/./c".to_vec()).unwrap();
    assert_eq!(comps, vec![b"a".to_vec(), b"b".to_vec(), b"c".to_vec()]);
    assert_eq!(join_path(&comps), b"a/b/c".to_vec());
}

#[test]
fn sanitize_refuses_escape_after_resolution() {
    assert!(sanitize_entry_path(&b"a/b/../../../c".to_vec()).is_none());
}

#[test]
fn symlink_at_target_aborts_write() {
    assert_eq!(check_write_target(true), Err(ExtractError::SymlinkEncountered));
    assert_eq!(check_write_target(false), Ok(()));
}
