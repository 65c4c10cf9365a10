use std::io::{Cursor, Write};

use arr_backup::archive::extract_plan_from_bytes;
use arr_backup::errors::ExtractError;
use arr_backup::extract::ExtractAction;
use zip::write::SimpleFileOptions;

fn zip_of(entries: &[(&str, Option<&[u8]>)]) -> Vec<u8> {
    let mut w = zip::ZipWriter::new(Cursor::new(Vec::new()));
    let opts = SimpleFileOptions::default();
    for (name, data) in entries {
        match data {
            Some(bytes) => {
                w.start_file(*name, opts).unwrap();
                w.write_all(bytes).unwrap();
            },
            None => {
                w.add_directory(*name, opts).unwrap();
            },
        }
    }
    w.finish().unwrap().into_inner()
}

#[test]
fn file_and_directory_extract_as_expected() {
    // Archive holding `a/b.txt` ("hello") and the directory entry `a/`:
    // the plan writes `a/b.txt` with `hello` and ensures directory `a`.
    let bytes = zip_of(&[("a/b.txt", Some(b"hello")), ("a/", None)]);
    let plan = extract_plan_from_bytes(bytes).unwrap();
    assert_eq!(
        plan,
        vec![
            ExtractAction::WriteFile { path: b"a/b.txt".to_vec(), data: b"hello".to_vec() },
            ExtractAction::EnsureDir { path: b"a".to_vec() },
        ]
    );
}

#[test]
fn plan_covers_every_entry_once_in_order() {
    let bytes = zip_of(&[
        ("d/", None),
        ("d/one.txt", Some(b"1")),
        ("two.txt", Some(b"22")),
    ]);
    let plan = extract_plan_from_bytes(bytes).unwrap();
    assert_eq!(plan.len(), 3);
    assert_eq!(plan[0], ExtractAction::EnsureDir { path: b"d".to_vec() });
    assert_eq!(
        plan[1],
        ExtractAction::WriteFile { path: b"d/one.txt".to_vec(), data: b"1".to_vec() }
    );
    assert_eq!(
        plan[2],
        ExtractAction::WriteFile { path: b"two.txt".to_vec(), data: b"22".to_vec() }
    );
}

#[test]
fn traversal_entry_fails_whole_plan() {
    let bytes = zip_of(&[
        ("ok.txt", Some(b"fine")),
        ("../../etc/passwd", Some(b"evil")),
        ("after.txt", Some(b"later")),
    ]);
    assert_eq!(extract_plan_from_bytes(bytes), Err(ExtractError::UnsafePath));
}

#[test]
fn backslash_traversal_entry_fails_whole_plan() {
    let bytes = zip_of(&[("..\\..\\x", Some(b"evil"))]);
    assert_eq!(extract_plan_from_bytes(bytes), Err(ExtractError::UnsafePath));
}

#[test]
fn garbage_bytes_are_refused() {
    assert_eq!(
        extract_plan_from_bytes(b"not a zip archive at all".to_vec()),
        Err(ExtractError::BadArchive)
    );
}

#[test]
fn empty_archive_plans_nothing() {
    let bytes = zip_of(&[]);
    assert_eq!(extract_plan_from_bytes(bytes), Ok(Vec::new()));
}
