use std::io::{Cursor, Write};

use northstar_dev_testing_helper_tool::extract::{
    is_allow_listed, is_safe_entry_name, launcher_staging_dir, plan_full_extract,
    plan_selective_extract, read_archive_entries, ExtractAction, ExtractError,
};

fn build_zip(entries: &[(&str, Option<&[u8]>)]) -> Vec<u8> {
    let mut zw = zip::ZipWriter::new(Cursor::new(Vec::new()));
    let opts = zip::write::SimpleFileOptions::default();
    for (name, data) in entries {
        match data {
            None => {
                zw.add_directory(name.to_string(), opts).unwrap();
            }
            Some(bytes) => {
                zw.start_file(name.to_string(), opts).unwrap();
                zw.write_all(bytes).unwrap();
            }
        }
    }
    zw.finish().unwrap().into_inner()
}

#[test]
fn read_entries_round_trip() {
    let bytes = build_zip(&[
        ("root/", None),
        ("root/a.txt", Some(b"alpha")),
        ("root/sub/", None),
        ("root/sub/b.bin", Some(&[0u8, 1, 2, 250])),
    ]);
    let entries = read_archive_entries(&bytes).unwrap();
    assert_eq!(entries.len(), 4);
    assert_eq!(entries[0].name, "root/");
    assert_eq!(entries[0].data, b"");
    assert_eq!(entries[1].name, "root/a.txt");
    assert_eq!(entries[1].data, b"alpha");
    assert_eq!(entries[2].name, "root/sub/");
    assert_eq!(entries[3].name, "root/sub/b.bin");
    assert_eq!(entries[3].data, vec![0u8, 1, 2, 250]);
}

#[test]
fn read_entries_rejects_garbage() {
    let bytes = vec![1u8, 2, 3, 4, 5];
    assert!(matches!(
        read_archive_entries(&bytes),
        Err(ExtractError::NotAnArchive)
    ));
}

#[test]
fn full_plan_recreates_tree_and_names_root() {
    let bytes = build_zip(&[
        ("repo-branch/", None),
        ("repo-branch/mod.json", Some(b"{}")),
        ("repo-branch/scripts/", None),
        ("repo-branch/scripts/run.nut", Some(b"code")),
    ]);
    let entries = read_archive_entries(&bytes).unwrap();
    let (root, actions) = plan_full_extract(&entries).unwrap();
    assert_eq!(root, "repo-branch");
    assert_eq!(actions.len(), 4);
    match &actions[0] {
        ExtractAction::MakeDir { path } => assert_eq!(path, "repo-branch/"),
        _ => panic!("expected a directory"),
    }
    match &actions[1] {
        ExtractAction::WriteFile { path, data, .. } => {
            assert_eq!(path, "repo-branch/mod.json");
            assert_eq!(data, b"{}");
        }
        _ => panic!("expected a file"),
    }
    match &actions[3] {
        ExtractAction::WriteFile { path, data, .. } => {
            assert_eq!(path, "repo-branch/scripts/run.nut");
            assert_eq!(data, b"code");
        }
        _ => panic!("expected a file"),
    }
}

#[test]
fn full_plan_skips_entries_with_unsafe_names() {
    let bytes = build_zip(&[
        ("root/", None),
        ("root/ok.txt", Some(b"fine")),
        ("root/../escape.txt", Some(b"evil")),
        ("/absolute.txt", Some(b"evil")),
    ]);
    let entries = read_archive_entries(&bytes).unwrap();
    let (root, actions) = plan_full_extract(&entries).unwrap();
    assert_eq!(root, "root");
    assert_eq!(actions.len(), 2);
    match &actions[1] {
        ExtractAction::WriteFile { path, .. } => assert_eq!(path, "root/ok.txt"),
        _ => panic!("expected a file"),
    }
}

#[test]
fn full_plan_requires_leading_directory_entry() {
    let bytes = build_zip(&[("loose-file.txt", Some(b"data"))]);
    let entries = read_archive_entries(&bytes).unwrap();
    assert!(matches!(
        plan_full_extract(&entries),
        Err(ExtractError::MissingRootDirectory)
    ));
}

#[test]
fn full_plan_rejects_empty_archive() {
    let bytes = build_zip(&[]);
    let entries = read_archive_entries(&bytes).unwrap();
    assert!(matches!(
        plan_full_extract(&entries),
        Err(ExtractError::MissingRootDirectory)
    ));
}

#[test]
fn selective_plan_takes_exactly_the_allow_list() {
    let bytes = build_zip(&[
        ("README.md", Some(b"docs")),
        ("Northstar.dll", Some(b"library-bytes")),
        ("sounds/boom.wav", Some(b"wav")),
        ("NorthstarLauncher.exe", Some(b"launcher-bytes")),
        ("NorthstarLauncher.exe.pdb", Some(b"symbols")),
    ]);
    let entries = read_archive_entries(&bytes).unwrap();
    let actions = plan_selective_extract(&entries);
    assert_eq!(actions.len(), 2);
    match &actions[0] {
        ExtractAction::WriteFile { path, data, .. } => {
            assert_eq!(path, "Northstar.dll");
            assert_eq!(data, b"library-bytes");
        }
        _ => panic!("expected a file"),
    }
    match &actions[1] {
        ExtractAction::WriteFile { path, data, .. } => {
            assert_eq!(path, "NorthstarLauncher.exe");
            assert_eq!(data, b"launcher-bytes");
        }
        _ => panic!("expected a file"),
    }
}

#[test]
fn selective_plan_of_unrelated_archive_is_empty() {
    let bytes = build_zip(&[("a.txt", Some(b"a")), ("b.txt", Some(b"b"))]);
    let entries = read_archive_entries(&bytes).unwrap();
    assert!(plan_selective_extract(&entries).is_empty());
}

#[test]
fn allow_list_is_exactly_two_names() {
    assert!(is_allow_listed(&"NorthstarLauncher.exe".to_string()));
    assert!(is_allow_listed(&"Northstar.dll".to_string()));
    assert!(!is_allow_listed(&"northstarlauncher.exe".to_string()));
    assert!(!is_allow_listed(&"NorthstarLauncher.exe.pdb".to_string()));
    assert!(!is_allow_listed(&"".to_string()));
}

#[test]
fn entry_name_safety() {
    assert!(is_safe_entry_name("root/a.txt"));
    assert!(is_safe_entry_name("root/"));
    assert!(is_safe_entry_name("a..b/c"));
    assert!(is_safe_entry_name("root/..hidden"));
    assert!(!is_safe_entry_name(""));
    assert!(!is_safe_entry_name("/etc/passwd"));
    assert!(!is_safe_entry_name(".."));
    assert!(!is_safe_entry_name("../x"));
    assert!(!is_safe_entry_name("a/../b"));
    assert!(!is_safe_entry_name("a/.."));
    assert!(!is_safe_entry_name("a/\0b"));
}

#[test]
fn staging_dir_name_is_fixed() {
    assert_eq!(launcher_staging_dir(), "ns-dev-test-helper-temp-pr-files");
}
