//! Answers to `stat` and `list`.
use rustic_core::{ErrorKind as RusticKind, RusticError};
use rustic_vfs::backend::VfsBackend;
use rustic_vfs::error::{ErrorKind, VfsError};
use rustic_vfs::lister::VfsLister;
use rustic_vfs::node::{meta_from_node, EntryMetadata, EntryMode, Timestamp, VfsNode};

fn dir(name: &str) -> VfsNode {
    VfsNode { name: name.to_string(), is_dir: true, mtime: None, size: 0 }
}

fn file(name: &str, size: u64) -> VfsNode {
    let mtime = Some(Timestamp { second: 1_700_000_000, nanosecond: 5 });
    VfsNode { name: name.to_string(), is_dir: false, mtime, size }
}

fn refusal() -> Box<RusticError> {
    RusticError::new(RusticKind::Vfs, "no such name")
}

fn drain(mut lister: VfsLister) -> Vec<(String, EntryMetadata)> {
    let mut entries = Vec::new();
    while let Some(entry) = lister.next() {
        entries.push((entry.path, entry.metadata));
    }
    assert!(lister.next().is_none());
    entries
}

#[test]
fn metadata_of_a_file() {
    assert_eq!(
        meta_from_node(&file("x", 17)),
        EntryMetadata {
            mode: EntryMode::File,
            last_modified: Timestamp { second: 1_700_000_000, nanosecond: 5 },
            content_length: 17,
        }
    );
}

#[test]
fn metadata_of_a_directory_without_a_time() {
    assert_eq!(
        meta_from_node(&dir("x")),
        EntryMetadata {
            mode: EntryMode::Dir,
            last_modified: Timestamp { second: 0, nanosecond: 0 },
            content_length: 0,
        }
    );
}

#[test]
fn stat_gives_the_metadata_of_the_node() {
    let metadata = VfsBackend::stat(Ok(file("x", 9))).expect("the node is there");
    assert_eq!(metadata, meta_from_node(&file("x", 9)));
}

#[test]
fn stat_of_a_missing_path_is_not_found() {
    let error = VfsBackend::stat(Err(refusal())).expect_err("nothing is there");
    assert!(matches!(error, VfsError::PathNotFound { .. }));
    assert_eq!(error.kind(), ErrorKind::NotFound);
}

#[test]
fn lookup_hands_the_node_through() {
    assert_eq!(VfsBackend::node_from_path(Ok(5)).expect("found"), 5);
    let error = VfsBackend::node_from_path::<u8>(Err(refusal())).expect_err("missing");
    assert!(matches!(error, VfsError::PathNotFound { .. }));
}

#[test]
fn list_has_one_entry_per_child_in_order() {
    let children = vec![dir("sub"), file("b.txt", 3), file("a.txt", 4)];
    let lister = VfsBackend::list("a/b/", Ok(dir("b")), Ok(children)).expect("a directory");
    assert_eq!(
        drain(lister),
        vec![
            ("a/b/sub/".to_string(), meta_from_node(&dir("sub"))),
            ("a/b/b.txt".to_string(), meta_from_node(&file("b.txt", 3))),
            ("a/b/a.txt".to_string(), meta_from_node(&file("a.txt", 4))),
        ]
    );
}

#[test]
fn list_of_the_root_has_bare_names() {
    let lister = VfsBackend::list("/", Ok(dir("")), Ok(vec![dir("[host]")])).expect("the root");
    assert_eq!(drain(lister), vec![("[host]/".to_string(), meta_from_node(&dir("")))]);
}

#[test]
fn list_of_an_empty_directory_is_empty() {
    let lister = VfsBackend::list("a", Ok(dir("a")), Ok(Vec::new())).expect("a directory");
    assert!(drain(lister).is_empty());
}

#[test]
fn list_of_a_missing_path_is_not_found() {
    let error = VfsBackend::list("a", Err(refusal()), Ok(Vec::new())).expect_err("missing");
    assert!(matches!(error, VfsError::DirectoryNotFound { .. }));
    assert_eq!(error.kind(), ErrorKind::NotFound);
}

#[test]
fn list_of_unreadable_children_is_not_found() {
    let error = VfsBackend::list("a", Ok(dir("a")), Err(refusal())).expect_err("unreadable");
    assert!(matches!(error, VfsError::DirectoryNotFound { .. }));
    assert_eq!(error.kind(), ErrorKind::NotFound);
}

#[test]
fn list_of_a_file_is_not_found() {
    let error = VfsBackend::list("a", Ok(file("a", 1)), Ok(Vec::new())).expect_err("a file");
    assert!(matches!(error, VfsError::NotADirectory));
    assert_eq!(error.kind(), ErrorKind::NotFound);
    assert_eq!(error.message(), "Directory not found in VFS.");
}

#[test]
fn lister_hands_out_each_entry_once() {
    let mut lister = VfsLister::new("/a".to_string(), vec![file("x", 1)]);
    assert_eq!(lister.next().expect("one entry").path, "a/x");
    assert!(lister.next().is_none());
    assert!(lister.next().is_none());
}
