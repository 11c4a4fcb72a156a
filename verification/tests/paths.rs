//! Lookup paths and the paths of listed entries.
use rustic_vfs::path::{entry_path, normalize_path};
use rustic_vfs::text::{chars_of, string_of};

#[test]
fn lookup_path_gets_a_leading_slash() {
    assert_eq!(normalize_path("a/b"), "/a/b");
    assert_eq!(normalize_path("/a/b"), "/a/b");
}

#[test]
fn lookup_path_loses_trailing_slashes() {
    assert_eq!(normalize_path("a/b/"), "/a/b");
    assert_eq!(normalize_path("/a/b///"), "/a/b");
    assert_eq!(normalize_path("/[host]/[label]/latest/"), "/[host]/[label]/latest");
}

#[test]
fn root_is_a_single_slash() {
    assert_eq!(normalize_path(""), "/");
    assert_eq!(normalize_path("/"), "/");
    assert_eq!(normalize_path("//"), "/");
    assert_eq!(normalize_path("///"), "/");
}

#[test]
fn inner_and_leading_slashes_are_kept() {
    assert_eq!(normalize_path("//a//b/"), "//a//b");
    assert_eq!(normalize_path("a\\"), "/a\\");
}

#[test]
fn lookup_path_keeps_characters_of_any_width() {
    assert_eq!(normalize_path("dä/日本/🦀/"), "/dä/日本/🦀");
}

#[test]
fn normalizing_twice_changes_nothing() {
    for path in ["", "/", "//", "a", "a/", "/a/b//", "//a", "\\"] {
        let once = normalize_path(path);
        assert_eq!(normalize_path(&once), once);
    }
}

#[test]
fn slashes_at_the_ends_make_no_difference() {
    for path in ["", "/", "a", "a/b"] {
        assert_eq!(normalize_path(&format!("{path}/")), normalize_path(path));
        assert_eq!(normalize_path(&format!("/{path}")), normalize_path(path));
    }
    // A second slash in front is kept.
    assert_eq!(normalize_path("/a"), "/a");
    assert_eq!(normalize_path("//a"), "//a");
}

#[test]
fn entry_in_the_root_is_its_name() {
    assert_eq!(entry_path("/", "file", false), "file");
    assert_eq!(entry_path("/", "dir", true), "dir/");
    assert_eq!(entry_path("", "file", false), "file");
}

#[test]
fn entry_below_a_directory_is_relative_to_the_root() {
    assert_eq!(entry_path("/a/b", "file", false), "a/b/file");
    assert_eq!(entry_path("/a/b", "dir", true), "a/b/dir/");
    assert_eq!(entry_path("///a/b///", "dir", true), "a/b/dir/");
}

#[test]
fn backslashes_of_the_directory_become_slashes() {
    assert_eq!(entry_path("\\a\\b\\", "file", false), "a/b/file");
    assert_eq!(entry_path("/a", "x\\y", false), "a/x\\y");
    assert_eq!(entry_path("\\", "x", false), "x");
}

#[test]
fn trailing_slash_stands_for_a_directory() {
    assert_eq!(entry_path("/a", "dir/", true), "a/dir/");
    assert_eq!(entry_path("/a", "file//", false), "a/file");
    assert_eq!(entry_path("/", "", true), "/");
    assert_eq!(entry_path("/", "", false), "");
    assert_eq!(entry_path("/a", "", true), "a/");
    assert_eq!(entry_path("/a", "", false), "a");
}

#[test]
fn listed_path_leads_back_to_the_child() {
    for (dir, name, child) in [
        ("", "x", "/x"),
        ("/", "x", "/x"),
        ("a", "x", "/a/x"),
        ("/a/b/", "x", "/a/b/x"),
    ] {
        for is_dir in [true, false] {
            let listed = entry_path(&normalize_path(dir), name, is_dir);
            assert_eq!(normalize_path(&listed), child);
        }
    }
}

#[test]
fn children_with_different_names_are_listed_apart() {
    assert_ne!(entry_path("/a", "x", true), entry_path("/a", "y", true));
    assert_ne!(entry_path("/a", "x", true), entry_path("/a", "x", false));
}

#[test]
fn text_comes_apart_and_together_again() {
    let chars = chars_of("aä日🦀");
    assert_eq!(chars, vec!['a', 'ä', '日', '🦀']);
    assert_eq!(string_of(&chars, 0, 4), "aä日🦀");
    assert_eq!(string_of(&chars, 1, 3), "ä日");
    assert_eq!(string_of(&chars, 2, 2), "");
}
