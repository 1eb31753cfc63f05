use filenav::paths::is_up_entry;
use filenav::paths::join_path;
use filenav::paths::parent_of;

#[test]
fn parent_of_nested_path() {
    assert_eq!(parent_of("/a/b"), "/a");
}

#[test]
fn parent_of_first_level_is_root() {
    assert_eq!(parent_of("/a"), "/");
}

#[test]
fn parent_of_root_is_root() {
    assert_eq!(parent_of("/"), "/");
}

#[test]
fn parent_of_deep_path() {
    assert_eq!(parent_of("/usr/local/share"), "/usr/local");
}

#[test]
fn parent_of_ignores_trailing_separators() {
    assert_eq!(parent_of("/a/b/"), "/a");
    assert_eq!(parent_of("/a/"), "/");
    assert_eq!(parent_of("///"), "/");
}

#[test]
fn join_inserts_separator() {
    assert_eq!(join_path("/tmp", "notes"), "/tmp/notes");
}

#[test]
fn join_at_root_adds_no_second_separator() {
    assert_eq!(join_path("/", "etc"), "/etc");
}

#[test]
fn up_entry_is_recognised() {
    assert!(is_up_entry("../"));
    assert!(!is_up_entry(".."));
    assert!(!is_up_entry("src/"));
    assert!(!is_up_entry(""));
}
