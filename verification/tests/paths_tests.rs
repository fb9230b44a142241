use drash::drash::{drash_root_dir, Drash};
use drash::paths::{entry_name, in_dir, join_paths, sidecar_name};

#[test]
fn entry_name_plain() {
    assert_eq!(entry_name("notes.txt"), "notes.txt");
}

#[test]
fn entry_name_nested() {
    assert_eq!(entry_name("/a/b/c"), "c");
}

#[test]
fn entry_name_strips_trailing_separator() {
    assert_eq!(entry_name("dir/"), "dir");
}

#[test]
fn entry_name_strips_repeated_separators() {
    assert_eq!(entry_name("a/b//"), "b");
}

#[test]
fn entry_name_of_empty_is_empty() {
    assert_eq!(entry_name(""), "");
}

#[test]
fn join_relative_path() {
    assert_eq!(join_paths("/home/u/work", "notes.txt"), "/home/u/work/notes.txt");
}

#[test]
fn join_absolute_path_stands_alone() {
    assert_eq!(join_paths("/home/u/work", "/etc/hosts"), "/etc/hosts");
}

#[test]
fn in_dir_builds_child_path() {
    assert_eq!(in_dir("/trash/files", "notes.txt"), "/trash/files/notes.txt");
}

#[test]
fn sidecar_name_appends_suffix() {
    assert_eq!(sidecar_name("notes.txt"), "notes.txt.drashinfo");
}

#[test]
fn new_derives_both_areas_from_home() {
    let d = Drash::new("/home/u");
    assert_eq!(d.files_path, "/home/u/.local/share/Drash/files");
    assert_eq!(d.info_path, "/home/u/.local/share/Drash/info");
}

#[test]
fn root_dir_from_home() {
    assert_eq!(drash_root_dir("/home/u"), "/home/u/.local/share/Drash");
}
