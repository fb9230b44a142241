use drash::codec::{encode, FileType};
use drash::drash::{
    Drash, EmptyOutcome, ForceRemoveAction, ListOutcome, PutOutcome, RestoreOutcome,
};
use drash::errors::DrashError;
use drash::utils::{check_overwrite, resolve_selection, SelectionMode};

fn trash() -> Drash {
    Drash::new("/home/u")
}

#[test]
fn test_parse_file_info() {
    let drash = trash();
    let cwd = "/home/u/work";
    let text = encode(&format!("{}/tmp", cwd), FileType::File);
    let parsed = drash.parse_file_info(&vec![text]);
    assert_eq!(parsed.len(), 1);
    assert_eq!(parsed[0].filetype, FileType::File);
    assert_eq!(parsed[0].path, format!("{}/tmp", cwd));
}

#[test]
fn parse_skips_malformed_sidecars() {
    let drash = trash();
    let contents = vec![
        String::from("garbage"),
        encode("/a/b", FileType::File),
        String::from("[Drash-Info]\nPath=/c"),
    ];
    let parsed = drash.parse_file_info(&contents);
    assert_eq!(parsed.len(), 1);
    assert_eq!(parsed[0].path, "/a/b");
}

#[test]
fn scenario_put_then_restore() {
    let drash = trash();
    let put = drash
        .put_file("notes.txt", "/home/u/work", true, false, false)
        .unwrap();
    match put {
        PutOutcome::Trashed { record_path, record_text, move_from, move_to } => {
            assert_eq!(record_path, "/home/u/.local/share/Drash/info/notes.txt.drashinfo");
            assert_eq!(
                record_text,
                "[Drash-Info]\nPath=/home/u/work/notes.txt\nFileType=file\n"
            );
            assert_eq!(move_from, "notes.txt");
            assert_eq!(move_to, "/home/u/.local/share/Drash/files/notes.txt");
        }
        PutOutcome::SymlinkRemoved { .. } => panic!("expected a trashed entry"),
    }
    // no conflict at the original path: the restore succeeds without overwrite
    let restore = drash.restore_file("/home/u/work/notes.txt", false, false, false);
    match restore {
        RestoreOutcome::Restored { move_from, move_to, record_path } => {
            assert_eq!(move_from, "/home/u/.local/share/Drash/files/notes.txt");
            assert_eq!(move_to, "/home/u/work/notes.txt");
            assert_eq!(record_path, "/home/u/.local/share/Drash/info/notes.txt.drashinfo");
        }
        RestoreOutcome::Skipped => panic!("expected a restore"),
    }
}

#[test]
fn put_missing_entry_is_not_found() {
    let drash = trash();
    let r = drash.put_file("gone.txt", "/home/u", false, false, false);
    assert_eq!(r.unwrap_err(), DrashError::NotFound);
}

#[test]
fn put_symlink_is_unlinked_without_record() {
    let drash = trash();
    let r = drash.put_file("link", "/home/u", false, true, false).unwrap();
    match r {
        PutOutcome::SymlinkRemoved { unlink_path } => assert_eq!(unlink_path, "link"),
        PutOutcome::Trashed { .. } => panic!("a symlink must not be trashed"),
    }
}

#[test]
fn put_directory_records_directory_type() {
    let drash = trash();
    let r = drash.put_file("build/", "/home/u/proj", true, false, true).unwrap();
    match r {
        PutOutcome::Trashed { record_path, record_text, move_to, .. } => {
            assert_eq!(record_path, "/home/u/.local/share/Drash/info/build.drashinfo");
            assert_eq!(
                record_text,
                "[Drash-Info]\nPath=/home/u/proj/build/\nFileType=directory\n"
            );
            assert_eq!(move_to, "/home/u/.local/share/Drash/files/build");
        }
        PutOutcome::SymlinkRemoved { .. } => panic!("expected a trashed entry"),
    }
}

#[test]
fn remove_plan_names_payload_and_record() {
    let drash = trash();
    let plan = drash.remove_file_from_drash("/a/b/notes.txt", false);
    assert_eq!(plan.payload_path, "/home/u/.local/share/Drash/files/notes.txt");
    assert_eq!(plan.record_path, "/home/u/.local/share/Drash/info/notes.txt.drashinfo");
    assert!(!plan.payload_is_dir);
}

#[test]
fn remove_plan_keeps_directory_kind() {
    let drash = trash();
    let plan = drash.remove_file_from_drash("build", true);
    assert!(plan.payload_is_dir);
    assert_eq!(plan.payload_path, "/home/u/.local/share/Drash/files/build");
}

#[test]
fn restore_conflict_declined_is_skipped() {
    let drash = trash();
    let r = drash.restore_file("/home/u/work/notes.txt", false, true, false);
    assert!(matches!(r, RestoreOutcome::Skipped));
}

#[test]
fn restore_conflict_confirmed_proceeds() {
    let drash = trash();
    let r = drash.restore_file("/home/u/work/notes.txt", false, true, true);
    assert!(matches!(r, RestoreOutcome::Restored { .. }));
}

#[test]
fn restore_overwrite_proceeds_unconditionally() {
    let drash = trash();
    let r = drash.restore_file("/home/u/work/notes.txt", true, true, false);
    assert!(matches!(r, RestoreOutcome::Restored { .. }));
}

#[test]
fn scenario_empty_with_three_entries() {
    let drash = trash();
    let r = drash.empty_drash(3, true, false);
    match r {
        EmptyOutcome::Cleared { files_dir, info_dir, removed } => {
            assert_eq!(files_dir, "/home/u/.local/share/Drash/files");
            assert_eq!(info_dir, "/home/u/.local/share/Drash/info");
            assert_eq!(removed, 3);
        }
        _ => panic!("expected both areas cleared"),
    }
    // after the clearing the content area holds nothing: a second forced
    // empty reports already empty and removes nothing
    let again = drash.empty_drash(0, true, false);
    assert!(matches!(again, EmptyOutcome::AlreadyEmpty));
}

#[test]
fn empty_without_confirmation_declines() {
    let drash = trash();
    let r = drash.empty_drash(2, false, false);
    assert!(matches!(r, EmptyOutcome::Declined));
}

#[test]
fn empty_confirmed_clears() {
    let drash = trash();
    let r = drash.empty_drash(2, false, true);
    assert!(matches!(r, EmptyOutcome::Cleared { removed: 2, .. }));
}

#[test]
fn check_overwrite_truth_table() {
    // overwrite always proceeds
    assert!(check_overwrite(true, true, false));
    assert!(check_overwrite(false, true, true));
    // free destination proceeds
    assert!(check_overwrite(false, false, false));
    // occupied destination follows the resolver
    assert!(check_overwrite(true, false, true));
    assert!(!check_overwrite(true, false, false));
}

#[test]
fn selection_dash_picks_last_trashed() {
    assert_eq!(
        resolve_selection(Some(&String::from("-"))),
        SelectionMode::LastTrashed
    );
    assert_eq!(
        resolve_selection(Some(&String::from("notes"))),
        SelectionMode::Interactive
    );
    assert_eq!(resolve_selection(None), SelectionMode::Interactive);
}

#[test]
fn force_remove_decisions() {
    let drash = trash();
    assert_eq!(drash.force_remove_file(true, true, false), ForceRemoveAction::Unlink);
    assert_eq!(drash.force_remove_file(false, true, false), ForceRemoveAction::Unlink);
    assert_eq!(drash.force_remove_file(false, false, false), ForceRemoveAction::ReportMissing);
    assert_eq!(drash.force_remove_file(true, false, true), ForceRemoveAction::RemoveDir);
    assert_eq!(drash.force_remove_file(true, false, false), ForceRemoveAction::RemoveFile);
}

#[test]
fn list_orders_directories_before_files() {
    let drash = trash();
    let contents = vec![
        encode("/a/file2", FileType::File),
        encode("/a/dir1", FileType::Directory),
    ];
    match drash.list_file_paths(&contents) {
        ListOutcome::Entries(rows) => {
            assert_eq!(rows.len(), 2);
            assert_eq!(rows[0].path, "/a/dir1");
            assert_eq!(rows[0].file_type, FileType::Directory);
            assert_eq!(rows[1].path, "/a/file2");
            assert_eq!(rows[1].file_type, FileType::File);
        }
        ListOutcome::Empty => panic!("expected two rows"),
    }
}

#[test]
fn list_breaks_ties_by_path() {
    let drash = trash();
    let contents = vec![
        encode("/a/bb", FileType::File),
        encode("/a/ba", FileType::File),
        encode("/z/dir", FileType::Directory),
    ];
    match drash.list_file_paths(&contents) {
        ListOutcome::Entries(rows) => {
            assert_eq!(rows[0].path, "/z/dir");
            assert_eq!(rows[1].path, "/a/ba");
            assert_eq!(rows[2].path, "/a/bb");
        }
        ListOutcome::Empty => panic!("expected three rows"),
    }
}

#[test]
fn list_of_nothing_is_the_empty_marker() {
    let drash = trash();
    assert!(matches!(drash.list_file_paths(&vec![]), ListOutcome::Empty));
}

#[test]
fn list_of_only_malformed_sidecars_is_empty() {
    let drash = trash();
    let contents = vec![String::from("garbage"), String::from("[Drash-Info]\n")];
    assert!(matches!(drash.list_file_paths(&contents), ListOutcome::Empty));
}

#[test]
fn file_type_tags() {
    assert_eq!(FileType::File.as_str(), "file");
    assert_eq!(FileType::Directory.as_str(), "directory");
}

#[test]
fn find_record_by_entry_name() {
    let drash = trash();
    let contents = vec![
        encode("/a/b/notes.txt", FileType::File),
        encode("/c/build", FileType::Directory),
    ];
    let found = drash.find_record_by_name(&contents, "build").unwrap();
    assert_eq!(found.path, "/c/build");
    assert_eq!(found.filetype, FileType::Directory);
    assert!(drash.find_record_by_name(&contents, "absent").is_none());
}

#[test]
fn find_record_takes_the_first_match() {
    let drash = trash();
    let contents = vec![
        encode("/a/x.txt", FileType::File),
        encode("/b/x.txt", FileType::Directory),
    ];
    let found = drash.find_record_by_name(&contents, "x.txt").unwrap();
    assert_eq!(found.path, "/a/x.txt");
}

#[test]
fn search_returns_candidate_paths() {
    let drash = trash();
    let contents = vec![
        encode("/a/b", FileType::File),
        String::from("junk"),
        encode("", FileType::File),
        encode("/c/d", FileType::Directory),
    ];
    let candidates = drash.search_file_path(&contents);
    assert_eq!(candidates, vec![String::from("/a/b"), String::from("/c/d")]);
}
