//! The engine: the trash root and the five operations on it.
//!
//! Every operation is a pure decision: facts about the filesystem
//! (existence, kind, entry counts) and the user's answers come in as
//! arguments, and the operation returns the exact filesystem actions to
//! carry out as plain paths. The caller performs the moves and deletions
//! in the order the plan states.

use vstd::prelude::*;
use crate::codec::{FileType, RecordData, candidate_paths, decode, decode_all, encode, encode_spec};
use crate::errors::DrashError;
use crate::listing::{sort_rows, sorted_rows};
use crate::paths::{entry_name, entry_name_spec, in_dir, in_dir_spec, join_paths, join_spec, sidecar_name, sidecar_spec};
use crate::utils::check_overwrite;

verus! {

broadcast use vstd::seq_lib::group_to_multiset_ensures;

/// The two-directory trash root: payloads live under `files_path`, their
/// metadata sidecars under `info_path`.
pub struct Drash {
    /// Directory holding the trashed payloads (the content area).
    pub files_path: String,
    /// Directory holding the metadata sidecars (the record area).
    pub info_path: String,
}

/// A decoded sidecar record: the original absolute path of a trashed entry
/// and whether it was a file or a directory.
#[derive(Debug)]
pub struct FileInfo {
    pub path: String,
    pub filetype: FileType,
}

/// One row of a listing: the original path of a trashed entry and its kind.
#[derive(Debug)]
pub struct FileList {
    pub path: String,
    pub file_type: FileType,
}

impl View for FileInfo {
    type V = RecordData;

    open spec fn view(&self) -> RecordData {
        RecordData { path: self.path@, filetype: self.filetype }
    }
}

impl DeepView for FileInfo {
    type V = RecordData;

    open spec fn deep_view(&self) -> RecordData {
        self@
    }
}

impl View for FileList {
    type V = RecordData;

    open spec fn view(&self) -> RecordData {
        RecordData { path: self.path@, filetype: self.file_type }
    }
}

impl DeepView for FileList {
    type V = RecordData;

    open spec fn deep_view(&self) -> RecordData {
        self@
    }
}

/// What a put decides.
#[derive(Debug)]
pub enum PutOutcome {
    /// The entry is a symbolic link: unlink it where it stands; no record
    /// is written and nothing enters the trash.
    SymlinkRemoved { unlink_path: String },
    /// Append `record_text` to the sidecar at `record_path` (creating it
    /// if absent), then rename the entry from `move_from` to `move_to`.
    Trashed { record_path: String, record_text: String, move_from: String, move_to: String },
}

/// What a remove must delete: the payload (recursively when it is a
/// directory), then the paired sidecar.
#[derive(Debug)]
pub struct RemovePlan {
    pub payload_path: String,
    pub payload_is_dir: bool,
    pub record_path: String,
}

/// What a restore decides.
#[derive(Debug)]
pub enum RestoreOutcome {
    /// Rename the payload from `move_from` back to `move_to`, then delete
    /// the sidecar at `record_path`.
    Restored { move_from: String, move_to: String, record_path: String },
    /// The destination was occupied and permission was declined; nothing
    /// is touched.
    Skipped,
}

/// What an empty decides.
#[derive(Debug)]
pub enum EmptyOutcome {
    /// The content area holds nothing; no mutation.
    AlreadyEmpty,
    /// Confirmation was withheld; no mutation.
    Declined,
    /// Recursively delete `files_dir` and `info_dir`, then recreate both
    /// as empty directories; `removed` entries are cleared.
    Cleared { files_dir: String, info_dir: String, removed: usize },
}

/// A listing: an explicit marker for a record area without valid records,
/// distinct from any error, or the decoded rows in listing order.
#[derive(Debug)]
pub enum ListOutcome {
    Empty,
    Entries(Vec<FileList>),
}

/// Per-entry decision for removing an entry outright, without trashing it.
#[derive(Clone, Copy, Debug, PartialEq, Eq, Structural)]
pub enum ForceRemoveAction {
    /// A symbolic link is unlinked itself, never followed.
    Unlink,
    /// The entry does not exist: report it and carry on.
    ReportMissing,
    /// Delete the directory tree recursively.
    RemoveDir,
    /// Delete the plain file.
    RemoveFile,
}

/// The first record in `rs` whose original path has the entry name `name`.
pub open spec fn first_record_named(rs: Seq<RecordData>, name: Seq<char>) -> Option<RecordData>
    decreases rs.len(),
{
    if rs.len() == 0 {
        None
    } else if entry_name_spec(rs.first().path) == name {
        Some(rs.first())
    } else {
        first_record_named(rs.drop_first(), name)
    }
}

impl Drash {
    /// The trash root fixed relative to the resolved home directory.
    /// Resolving the home directory itself is the caller's environment
    /// lookup; the two area paths are derived from it here.
    pub fn new(home: &str) -> (d: Drash)
        ensures
            d.files_path@ == home@ + "/.local/share/Drash/files"@,
            d.info_path@ == home@ + "/.local/share/Drash/info"@,
    {
        let mut files = String::from_str(home);
        files.append("/.local/share/Drash/files");
        let mut info = String::from_str(home);
        info.append("/.local/share/Drash/info");
        Drash { files_path: files, info_path: info }
    }

    /// Decode a batch of sidecar texts into records, skipping the
    /// malformed ones.
    pub fn parse_file_info(&self, contents: &Vec<String>) -> (r: Vec<FileInfo>)
        ensures
            r.deep_view() == decode_all(contents.deep_view()),
    {
        let ghost cs = contents.deep_view();
        let mut out: Vec<FileInfo> = Vec::new();
        let mut i: usize = 0;
        proof {
            assert(cs.take(0) =~= Seq::<Seq<char>>::empty());
            assert(out.deep_view() =~= Seq::<RecordData>::empty());
        }
        while i < contents.len()
            invariant
                i <= contents.len(),
                cs == contents.deep_view(),
                out.deep_view() == decode_all(cs.take(i as int)),
            decreases contents.len() - i,
        {
            let ghost pre = out.deep_view();
            proof {
                assert(cs.take(i + 1).drop_last() =~= cs.take(i as int));
                assert(cs.take(i + 1).last() == cs[i as int]);
                assert(contents[i as int]@ == cs[i as int]);
            }
            match decode(contents[i].as_str()) {
                Ok(fi) => {
                    out.push(fi);
                    proof {
                        assert(out.deep_view() =~= pre.push(fi@));
                    }
                },
                Err(_) => {},
            }
            i = i + 1;
        }
        proof {
            assert(cs.take(contents.len() as int) =~= cs);
        }
        out
    }

    /// The List operation on the sidecar texts read from the record area:
    /// decode every sidecar, skip the malformed, and sort the rows with
    /// directories first and ties broken by original path. An empty record
    /// area is reported as such rather than as an error.
    pub fn list_file_paths(&self, contents: &Vec<String>) -> (r: ListOutcome)
        ensures
            r is Empty <==> decode_all(contents.deep_view()).len() == 0,
            r matches ListOutcome::Entries(rows) ==> {
                &&& sorted_rows(rows.deep_view())
                &&& rows.deep_view().to_multiset() == decode_all(
                    contents.deep_view(),
                ).to_multiset()
                &&& rows.len() > 0
            },
    {
        let parsed = self.parse_file_info(contents);
        if parsed.len() == 0 {
            return ListOutcome::Empty;
        }
        let mut rows: Vec<FileList> = Vec::new();
        let mut i: usize = 0;
        proof {
            assert(rows.deep_view() =~= parsed.deep_view().take(0));
        }
        while i < parsed.len()
            invariant
                i <= parsed.len(),
                rows.deep_view() == parsed.deep_view().take(i as int),
                parsed.deep_view() == decode_all(contents.deep_view()),
            decreases parsed.len() - i,
        {
            let ghost pre = rows.deep_view();
            let path = parsed[i].path.clone();
            let file_type = parsed[i].filetype;
            rows.push(FileList { path, file_type });
            proof {
                assert(rows.deep_view() =~= pre.push(parsed.deep_view()[i as int]));
                assert(parsed.deep_view().take(i + 1) =~= parsed.deep_view().take(
                    i as int,
                ).push(parsed.deep_view()[i as int]));
            }
            i = i + 1;
        }
        proof {
            assert(rows.deep_view() =~= parsed.deep_view());
        }
        let sorted = sort_rows(rows);
        proof {
            assert(sorted.deep_view().to_multiset().len() == sorted.deep_view().len());
            assert(parsed.deep_view().to_multiset().len() == parsed.deep_view().len());
        }
        ListOutcome::Entries(sorted)
    }

    /// The pure read behind interactive selection: the candidate original
    /// paths currently recorded, for the caller's selector to choose from.
    pub fn search_file_path(&self, contents: &Vec<String>) -> (r: Vec<String>)
        ensures
            r.deep_view() == candidate_paths(contents.deep_view()),
    {
        let ghost cs = contents.deep_view();
        let mut out: Vec<String> = Vec::new();
        let mut i: usize = 0;
        proof {
            assert(cs.take(0) =~= Seq::<Seq<char>>::empty());
            assert(out.deep_view() =~= Seq::<Seq<char>>::empty());
        }
        while i < contents.len()
            invariant
                i <= contents.len(),
                cs == contents.deep_view(),
                out.deep_view() == candidate_paths(cs.take(i as int)),
            decreases contents.len() - i,
        {
            let ghost pre = out.deep_view();
            proof {
                assert(cs.take(i + 1).drop_last() =~= cs.take(i as int));
                assert(cs.take(i + 1).last() == cs[i as int]);
                assert(contents[i as int]@ == cs[i as int]);
            }
            match decode(contents[i].as_str()) {
                Ok(fi) => {
                    if !fi.path.as_str().is_empty() {
                        let ghost pv = fi.path@;
                        out.push(fi.path);
                        proof {
                            assert(out.deep_view() =~= pre.push(pv));
                        }
                    }
                },
                Err(_) => {},
            }
            i = i + 1;
        }
        proof {
            assert(cs.take(contents.len() as int) =~= cs);
        }
        out
    }

    /// Resolve the record of the trashed entry called `name`: the first
    /// decoded record whose original path has that entry name. This is how
    /// an operation on the last-trashed entry finds its original path.
    pub fn find_record_by_name(&self, contents: &Vec<String>, name: &str) -> (r: Option<
        FileInfo,
    >)
        ensures
            match r {
                Some(fi) => first_record_named(decode_all(contents.deep_view()), name@) == Some(
                    fi@,
                ),
                None => first_record_named(decode_all(contents.deep_view()), name@) is None,
            },
    {
        let parsed = self.parse_file_info(contents);
        let ghost rs = parsed.deep_view();
        let mut i: usize = 0;
        proof {
            assert(rs.skip(0) =~= rs);
        }
        while i < parsed.len()
            invariant
                i <= parsed.len(),
                rs == parsed.deep_view(),
                rs == decode_all(contents.deep_view()),
                first_record_named(rs, name@) == first_record_named(rs.skip(i as int), name@),
            decreases parsed.len() - i,
        {
            proof {
                assert(rs.skip(i as int).first() == rs[i as int]);
                assert(rs.skip(i as int).drop_first() =~= rs.skip(i + 1));
            }
            let candidate = entry_name(parsed[i].path.as_str());
            if candidate == String::from_str(name) {
                return Some(
                    FileInfo { path: parsed[i].path.clone(), filetype: parsed[i].filetype },
                );
            }
            i = i + 1;
        }
        proof {
            assert(rs.skip(parsed.len() as int) =~= Seq::<RecordData>::empty());
        }
        None
    }

    /// The Put operation on one entry. `exists`, `is_symlink` and `is_dir`
    /// are the caller's observations of the entry at `path`; `cwd` is the
    /// directory the call was made from. A symbolic link is deleted
    /// outright, a missing entry is an error, and anything else yields the
    /// record to append and the rename into the content area.
    pub fn put_file(&self, path: &str, cwd: &str, exists: bool, is_symlink: bool, is_dir: bool)
        -> (r: Result<PutOutcome, DrashError>)
        requires
            !is_symlink && exists ==> entry_name_spec(path@).len() > 0,
        ensures
            is_symlink ==> (r matches Ok(PutOutcome::SymlinkRemoved { unlink_path })
                && unlink_path@ == path@),
            !is_symlink && !exists ==> (r matches Err(e) && e == DrashError::NotFound),
            !is_symlink && exists ==> (r matches Ok(PutOutcome::Trashed {
                record_path,
                record_text,
                move_from,
                move_to,
            })
                && record_path@ == in_dir_spec(self.info_path@, sidecar_spec(entry_name_spec(path@)))
                && record_text@ == encode_spec(
                    join_spec(cwd@, path@),
                    if is_dir { FileType::Directory } else { FileType::File },
                )
                && move_from@ == path@
                && move_to@ == in_dir_spec(self.files_path@, entry_name_spec(path@))),
    {
        if is_symlink {
            return Ok(PutOutcome::SymlinkRemoved { unlink_path: String::from_str(path) });
        }
        if !exists {
            return Err(DrashError::NotFound);
        }
        let name = entry_name(path);
        let original = join_paths(cwd, path);
        let filetype = if is_dir {
            FileType::Directory
        } else {
            FileType::File
        };
        let record_text = encode(original.as_str(), filetype);
        let sidecar = sidecar_name(name.as_str());
        let record_path = in_dir(self.info_path.as_str(), sidecar.as_str());
        let move_to = in_dir(self.files_path.as_str(), name.as_str());
        Ok(PutOutcome::Trashed {
            record_path,
            record_text,
            move_from: String::from_str(path),
            move_to,
        })
    }

    /// The Remove operation on one trashed entry, identified by any path
    /// whose final component is its name: delete the payload (recursively
    /// when `payload_is_dir` says the caller found a directory there), then
    /// delete the paired sidecar.
    pub fn remove_file_from_drash(&self, path: &str, payload_is_dir: bool) -> (r: RemovePlan)
        requires
            entry_name_spec(path@).len() > 0,
        ensures
            r.payload_path@ == in_dir_spec(self.files_path@, entry_name_spec(path@)),
            r.record_path@ == in_dir_spec(self.info_path@, sidecar_spec(entry_name_spec(path@))),
            r.payload_is_dir == payload_is_dir,
    {
        let name = entry_name(path);
        let sidecar = sidecar_name(name.as_str());
        RemovePlan {
            payload_path: in_dir(self.files_path.as_str(), name.as_str()),
            payload_is_dir,
            record_path: in_dir(self.info_path.as_str(), sidecar.as_str()),
        }
    }

    /// The Restore operation on one trashed entry: `path` is its original
    /// absolute path, `dest_exists` the caller's observation of that
    /// destination, and `confirm` the conflict resolver's answer. The
    /// conflict is decided here, before any move: on permission the payload
    /// goes back and the sidecar is deleted, otherwise nothing is touched.
    pub fn restore_file(&self, path: &str, overwrite: bool, dest_exists: bool, confirm: bool)
        -> (r: RestoreOutcome)
        requires
            entry_name_spec(path@).len() > 0,
        ensures
            (overwrite || !dest_exists || confirm) ==> (r matches RestoreOutcome::Restored {
                move_from,
                move_to,
                record_path,
            }
                && move_from@ == in_dir_spec(self.files_path@, entry_name_spec(path@))
                && move_to@ == path@
                && record_path@ == in_dir_spec(
                    self.info_path@,
                    sidecar_spec(entry_name_spec(path@)),
                )),
            !(overwrite || !dest_exists || confirm) ==> r is Skipped,
    {
        let proceed = check_overwrite(dest_exists, overwrite, confirm);
        if !proceed {
            return RestoreOutcome::Skipped;
        }
        let name = entry_name(path);
        let sidecar = sidecar_name(name.as_str());
        RestoreOutcome::Restored {
            move_from: in_dir(self.files_path.as_str(), name.as_str()),
            move_to: String::from_str(path),
            record_path: in_dir(self.info_path.as_str(), sidecar.as_str()),
        }
    }

    /// The Empty operation: `entry_count` is how many entries the caller
    /// counted in the content area, `confirmed` the yes/no gate's answer
    /// when `force` was not given. An empty trash is reported as already
    /// empty with no mutation; otherwise, on force or confirmation, both
    /// areas are deleted recursively and recreated empty.
    pub fn empty_drash(&self, entry_count: usize, force: bool, confirmed: bool) -> (r: EmptyOutcome)
        ensures
            entry_count == 0 ==> r is AlreadyEmpty,
            entry_count > 0 && !force && !confirmed ==> r is Declined,
            entry_count > 0 && (force || confirmed) ==> (r matches EmptyOutcome::Cleared {
                files_dir,
                info_dir,
                removed,
            }
                && files_dir@ == self.files_path@
                && info_dir@ == self.info_path@
                && removed == entry_count),
    {
        if entry_count == 0 {
            return EmptyOutcome::AlreadyEmpty;
        }
        if !force && !confirmed {
            return EmptyOutcome::Declined;
        }
        EmptyOutcome::Cleared {
            files_dir: self.files_path.clone(),
            info_dir: self.info_path.clone(),
            removed: entry_count,
        }
    }

    /// Per-entry decision for removing an entry outright, from the
    /// caller's observations of it: a symbolic link is unlinked itself, a
    /// missing entry is reported, a directory is deleted recursively, a
    /// file is deleted plainly.
    pub fn force_remove_file(&self, exists: bool, is_symlink: bool, is_dir: bool)
        -> (r: ForceRemoveAction)
        ensures
            is_symlink ==> r is Unlink,
            !is_symlink && !exists ==> r is ReportMissing,
            !is_symlink && exists && is_dir ==> r is RemoveDir,
            !is_symlink && exists && !is_dir ==> r is RemoveFile,
    {
        if is_symlink {
            ForceRemoveAction::Unlink
        } else if !exists {
            ForceRemoveAction::ReportMissing
        } else if is_dir {
            ForceRemoveAction::RemoveDir
        } else {
            ForceRemoveAction::RemoveFile
        }
    }
}

/// The parent trash directory that holds both areas; it is created first
/// when the layout is built lazily.
pub fn drash_root_dir(home: &str) -> (r: String)
    ensures
        r@ == home@ + "/.local/share/Drash"@,
{
    let mut out = String::from_str(home);
    out.append("/.local/share/Drash");
    out
}

} // verus!
