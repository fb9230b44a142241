//! The sidecar record codec.
//!
//! A record is flat, line-oriented text: a fixed header line, a line
//! `Path=<original absolute path>`, and a line `FileType=file` or
//! `FileType=directory`, each terminated by a newline (the last one may
//! lack it). The decoder reads exactly these three lines and ignores
//! anything after them, so a truncated or extended sidecar is either
//! recovered or rejected, never misread.

use vstd::prelude::*;
use crate::drash::FileInfo;
use crate::errors::DrashError;

verus! {

/// Whether a trashed entry was a plain file or a directory tree.
#[derive(Clone, Copy, Debug, PartialEq, Eq, Structural)]
pub enum FileType {
    File,
    Directory,
}

/// The mathematical content of a record: the original absolute path and
/// the kind of the entry.
pub struct RecordData {
    pub path: Seq<char>,
    pub filetype: FileType,
}

/// The type tag written on a record's third line.
pub open spec fn file_type_tag(t: FileType) -> Seq<char> {
    match t {
        FileType::File => "file"@,
        FileType::Directory => "directory"@,
    }
}

impl FileType {
    /// The type tag as text, exactly as a record carries it.
    pub fn as_str(&self) -> (r: &'static str)
        ensures
            r@ == file_type_tag(*self),
    {
        match self {
            FileType::File => "file",
            FileType::Directory => "directory",
        }
    }
}

/// The exact text of the record for a path and kind.
pub open spec fn encode_spec(path: Seq<char>, t: FileType) -> Seq<char> {
    "[Drash-Info]\nPath="@ + path + "\nFileType="@ + file_type_tag(t) + "\n"@
}

/// Index of the first newline at or after `from`, or the length of `s`.
pub open spec fn line_end(s: Seq<char>, from: int) -> int
    decreases s.len() - from,
{
    if from < 0 || from >= s.len() {
        s.len() as int
    } else if s[from] == '\n' {
        from
    } else {
        line_end(s, from + 1)
    }
}

/// What decoding a sidecar text yields: the record when the three lines
/// are present with their expected prefixes and a known type tag, nothing
/// otherwise.
pub open spec fn decode_spec(s: Seq<char>) -> Option<RecordData> {
    let e0 = line_end(s, 0);
    if e0 >= s.len() || s.subrange(0, e0) != "[Drash-Info]"@ {
        None
    } else {
        let e1 = line_end(s, e0 + 1);
        if e1 >= s.len() || e1 < e0 + 6 || s.subrange(e0 + 1, e0 + 6) != "Path="@ {
            None
        } else {
            let path = s.subrange(e0 + 6, e1);
            let e2 = line_end(s, e1 + 1);
            if e2 < e1 + 10 || s.subrange(e1 + 1, e1 + 10) != "FileType="@ {
                None
            } else {
                let tag = s.subrange(e1 + 10, e2);
                if tag == "file"@ {
                    Some(RecordData { path, filetype: FileType::File })
                } else if tag == "directory"@ {
                    Some(RecordData { path, filetype: FileType::Directory })
                } else {
                    None
                }
            }
        }
    }
}

/// The records that a batch of sidecar texts yields, in order; texts that
/// fail to decode are skipped.
pub open spec fn decode_all(cs: Seq<Seq<char>>) -> Seq<RecordData>
    decreases cs.len(),
{
    if cs.len() == 0 {
        Seq::empty()
    } else {
        let rest = decode_all(cs.drop_last());
        match decode_spec(cs.last()) {
            Some(rd) => rest.push(rd),
            None => rest,
        }
    }
}

/// The candidate original paths held in a batch of sidecar texts: the
/// paths of the records that decode, the empty ones left out.
pub open spec fn candidate_paths(cs: Seq<Seq<char>>) -> Seq<Seq<char>>
    decreases cs.len(),
{
    if cs.len() == 0 {
        Seq::empty()
    } else {
        let rest = candidate_paths(cs.drop_last());
        match decode_spec(cs.last()) {
            Some(rd) => if rd.path.len() > 0 {
                rest.push(rd.path)
            } else {
                rest
            },
            None => rest,
        }
    }
}

/// Serialize a record: header line, path line, type line.
pub fn encode(path: &str, filetype: FileType) -> (r: String)
    ensures
        r@ == encode_spec(path@, filetype),
{
    let mut out = String::from_str("[Drash-Info]\nPath=");
    out.append(path);
    out.append("\nFileType=");
    match filetype {
        FileType::File => out.append("file"),
        FileType::Directory => out.append("directory"),
    }
    out.append("\n");
    assert(out@ =~= encode_spec(path@, filetype));
    out
}

/// Index of the first newline at or after `from`, as `line_end` gives it.
fn find_line_end(s: &str, from: usize) -> (r: usize)
    requires
        from <= s@.len(),
    ensures
        r == line_end(s@, from as int),
        from <= r <= s@.len(),
        r < s@.len() ==> s@[r as int] == '\n',
{
    let len = s.unicode_len();
    let mut i = from;
    while i < len && s.get_char(i) != '\n'
        invariant
            from <= i <= len,
            len == s@.len(),
            line_end(s@, from as int) == line_end(s@, i as int),
        decreases len - i,
    {
        assert(line_end(s@, i as int) == line_end(s@, i + 1));
        i = i + 1;
    }
    i
}

/// Whether the characters of `s` from `from` to `to` spell out `lit`.
fn seg_eq(s: &str, from: usize, to: usize, lit: &str) -> (r: bool)
    requires
        from <= to <= s@.len(),
    ensures
        r == (s@.subrange(from as int, to as int) == lit@),
{
    let n = lit.unicode_len();
    if to - from != n {
        proof {
            assert(s@.subrange(from as int, to as int).len() != lit@.len());
        }
        return false;
    }
    let mut i: usize = 0;
    while i < n
        invariant
            from <= to <= s@.len(),
            to - from == n,
            n == lit@.len(),
            i <= n,
            forall|k: int| 0 <= k < i ==> s@[from + k] == lit@[k],
        decreases n - i,
    {
        if s.get_char(from + i) != lit.get_char(i) {
            proof {
                assert(s@.subrange(from as int, to as int)[i as int] != lit@[i as int]);
            }
            return false;
        }
        i = i + 1;
    }
    proof {
        assert(s@.subrange(from as int, to as int) =~= lit@);
    }
    true
}

/// Deserialize a sidecar text, exactly as `decode_spec` describes:
/// malformed text is rejected with a parse error.
pub fn decode(s: &str) -> (r: Result<FileInfo, DrashError>)
    ensures
        match r {
            Ok(fi) => decode_spec(s@) == Some(fi@),
            Err(e) => decode_spec(s@) is None && e == DrashError::ParseError,
        },
{
    let len = s.unicode_len();
    let e0 = find_line_end(s, 0);
    if e0 == len {
        return Err(DrashError::ParseError);
    }
    if !seg_eq(s, 0, e0, "[Drash-Info]") {
        return Err(DrashError::ParseError);
    }
    let e1 = find_line_end(s, e0 + 1);
    if e1 == len {
        return Err(DrashError::ParseError);
    }
    if e1 - (e0 + 1) < 5 || !seg_eq(s, e0 + 1, e0 + 6, "Path=") {
        return Err(DrashError::ParseError);
    }
    let path_part = s.substring_char(e0 + 6, e1);
    let e2 = find_line_end(s, e1 + 1);
    if e2 - (e1 + 1) < 9 || !seg_eq(s, e1 + 1, e1 + 10, "FileType=") {
        return Err(DrashError::ParseError);
    }
    if seg_eq(s, e1 + 10, e2, "file") {
        Ok(FileInfo { path: String::from_str(path_part), filetype: FileType::File })
    } else if seg_eq(s, e1 + 10, e2, "directory") {
        Ok(FileInfo { path: String::from_str(path_part), filetype: FileType::Directory })
    } else {
        Err(DrashError::ParseError)
    }
}

proof fn lemma_line_end_found(s: Seq<char>, from: int, k: int)
    requires
        0 <= from <= k < s.len(),
        s[k] == '\n',
        forall|j: int| from <= j < k ==> s[j] != '\n',
    ensures
        line_end(s, from) == k,
    decreases k - from,
{
    if from < k {
        lemma_line_end_found(s, from + 1, k);
    }
}

/// Law: decoding an encoded record gives back exactly the path and kind
/// that were encoded, for every path free of newlines.
pub proof fn lemma_decode_encode(p: Seq<char>, t: FileType)
    requires
        forall|i: int| 0 <= i < p.len() ==> p[i] != '\n',
    ensures
        decode_spec(encode_spec(p, t)) == Some(RecordData { path: p, filetype: t }),
{
    reveal_strlit("[Drash-Info]\nPath=");
    reveal_strlit("[Drash-Info]");
    reveal_strlit("\nFileType=");
    reveal_strlit("Path=");
    reveal_strlit("FileType=");
    reveal_strlit("file");
    reveal_strlit("directory");
    reveal_strlit("\n");
    let h = "[Drash-Info]\nPath="@;
    let m = "\nFileType="@;
    let tag = file_type_tag(t);
    let s = encode_spec(p, t);
    assert(h.len() == 18);
    assert(m.len() == 10);
    let e1 = 18 + p.len() as int;
    let e2 = e1 + 10 + tag.len() as int;
    assert(s.len() == e2 + 1);

    assert(s[12] == '\n');
    assert(forall|j: int| 0 <= j < 12 ==> s[j] != '\n');
    lemma_line_end_found(s, 0, 12);
    assert(s.subrange(0, 12) =~= "[Drash-Info]"@);

    assert(s[e1] == '\n');
    assert(forall|j: int| 13 <= j < e1 ==> s[j] != '\n');
    lemma_line_end_found(s, 13, e1);
    assert(s.subrange(13, 18) =~= "Path="@);
    assert(s.subrange(18, e1) =~= p);

    assert(s[e2] == '\n');
    assert(forall|j: int| e1 + 1 <= j < e2 ==> s[j] != '\n');
    lemma_line_end_found(s, e1 + 1, e2);
    assert(s.subrange(e1 + 1, e1 + 10) =~= "FileType="@);
    assert(s.subrange(e1 + 10, e2) =~= tag);

    match t {
        FileType::File => {
            assert(tag == "file"@);
        }
        FileType::Directory => {
            assert(tag == "directory"@);
            assert(tag != "file"@);
        }
    }
}

} // verus!
