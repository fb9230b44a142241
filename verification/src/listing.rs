//! The listing order and a verified sort for it.
//!
//! A listing shows directories before files; rows of the same kind are
//! ordered by their original path, compared lexicographically by code
//! point.

use vstd::prelude::*;
use vstd::multiset::Multiset;
use crate::codec::{FileType, RecordData};
use crate::drash::FileList;

verus! {

broadcast use vstd::seq_lib::group_to_multiset_ensures, vstd::multiset::group_multiset_axioms;

/// Lexicographic order on character sequences, by code point.
pub open spec fn lex_le(a: Seq<char>, b: Seq<char>) -> bool
    decreases a.len(),
{
    if a.len() == 0 {
        true
    } else if b.len() == 0 {
        false
    } else if (a[0] as u32) < (b[0] as u32) {
        true
    } else if (a[0] as u32) > (b[0] as u32) {
        false
    } else {
        lex_le(a.skip(1), b.skip(1))
    }
}

/// The listing order on rows: directories before files, ties broken by
/// the original path.
pub open spec fn row_le(a: RecordData, b: RecordData) -> bool {
    if a.filetype == b.filetype {
        lex_le(a.path, b.path)
    } else {
        a.filetype == FileType::Directory
    }
}

/// A sequence of rows that stands in listing order.
pub open spec fn sorted_rows(s: Seq<RecordData>) -> bool {
    forall|i: int, j: int| 0 <= i < j < s.len() ==> row_le(s[i], s[j])
}

pub proof fn lemma_lex_le_refl(a: Seq<char>)
    ensures
        lex_le(a, a),
    decreases a.len(),
{
    if a.len() > 0 {
        lemma_lex_le_refl(a.skip(1));
    }
}

pub proof fn lemma_lex_le_total(a: Seq<char>, b: Seq<char>)
    ensures
        lex_le(a, b) || lex_le(b, a),
    decreases a.len(),
{
    if a.len() > 0 && b.len() > 0 && a[0] as u32 == b[0] as u32 {
        lemma_lex_le_total(a.skip(1), b.skip(1));
    }
}

pub proof fn lemma_lex_le_trans(a: Seq<char>, b: Seq<char>, c: Seq<char>)
    requires
        lex_le(a, b),
        lex_le(b, c),
    ensures
        lex_le(a, c),
    decreases a.len(),
{
    if a.len() > 0 && b.len() > 0 && c.len() > 0 && a[0] as u32 == b[0] as u32 && b[0] as u32
        == c[0] as u32 {
        lemma_lex_le_trans(a.skip(1), b.skip(1), c.skip(1));
    }
}

pub proof fn lemma_row_le_refl(a: RecordData)
    ensures
        row_le(a, a),
{
    lemma_lex_le_refl(a.path);
}

pub proof fn lemma_row_le_total(a: RecordData, b: RecordData)
    ensures
        row_le(a, b) || row_le(b, a),
{
    lemma_lex_le_total(a.path, b.path);
}

pub proof fn lemma_row_le_trans(a: RecordData, b: RecordData, c: RecordData)
    requires
        row_le(a, b),
        row_le(b, c),
    ensures
        row_le(a, c),
{
    if a.filetype == b.filetype && b.filetype == c.filetype {
        lemma_lex_le_trans(a.path, b.path, c.path);
    }
}

/// Whether `a` comes no later than `b` in the listing order.
fn lex_le_exec(a: &str, b: &str) -> (r: bool)
    ensures
        r == lex_le(a@, b@),
{
    let alen = a.unicode_len();
    let blen = b.unicode_len();
    let mut i: usize = 0;
    proof {
        assert(a@.skip(0) =~= a@);
        assert(b@.skip(0) =~= b@);
    }
    while i < alen && i < blen
        invariant
            i <= alen,
            i <= blen,
            alen == a@.len(),
            blen == b@.len(),
            lex_le(a@, b@) == lex_le(a@.skip(i as int), b@.skip(i as int)),
        decreases alen - i,
    {
        let ca = a.get_char(i);
        let cb = b.get_char(i);
        proof {
            assert(a@.skip(i as int)[0] == a@[i as int]);
            assert(b@.skip(i as int)[0] == b@[i as int]);
        }
        if (ca as u32) < (cb as u32) {
            return true;
        }
        if (ca as u32) > (cb as u32) {
            return false;
        }
        proof {
            assert(a@.skip(i as int).skip(1) =~= a@.skip(i + 1));
            assert(b@.skip(i as int).skip(1) =~= b@.skip(i + 1));
        }
        i = i + 1;
    }
    i == alen
}

/// Whether row `a` comes no later than row `b` in the listing order.
fn row_le_exec(a: &FileList, b: &FileList) -> (r: bool)
    ensures
        r == row_le(a@, b@),
{
    match (a.file_type, b.file_type) {
        (FileType::Directory, FileType::File) => true,
        (FileType::File, FileType::Directory) => false,
        _ => lex_le_exec(a.path.as_str(), b.path.as_str()),
    }
}

/// Sort the rows into listing order. The result holds exactly the rows
/// that went in.
pub fn sort_rows(rows: Vec<FileList>) -> (r: Vec<FileList>)
    ensures
        sorted_rows(r.deep_view()),
        r.deep_view().to_multiset() == rows.deep_view().to_multiset(),
{
    let mut rest = rows;
    let mut out: Vec<FileList> = Vec::new();
    let ghost all = rest.deep_view().to_multiset();
    proof {
        assert(out.deep_view() =~= Seq::<RecordData>::empty());
        assert(out.deep_view().to_multiset().add(rest.deep_view().to_multiset()) =~= all);
    }
    while rest.len() > 0
        invariant
            sorted_rows(out.deep_view()),
            out.deep_view().to_multiset().add(rest.deep_view().to_multiset()) == all,
            forall|i: int, j: int|
                0 <= i < out.deep_view().len() && 0 <= j < rest.deep_view().len() ==> row_le(
                    out.deep_view()[i],
                    rest.deep_view()[j],
                ),
        decreases rest.len(),
    {
        let ghost pre_rest = rest.deep_view();
        let ghost pre_out = out.deep_view();
        let m = min_row_index(&rest);
        let x = rest.remove(m);
        out.push(x);
        proof {
            assert(x@ == pre_rest[m as int]);
            assert(rest.deep_view() =~= pre_rest.remove(m as int));
            assert(pre_rest.remove(m as int).to_multiset() =~= pre_rest.to_multiset().remove(
                pre_rest[m as int],
            ));
            assert(out.deep_view() =~= pre_out.push(x@));
            assert(pre_out.push(x@).to_multiset() =~= pre_out.to_multiset().insert(x@));
            assert(pre_rest.contains(x@));
            assert(out.deep_view().to_multiset().add(rest.deep_view().to_multiset()) =~= all);
            assert forall|i: int, j: int|
                0 <= i < j < out.deep_view().len() implies row_le(
                out.deep_view()[i],
                out.deep_view()[j],
            ) by {
                if j < pre_out.len() {
                    assert(row_le(pre_out[i], pre_out[j]));
                } else {
                    assert(out.deep_view()[j] == x@);
                    assert(row_le(pre_out[i], pre_rest[m as int]));
                }
            }
            assert forall|i: int, j: int|
                0 <= i < out.deep_view().len() && 0 <= j < rest.deep_view().len() implies row_le(
                out.deep_view()[i],
                rest.deep_view()[j],
            ) by {
                let rv = rest.deep_view()[j];
                if j < m {
                    assert(rv == pre_rest[j]);
                } else {
                    assert(rv == pre_rest[j + 1]);
                }
                if i < pre_out.len() {
                    assert(row_le(pre_out[i], rv));
                } else {
                    assert(out.deep_view()[i] == x@);
                    assert(row_le(pre_rest[m as int], rv));
                }
            }
        }
    }
    proof {
        assert(rest.deep_view() =~= Seq::<RecordData>::empty());
        assert(out.deep_view().to_multiset().add(Multiset::<RecordData>::empty()) =~= out.deep_view().to_multiset());
    }
    out
}

/// Index of a row that comes no later than every other row.
fn min_row_index(rows: &Vec<FileList>) -> (m: usize)
    requires
        rows@.len() > 0,
    ensures
        m < rows@.len(),
        forall|j: int| 0 <= j < rows.deep_view().len() ==> row_le(rows.deep_view()[m as int], rows.deep_view()[j]),
{
    let mut m: usize = 0;
    let mut k: usize = 1;
    proof {
        lemma_row_le_refl(rows.deep_view()[0]);
    }
    while k < rows.len()
        invariant
            m < k <= rows@.len(),
            forall|j: int| 0 <= j < k ==> row_le(rows.deep_view()[m as int], rows.deep_view()[j]),
        decreases rows@.len() - k,
    {
        if row_le_exec(&rows[k], &rows[m]) {
            proof {
                let dv = rows.deep_view();
                assert forall|j: int| 0 <= j < k + 1 implies row_le(dv[k as int], dv[j]) by {
                    lemma_row_le_refl(dv[k as int]);
                    if j < k {
                        lemma_row_le_trans(dv[k as int], dv[m as int], dv[j]);
                    }
                }
            }
            m = k;
        } else {
            proof {
                let dv = rows.deep_view();
                lemma_row_le_total(dv[m as int], dv[k as int]);
            }
        }
        k = k + 1;
    }
    m
}

} // verus!
