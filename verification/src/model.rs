//! A model of the world the engine acts on, and the laws of the engine's
//! operations.
//!
//! The engine itself only plans: it turns observations of the filesystem
//! into the exact paths to move and delete. This module gives those plans
//! their meaning. The world is three maps: the live filesystem keyed by
//! absolute path, and the two trash areas keyed by entry name. Each step
//! function applies one operation's plan to the world — put appends the
//! record and moves the node in, restore moves the node back and drops
//! the record — and the lemmas state how the steps compose.

use vstd::prelude::*;
use crate::codec::{FileType, RecordData, decode_spec, encode_spec, lemma_decode_encode};
use crate::paths::entry_name_spec;

verus! {

broadcast use vstd::map::group_map_axioms, vstd::set::group_set_axioms;

/// The kind of a node in the model filesystem.
#[derive(PartialEq, Eq, Structural)]
pub enum NodeKind {
    File,
    Directory,
    Symlink,
}

/// A node of the model filesystem: its kind, and an abstract identity for
/// everything under it, so that moving an entry moves one value.
pub struct Node {
    pub kind: NodeKind,
    pub content: nat,
}

/// The world the engine acts on: the live filesystem keyed by absolute
/// path, and the trash root's two areas keyed by entry name.
pub struct World {
    pub live: Map<Seq<char>, Node>,
    pub content: Map<Seq<char>, Node>,
    pub records: Map<Seq<char>, Seq<char>>,
}

/// The sidecar text under `name` after a put writes `text` in append
/// mode: appended to what a record under the same name already held,
/// the text itself otherwise.
pub open spec fn sidecar_after_put(
    records: Map<Seq<char>, Seq<char>>,
    name: Seq<char>,
    text: Seq<char>,
) -> Seq<char> {
    if records.dom().contains(name) {
        records[name] + text
    } else {
        text
    }
}

/// The Put operation on the entry living at absolute path `p`: a symbolic
/// link is unlinked and nothing else changes; any other entry leaves the
/// live filesystem, its record is written under its entry name, and its
/// node moves into the content area under that name.
pub open spec fn put_step(w: World, p: Seq<char>) -> World
    recommends
        w.live.dom().contains(p),
{
    let node = w.live[p];
    if node.kind == NodeKind::Symlink {
        World { live: w.live.remove(p), content: w.content, records: w.records }
    } else {
        let name = entry_name_spec(p);
        let text = encode_spec(
            p,
            if node.kind == NodeKind::Directory {
                FileType::Directory
            } else {
                FileType::File
            },
        );
        World {
            live: w.live.remove(p),
            content: w.content.insert(name, node),
            records: w.records.insert(name, sidecar_after_put(w.records, name, text)),
        }
    }
}

/// The Restore operation on the trashed entry called `name`, and whether
/// it restored. The destination is the path its record decodes to. A
/// conflict at an occupied destination without `overwrite` and without
/// the resolver's `confirm` skips: the world is untouched. Otherwise the
/// node moves back to its original path and the record is deleted.
pub open spec fn restore_step(w: World, name: Seq<char>, overwrite: bool, confirm: bool) -> (
    World,
    bool,
) {
    if !(w.records.dom().contains(name) && w.content.dom().contains(name)) {
        (w, false)
    } else {
        match decode_spec(w.records[name]) {
            Option::None => (w, false),
            Option::Some(rd) => {
                if w.live.dom().contains(rd.path) && !overwrite && !confirm {
                    (w, false)
                } else {
                    (
                        World {
                            live: w.live.insert(rd.path, w.content[name]),
                            content: w.content.remove(name),
                            records: w.records.remove(name),
                        },
                        true,
                    )
                }
            },
        }
    }
}

/// The Empty operation, and how many entries it removed: an empty content
/// area or a withheld confirmation changes nothing; otherwise both areas
/// are cleared.
pub open spec fn empty_step(w: World, force: bool, confirmed: bool) -> (World, nat) {
    if w.content.len() == 0 {
        (w, 0)
    } else if !force && !confirmed {
        (w, 0)
    } else {
        (
            World {
                live: w.live,
                content: Map::<Seq<char>, Node>::empty(),
                records: Map::<Seq<char>, Seq<char>>::empty(),
            },
            w.content.len(),
        )
    }
}

/// Law: a put followed by a restore with overwrite leaves the entry back
/// at its original absolute path — the live filesystem is exactly what it
/// was — with no remaining payload and no remaining sidecar under its
/// name. The path must be free of newlines — the record format is
/// line-oriented — and no record may already sit under the same entry
/// name, since a second put appends to it.
pub proof fn lemma_put_restore_round_trip(w: World, p: Seq<char>, confirm: bool)
    requires
        w.live.dom().contains(p),
        w.live[p].kind != NodeKind::Symlink,
        !w.records.dom().contains(entry_name_spec(p)),
        forall|i: int| 0 <= i < p.len() ==> p[i] != '\n',
    ensures
        ({
            let name = entry_name_spec(p);
            let w1 = put_step(w, p);
            let (w2, restored) = restore_step(w1, name, true, confirm);
            &&& restored
            &&& w2.live == w.live
            &&& w2.live.dom().contains(p)
            &&& w2.live[p] == w.live[p]
            &&& !w2.content.dom().contains(name)
            &&& !w2.records.dom().contains(name)
        }),
{
    let node = w.live[p];
    let t = if node.kind == NodeKind::Directory {
        FileType::Directory
    } else {
        FileType::File
    };
    lemma_decode_encode(p, t);
    let (w2, restored) = restore_step(put_step(w, p), entry_name_spec(p), true, confirm);
    assert(w2.live =~= w.live);
}

/// Law: when the restore destination is occupied, overwrite was not
/// requested and the resolver declines, the restore reports skipped and
/// the world — the occupied destination, the payload and the record — is
/// exactly as it was.
pub proof fn lemma_restore_conflict_skipped(w: World, name: Seq<char>)
    requires
        w.records.dom().contains(name),
        w.content.dom().contains(name),
        decode_spec(w.records[name]) is Some,
        w.live.dom().contains(decode_spec(w.records[name])->Some_0.path),
    ensures
        restore_step(w, name, false, false) == (w, false),
{
}

/// Law: a put on a symbolic link unlinks the link itself and nothing
/// else: no sidecar is written and no payload stored — so no later
/// listing can show it — and every other live path, the link's target
/// among them, is untouched.
pub proof fn lemma_put_symlink(w: World, p: Seq<char>)
    requires
        w.live.dom().contains(p),
        w.live[p].kind == NodeKind::Symlink,
    ensures
        ({
            let w1 = put_step(w, p);
            &&& w1.records == w.records
            &&& w1.content == w.content
            &&& !w1.live.dom().contains(p)
            &&& forall|q: Seq<char>|
                q != p && w.live.dom().contains(q) ==> w1.live.dom().contains(q) && w1.live[q]
                    == w.live[q]
        }),
{
}

/// Law: emptying with force never fails, and emptying twice removes
/// nothing the second time: the first call leaves the content area empty,
/// so the second reports zero removed and changes nothing.
pub proof fn lemma_empty_idempotent(w: World, confirmed: bool)
    ensures
        ({
            let (w1, n1) = empty_step(w, true, confirmed);
            let (w2, n2) = empty_step(w1, true, confirmed);
            &&& w1.content.len() == 0
            &&& n2 == 0
            &&& w2 == w1
        }),
{
    assert(Map::<Seq<char>, Node>::empty().dom() =~= Set::<Seq<char>>::empty());
}

} // verus!
