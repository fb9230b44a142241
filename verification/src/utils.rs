//! Small decision helpers shared by the engine operations.

use vstd::prelude::*;

verus! {

/// Decision for a restore that may overwrite an existing destination:
/// proceed when `overwrite` was requested, when nothing occupies the
/// destination, or when the caller's conflict resolver agreed.
pub fn check_overwrite(dest_exists: bool, overwrite: bool, confirm: bool) -> (r: bool)
    ensures
        r == (overwrite || !dest_exists || confirm),
{
    if overwrite {
        true
    } else if dest_exists {
        confirm
    } else {
        true
    }
}

/// How an identifier picks entries for a remove or a restore.
#[derive(Clone, Copy, Debug, PartialEq, Eq, Structural)]
pub enum SelectionMode {
    /// Offer the recorded candidates to the caller's selector.
    Interactive,
    /// Act on the most recently modified entry in the content area.
    LastTrashed,
}

/// The sentinel `-` selects the last trashed entry; anything else, or no
/// identifier at all, goes through interactive selection.
pub fn resolve_selection(search: Option<&String>) -> (r: SelectionMode)
    ensures
        (r is LastTrashed) <==> (search matches Some(s) && s@ == "-"@),
{
    proof {
        reveal_strlit("-");
    }
    match search {
        Some(s) => {
            if s.as_str().unicode_len() == 1 && s.as_str().get_char(0) == '-' {
                proof {
                    assert(s@ =~= "-"@);
                }
                SelectionMode::LastTrashed
            } else {
                SelectionMode::Interactive
            }
        },
        None => SelectionMode::Interactive,
    }
}

} // verus!
