//! The error taxonomy of the engine.

use vstd::prelude::*;

verus! {

/// Failures an engine operation can report.
///
/// `NotFound`: the entry handed to a put does not exist. `ParseError`: a
/// sidecar is malformed. `IoError`: a filesystem action failed while a plan
/// was carried out. `Conflict`: a restore destination is occupied and no
/// permission to overwrite was given.
#[derive(Clone, Copy, Debug, PartialEq, Eq, Structural)]
pub enum DrashError {
    NotFound,
    ParseError,
    IoError,
    Conflict,
}

} // verus!
