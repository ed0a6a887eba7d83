//! The failure taxonomy of the library.

use vstd::prelude::*;

verus! {

/// Why a filesystem operation failed.
///
/// `AlreadyExists` reports a name collision: the candidate name was taken, a
/// persist-if-absent target was present, or the retry bound was exhausted
/// without finding a free name. `NotFound` reports a missing entry. Every
/// other operating-system failure is carried as `Other`; it is surfaced
/// immediately and never retried.
#[derive(Clone, Copy, Debug, PartialEq, Eq, Structural)]
pub enum ErrorKind {
    AlreadyExists,
    NotFound,
    Other,
}

} // verus!
