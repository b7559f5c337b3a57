//! Findings of a scan and the outcome of deleting them.
use vstd::prelude::*;

verus! {

/// A directory found by a scan, with the bytes it holds.
#[derive(Clone, Debug)]
pub struct Finding {
    pub path: String,
    pub bytes: u64,
}

/// What a deletion pass achieved.
#[derive(Clone, Copy, Debug, PartialEq, Eq, Structural)]
pub struct DeleteStats {
    pub recovered_bytes: u64,
    pub errors: u64,
}

} // verus!
