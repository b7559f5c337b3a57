//! The outcome of deleting findings one by one.
use vstd::prelude::*;
use crate::types::{DeleteStats, Finding};

verus! {

/// The bytes recovered by the first `n` deletions: the sizes of the
/// findings that were removed, each addition capped at `u64::MAX`.
pub open spec fn recovered_upto(findings: Seq<Finding>, removed: Seq<bool>, n: int) -> int
    decreases n,
{
    if n <= 0 {
        0
    } else {
        let s = recovered_upto(findings, removed, n - 1) + if removed[n - 1] {
            findings[n - 1].bytes as int
        } else {
            0
        };
        if s > u64::MAX {
            u64::MAX as int
        } else {
            s
        }
    }
}

/// How many of the first `n` deletions failed.
pub open spec fn failures_upto(removed: Seq<bool>, n: int) -> int
    decreases n,
{
    if n <= 0 {
        0
    } else {
        failures_upto(removed, n - 1) + if removed[n - 1] {
            0int
        } else {
            1
        }
    }
}

proof fn lemma_failures_bound(removed: Seq<bool>, n: int)
    requires
        0 <= n,
    ensures
        0 <= failures_upto(removed, n) <= n,
    decreases n,
{
    if n > 0 {
        lemma_failures_bound(removed, n - 1);
    }
}

/// What deleting `findings` achieved, where `removed[i]` tells whether the
/// `i`-th deletion succeeded: the recovered bytes (capped at `u64::MAX`)
/// and the number of failures.
pub fn tally_deletions(findings: &[Finding], removed: &[bool]) -> (r: DeleteStats)
    requires
        removed@.len() == findings@.len(),
    ensures
        r.recovered_bytes == recovered_upto(findings@, removed@, findings@.len() as int),
        r.errors == failures_upto(removed@, findings@.len() as int),
{
    let n = findings.len();
    let mut recovered: u64 = 0;
    let mut errors: u64 = 0;
    for i in 0..n
        invariant
            n == findings@.len(),
            n == removed@.len(),
            recovered == recovered_upto(findings@, removed@, i as int),
            errors == failures_upto(removed@, i as int),
    {
        proof {
            lemma_failures_bound(removed@, i as int);
        }
        if removed[i] {
            recovered = recovered.saturating_add(findings[i].bytes);
        } else {
            errors = errors + 1;
        }
    }
    DeleteStats { recovered_bytes: recovered, errors }
}

} // verus!
