//! Sizes of directories: the bytes of the regular files below them.
use vstd::prelude::*;
use rayon::iter::{IntoParallelRefIterator, ParallelIterator};
use walkdir::WalkDir;
use crate::types::Finding;

verus! {

/// One item of a directory walk.
#[derive(Clone, Copy, Debug)]
pub enum WalkEntry {
    /// The walk could not read this entry.
    Unreadable,
    /// An entry; `len` is its length when its metadata could be read.
    Entry { is_file: bool, len: Option<u64> },
}

/// The bytes an entry adds to a directory's size: the length of a regular
/// file whose metadata could be read, else nothing.
pub open spec fn entry_bytes(e: WalkEntry) -> int {
    match e {
        WalkEntry::Entry { is_file: true, len: Some(l) } => l as int,
        _ => 0,
    }
}

/// The sum of [`entry_bytes`] over the first `n` entries, each addition
/// capped at `u64::MAX`.
pub open spec fn saturating_total(es: Seq<WalkEntry>, n: int) -> int
    decreases n,
{
    if n <= 0 {
        0
    } else {
        let s = saturating_total(es, n - 1) + entry_bytes(es[n - 1]);
        if s > u64::MAX {
            u64::MAX as int
        } else {
            s
        }
    }
}

/// The plain sum of [`entry_bytes`] over the first `n` entries.
pub open spec fn plain_total(es: Seq<WalkEntry>, n: int) -> int
    decreases n,
{
    if n <= 0 {
        0
    } else {
        plain_total(es, n - 1) + entry_bytes(es[n - 1])
    }
}

/// Some entry among the first `n` could not be read.
pub open spec fn any_unreadable(es: Seq<WalkEntry>, n: int) -> bool {
    exists|i: int| 0 <= i < n && es[i] is Unreadable
}

/// Walks the tree under `dir` with walkdir, not following links, and lists
/// every item: the root first, each directory before its contents.  What it
/// lists depends on the disk; nothing is claimed of it.
#[verifier::external_body]
pub(crate) fn walk_entries(dir: &str) -> (r: Vec<WalkEntry>) {
    WalkDir::new(dir).follow_links(false).into_iter().map(
        |item| match item {
            Ok(e) => WalkEntry::Entry {
                is_file: e.file_type().is_file(),
                len: e.metadata().ok().map(|m| m.len()),
            },
            Err(_) => WalkEntry::Unreadable,
        },
    ).collect()
}

/// The bytes of the readable regular files among `entries`, summed with
/// additions capped at `u64::MAX`; unreadable items are skipped.
pub fn saturating_file_total(entries: &Vec<WalkEntry>) -> (r: u64)
    ensures
        r == saturating_total(entries@, entries@.len() as int),
{
    let mut total: u64 = 0;
    let n = entries.len();
    for i in 0..n
        invariant
            n == entries@.len(),
            total == saturating_total(entries@, i as int),
    {
        match entries[i] {
            WalkEntry::Entry { is_file: true, len: Some(l) } => {
                total = total.saturating_add(l);
            },
            _ => {},
        }
    }
    total
}

/// The size in bytes of the directory `dir`: the lengths of the regular
/// files under it, summed with additions capped at `u64::MAX`, skipping what
/// cannot be read.  What the walk lists depends on the disk, and any `u64`
/// can be such a total, so no clause is stated of the result; the summing
/// itself is [`saturating_file_total`], whose contract is exact.
pub fn estimate_dir_size_bytes(dir: &str) -> (r: u64) {
    let entries = walk_entries(dir);
    saturating_file_total(&entries)
}

/// Why the size of a directory could not be computed.
#[derive(Clone, Copy, Debug, PartialEq, Eq, Structural)]
pub enum SizeError {
    /// An item of the walk could not be read.
    Unreadable,
    /// The total exceeds `u64::MAX`.
    Overflow,
}

/// The bytes of the regular files among `entries`: an error as soon as an
/// item could not be read, and an overflow error if the total exceeds
/// `u64::MAX` before that.
pub open spec fn strict_total_result(es: Seq<WalkEntry>) -> Result<u64, SizeError> {
    if any_unreadable(es, es.len() as int) && (forall|m: int|
        0 <= m <= es.len() && plain_total(es, m) > u64::MAX ==> any_unreadable(es, m)) {
        Err(SizeError::Unreadable)
    } else if exists|m: int| 0 <= m <= es.len() && plain_total(es, m) > u64::MAX {
        Err(SizeError::Overflow)
    } else {
        Ok(plain_total(es, es.len() as int) as u64)
    }
}

proof fn lemma_plain_total_monotone(es: Seq<WalkEntry>, a: int, b: int)
    requires
        0 <= a <= b,
    ensures
        plain_total(es, a) <= plain_total(es, b),
    decreases b - a,
{
    if a < b {
        lemma_plain_total_monotone(es, a, b - 1);
    }
}

/// The bytes of the regular files among `entries`, stopping at the first
/// unreadable item.
pub fn strict_file_total(entries: &Vec<WalkEntry>) -> (r: Result<u64, SizeError>)
    ensures
        r == strict_total_result(entries@),
{
    let ghost es = entries@;
    let mut total: u64 = 0;
    let n = entries.len();
    for i in 0..n
        invariant
            n == es.len(),
            es == entries@,
            total == plain_total(es, i as int),
            !any_unreadable(es, i as int),
            forall|m: int| 0 <= m <= i ==> plain_total(es, m) <= u64::MAX,
    {
        match entries[i] {
            WalkEntry::Unreadable => {
                proof {
                    assert(any_unreadable(es, i + 1));
                    assert(any_unreadable(es, n as int));
                    assert forall|m: int|
                        0 <= m <= es.len() && plain_total(es, m) > u64::MAX implies any_unreadable(
                        es,
                        m,
                    ) by {
                        if m <= i {
                        } else {
                            assert(es[i as int] is Unreadable);
                        }
                    }
                }
                return Err(SizeError::Unreadable);
            },
            WalkEntry::Entry { is_file, len } => {
                let add: u64 = match (is_file, len) {
                    (true, Some(l)) => l,
                    _ => 0,
                };
                assert(add == entry_bytes(es[i as int]));
                match total.checked_add(add) {
                    Some(t) => {
                        total = t;
                    },
                    None => {
                        proof {
                            assert(plain_total(es, i + 1) > u64::MAX);
                            if any_unreadable(es, n as int) {
                                let j = choose|j: int| 0 <= j < n && es[j] is Unreadable;
                                assert(j > i);
                                assert(!any_unreadable(es, i + 1));
                            }
                        }
                        return Err(SizeError::Overflow);
                    },
                }
            },
        }
    }
    proof {
        assert(!any_unreadable(es, es.len() as int));
        assert forall|m: int| 0 <= m <= es.len() implies plain_total(es, m) <= u64::MAX by {}
    }
    Ok(total)
}


/// The size of each of `candidates`, measured in parallel by rayon, in the
/// order of `candidates`: rayon's `collect` of an indexed parallel iterator
/// keeps the order and the number of items.  Each size is what
/// [`estimate_dir_size_bytes`] gives for that candidate, which depends on
/// the disk and is not stated.
#[verifier::external_body]
fn par_dir_sizes(candidates: &[String]) -> (r: Vec<u64>)
    ensures
        r@.len() == candidates@.len(),
{
    candidates.par_iter().map(|p| estimate_dir_size_bytes(p.as_str())).collect()
}

/// The findings for `candidates` measured at `sizes`, in order, leaving out
/// those of zero bytes.
pub open spec fn nonempty_findings(candidates: Seq<String>, sizes: Seq<u64>) -> Seq<Finding>
    decreases candidates.len(),
{
    if candidates.len() == 0 {
        seq![]
    } else {
        let n = (candidates.len() - 1) as int;
        let rest = nonempty_findings(candidates.take(n), sizes.take(n));
        if sizes[n] > 0 {
            rest.push(Finding { path: candidates[n], bytes: sizes[n] })
        } else {
            rest
        }
    }
}

/// The findings for `candidates` of the given `sizes`, without those of
/// zero bytes.
pub fn findings_with_sizes(candidates: &[String], sizes: &[u64]) -> (r: Vec<Finding>)
    requires
        sizes@.len() == candidates@.len(),
    ensures
        r@ == nonempty_findings(candidates@, sizes@),
{
    let n = candidates.len();
    let mut out: Vec<Finding> = Vec::new();
    for i in 0..n
        invariant
            n == candidates@.len(),
            n == sizes@.len(),
            out@ == nonempty_findings(candidates@.take(i as int), sizes@.take(i as int)),
    {
        assert(candidates@.take(i + 1).take(i as int) =~= candidates@.take(i as int));
        assert(sizes@.take(i + 1).take(i as int) =~= sizes@.take(i as int));
        if sizes[i] > 0 {
            out.push(Finding { path: candidates[i].clone(), bytes: sizes[i] });
        }
    }
    assert(candidates@.take(n as int) =~= candidates@);
    assert(sizes@.take(n as int) =~= sizes@);
    out
}

/// The findings among `candidates`: each measured (in parallel), those of
/// zero bytes left out, in the order of `candidates`.
pub fn estimate_sizes(candidates: &[String]) -> (r: Vec<Finding>)
    ensures
        exists|sizes: Seq<u64>|
            sizes.len() == candidates@.len() && r@ == nonempty_findings(
                candidates@,
                sizes,
            ),
{
    let sizes = par_dir_sizes(candidates);
    findings_with_sizes(candidates, sizes.as_slice())
}

} // verus!
