//! Stable sorting of sized entries: largest first, and optionally, among
//! entries of equal size, by path.
use vstd::prelude::*;
use crate::domain::traits::ScanResult;
use crate::types::Finding;
use crate::order::{lemma_comps_lt_total, path_lt, path_lt_exec};
use crate::path::components;

verus! {

/// An entry with a size in bytes and a path.
pub trait SizedEntry {
    spec fn entry_size(&self) -> u64;

    spec fn entry_path(&self) -> Seq<char>;

    fn size_of(&self) -> (r: u64)
        ensures
            r == self.entry_size(),
    ;

    fn path_of(&self) -> (r: &str)
        ensures
            r@ == self.entry_path(),
    ;
}

impl SizedEntry for ScanResult {
    open spec fn entry_size(&self) -> u64 {
        self.size_bytes
    }

    open spec fn entry_path(&self) -> Seq<char> {
        self.path@
    }

    fn size_of(&self) -> (r: u64) {
        self.size_bytes
    }

    fn path_of(&self) -> (r: &str) {
        self.path.as_str()
    }
}

impl SizedEntry for Finding {
    open spec fn entry_size(&self) -> u64 {
        self.bytes
    }

    open spec fn entry_path(&self) -> Seq<char> {
        self.path@
    }

    fn size_of(&self) -> (r: u64) {
        self.bytes
    }

    fn path_of(&self) -> (r: &str) {
        self.path.as_str()
    }
}

/// `a` goes before `b`: it is larger, or (when `by_path`) of equal size with
/// a path that sorts first.
pub open spec fn precedes<T: SizedEntry>(a: T, b: T, by_path: bool) -> bool {
    a.entry_size() > b.entry_size() || (by_path && a.entry_size() == b.entry_size() && path_lt(
        a.entry_path(),
        b.entry_path(),
    ))
}

/// Neither of `a` and `b` goes before the other.
pub open spec fn equivalent<T: SizedEntry>(a: T, b: T, by_path: bool) -> bool {
    !precedes(a, b, by_path) && !precedes(b, a, by_path)
}

/// No entry of `s` goes before an entry to its left.
pub open spec fn sorted_by<T: SizedEntry>(s: Seq<T>, by_path: bool) -> bool {
    forall|i: int, j: int| 0 <= i < j < s.len() ==> !#[trigger] precedes(s[j], s[i], by_path)
}

/// `out[k] == inp[perm[k]]` for an injective `perm`, and equivalent entries
/// keep their order of `inp`.
pub open spec fn stable_perm<T: SizedEntry>(out: Seq<T>, inp: Seq<T>, by_path: bool, perm: Seq<int>) -> bool {
    &&& perm.len() == out.len()
    &&& forall|k: int| 0 <= k < perm.len() ==> 0 <= #[trigger] perm[k] < inp.len()
    &&& forall|k: int| 0 <= k < perm.len() ==> #[trigger] out[k] == inp[perm[k]]
    &&& forall|k1: int, k2: int| 0 <= k1 < k2 < perm.len() ==> #[trigger] perm[k1] != #[trigger] perm[k2]
    &&& forall|k1: int, k2: int|
        0 <= k1 < k2 < out.len() && equivalent(#[trigger] out[k1], #[trigger] out[k2], by_path)
            ==> perm[k1] < perm[k2]
}

/// `out` is `inp` sorted stably: a rearrangement of all of `inp` in which no
/// entry goes before an entry to its left and equivalent entries keep their
/// order.
pub open spec fn stable_sort_of<T: SizedEntry>(out: Seq<T>, inp: Seq<T>, by_path: bool) -> bool {
    &&& out.len() == inp.len()
    &&& sorted_by(out, by_path)
    &&& exists|perm: Seq<int>| stable_perm(out, inp, by_path, perm)
}

/// [`precedes`] is a strict weak order: irreflexive, transitive, and so is
/// its complement.
pub proof fn lemma_precedes_strict_weak<T: SizedEntry>(a: T, b: T, c: T, by_path: bool)
    ensures
        !precedes(a, a, by_path),
        precedes(a, b, by_path) && precedes(b, c, by_path) ==> precedes(a, c, by_path),
        !precedes(a, b, by_path) && !precedes(b, c, by_path) ==> !precedes(a, c, by_path),
        precedes(a, b, by_path) ==> !precedes(b, a, by_path),
{
    lemma_comps_lt_total();
    let pa = components(a.entry_path());
    let pb = components(b.entry_path());
    let pc = components(c.entry_path());
    if !precedes(a, b, by_path) && !precedes(b, c, by_path) && by_path {
        if a.entry_size() == b.entry_size() && b.entry_size() == c.entry_size() {
            if pa != pb {
                assert(path_lt(b.entry_path(), a.entry_path()));
            }
            if pb != pc {
                assert(path_lt(c.entry_path(), b.entry_path()));
            }
        }
    }
}

/// Whether `a` goes before `b`.
pub fn precedes_exec<T: SizedEntry>(a: &T, b: &T, by_path: bool) -> (r: bool)
    ensures
        r == precedes(*a, *b, by_path),
{
    let sa = a.size_of();
    let sb = b.size_of();
    if sa > sb {
        true
    } else if by_path && sa == sb {
        path_lt_exec(a.path_of(), b.path_of())
    } else {
        false
    }
}

/// `v` sorted stably: largest first, and with `by_path` entries of equal
/// size by path.
pub fn sort_stable<T: SizedEntry>(v: Vec<T>, by_path: bool) -> (r: Vec<T>)
    ensures
        stable_sort_of(r@, v@, by_path),
{
    let ghost orig = v@;
    let n = v.len();
    let mut rest = v;
    let mut out: Vec<T> = Vec::new();
    let ghost mut perm: Seq<int> = Seq::empty();
    let mut i: usize = 0;
    while i < n
        invariant
            n == orig.len(),
            0 <= i <= n,
            rest@ == orig.subrange(i as int, n as int),
            out@.len() == i,
            sorted_by(out@, by_path),
            stable_perm(out@, orig.take(i as int), by_path, perm),
        decreases n - i,
    {
        let x = rest.remove(0);
        assert(x == orig[i as int]);
        let mut k = out.len();
        while k > 0 && precedes_exec(&x, &out[k - 1], by_path)
            invariant
                k <= out@.len(),
                forall|m: int| k <= m < out@.len() ==> precedes(x, #[trigger] out@[m], by_path),
            decreases k,
        {
            k = k - 1;
        }
        let ghost old_out = out@;
        let ghost old_perm = perm;
        proof {
            // Where `x` lands, nothing before it is exceeded by `x`.
            assert forall|p: int| 0 <= p < k implies !precedes(x, #[trigger] old_out[p], by_path) by {
                if p < k - 1 {
                    lemma_precedes_strict_weak(x, old_out[k - 1], old_out[p], by_path);
                }
            }
        }
        out.insert(k, x);
        proof {
            perm = old_perm.insert(k as int, i as int);
            let ni = i + 1;
            assert(orig.take(ni as int).len() == ni);
            assert forall|p: int, q: int| 0 <= p < q < out@.len() implies !#[trigger] precedes(
                out@[q],
                out@[p],
                by_path,
            ) by {
                if q < k {
                } else if q == k {
                } else if p == k {
                    lemma_precedes_strict_weak(x, old_out[q - 1], x, by_path);
                } else if p < k {
                } else {
                    assert(!precedes(old_out[q - 1], old_out[p - 1], by_path));
                }
            }
            assert forall|m: int| 0 <= m < perm.len() implies #[trigger] out@[m] == orig.take(
                ni as int,
            )[perm[m]] by {
                if m < k {
                    assert(out@[m] == old_out[m]);
                } else if m > k {
                    assert(out@[m] == old_out[m - 1]);
                }
            }
            assert forall|k1: int, k2: int|
                0 <= k1 < k2 < out@.len() && equivalent(
                    #[trigger] out@[k1],
                    #[trigger] out@[k2],
                    by_path,
                ) implies perm[k1] < perm[k2] by {
                if k1 == k && k2 > k {
                    assert(precedes(x, old_out[k2 - 1], by_path));
                } else if k1 < k && k2 > k {
                    assert(equivalent(old_out[k1], old_out[k2 - 1], by_path));
                } else if k1 > k {
                    assert(equivalent(old_out[k1 - 1], old_out[k2 - 1], by_path));
                } else if k1 < k && k2 < k {
                    assert(equivalent(old_out[k1], old_out[k2], by_path));
                }
            }
            assert forall|k1: int, k2: int| 0 <= k1 < k2 < perm.len() implies #[trigger] perm[k1]
                != #[trigger] perm[k2] by {
                if k1 < k && k2 > k {
                    assert(old_perm[k1] != old_perm[k2 - 1]);
                } else if k1 > k {
                    assert(old_perm[k1 - 1] != old_perm[k2 - 1]);
                } else if k2 < k {
                    assert(old_perm[k1] != old_perm[k2]);
                }
            }
            assert(stable_perm(out@, orig.take(ni as int), by_path, perm));
        }
        i = i + 1;
    }
    assert(orig.take(n as int) =~= orig);
    out
}

/// A stable sort loses no entry: every entry of the input appears in the
/// output.
pub proof fn lemma_stable_perm_onto<T: SizedEntry>(out: Seq<T>, inp: Seq<T>, by_path: bool, perm: Seq<int>, p: int)
    requires
        out.len() == inp.len(),
        stable_perm(out, inp, by_path, perm),
        0 <= p < inp.len(),
    ensures
        out.contains(inp[p]),
{
    lemma_injective_onto(perm, inp.len() as int, p);
    let k = choose|k: int| 0 <= k < perm.len() && perm[k] == p;
    assert(out[k] == inp[p]);
}

/// An injective map of `[0, n)` into `[0, n)` hits every value.
proof fn lemma_injective_onto(perm: Seq<int>, n: int, p: int)
    requires
        perm.len() == n,
        forall|k: int| 0 <= k < n ==> 0 <= #[trigger] perm[k] < n,
        forall|k1: int, k2: int| 0 <= k1 < k2 < n ==> #[trigger] perm[k1] != #[trigger] perm[k2],
        0 <= p < n,
    ensures
        exists|k: int| 0 <= k < n && perm[k] == p,
{
    if !(exists|k: int| 0 <= k < n && perm[k] == p) {
        // Then perm maps [0, n) injectively into [0, n) without p: a set of
        // n - 1 values, which is too small.
        let s = Set::new(|v: int| 0 <= v < n && v != p);
        let img = Set::new(|v: int| exists|k: int| 0 <= k < n && perm[k] == v);
        assert(img.subset_of(s));
        vstd::set_lib::lemma_int_range(0, n);
        assert(s =~= vstd::set_lib::set_int_range(0, n).remove(p));
        lemma_image_size(perm, n);
        vstd::set_lib::lemma_len_subset(img, s);
    }
}

/// The image of an injective sequence of length `n` has `n` elements.
proof fn lemma_image_size(perm: Seq<int>, n: int)
    requires
        perm.len() == n,
        forall|k1: int, k2: int| 0 <= k1 < k2 < n ==> #[trigger] perm[k1] != #[trigger] perm[k2],
    ensures
        Set::new(|v: int| exists|k: int| 0 <= k < n && perm[k] == v).finite(),
        Set::new(|v: int| exists|k: int| 0 <= k < n && perm[k] == v).len() == n,
    decreases n,
{
    let img = Set::new(|v: int| exists|k: int| 0 <= k < n && perm[k] == v);
    if n == 0 {
        assert(img =~= Set::empty());
    } else {
        let q = perm.drop_last();
        lemma_image_size(q, n - 1);
        let img_q = Set::new(|v: int| exists|k: int| 0 <= k < n - 1 && q[k] == v);
        assert forall|v: int| img.contains(v) implies #[trigger] img_q.insert(perm[n - 1]).contains(v) by {
            let k = choose|k: int| 0 <= k < n && perm[k] == v;
            if k < n - 1 {
                assert(q[k] == v);
            }
        }
        assert forall|v: int| img_q.insert(perm[n - 1]).contains(v) implies #[trigger] img.contains(v) by {
            if v != perm[n - 1] {
                let k = choose|k: int| 0 <= k < n - 1 && q[k] == v;
                assert(perm[k] == v);
            }
        }
        assert(img =~= img_q.insert(perm[n - 1]));
        assert(!img_q.contains(perm[n - 1]));
    }
}

} // verus!
