//! Reducing redundant scan results.
//!
//! Two steps: many Cargo build-script `out/` directories under one
//! `.../build/` directory are replaced by that directory, and results that
//! lie below another physical result are dropped.  What is left is ordered
//! largest first.
use vstd::prelude::*;
use crate::domain::size::estimate_dir_size_bytes;
use crate::domain::traits::{ArtifactType, ScanResult};
use crate::path::{
    Comps, components, comps_eq, comps_prefix, comps_view, file_name_of, is_normal_exec,
    parent_of, path_components, render, render_exec,
};
use crate::sort::{sort_stable, stable_sort_of};
use crate::text::{
    eq_ignore_ascii_case, eq_ignore_ascii_case_exec, is_prefix_of, lowercase, string_of,
    to_lowercase, chars_of, chars_eq_str,
};

verus! {

/// Options of the reduction.
#[derive(Clone, Copy, Debug)]
pub struct ReduceOptions {
    /// If a directory contains at least this many sibling `out/`
    /// directories, they are collapsed into the Cargo `.../build/` directory.
    pub cargo_out_promotion_min: usize,
}

impl Default for ReduceOptions {
    fn default() -> (r: Self)
        ensures
            r.cargo_out_promotion_min == 8,
    {
        ReduceOptions { cargo_out_promotion_min: 8 }
    }
}

/// The path with components `cs` ends in a name equal to `name` up to ASCII case.
pub open spec fn named_ci(cs: Comps, name: Seq<char>) -> bool {
    file_name_of(cs) matches Some(n) && eq_ignore_ascii_case(n, name)
}

/// The path with components `cs` ends in a Cargo profile name: one whose
/// lowercase form is `debug` or `release`.
pub open spec fn is_profile(cs: Comps) -> bool {
    file_name_of(cs) matches Some(n) && (lowercase(n) == "debug"@ || lowercase(n) == "release"@)
}

/// The `.../build/` directory of a Cargo build-script output directory
/// `.../<profile>/build/<crate>/out`.  The usual layout is
/// `.../target/<profile>/build/...`, but a profile directory anywhere (as
/// with `CARGO_TARGET_DIR`) is accepted too, so the parent of the profile
/// directory is not looked at.
pub open spec fn cargo_build_dir(cs: Comps) -> Option<Comps> {
    match parent_of(cs) {
        None => None,
        Some(crate_dir) => match parent_of(crate_dir) {
            None => None,
            Some(build) => {
                if !named_ci(build, "build"@) {
                    None
                } else {
                    match parent_of(build) {
                        Some(profile) => {
                            if is_profile(profile) {
                                Some(build)
                            } else {
                                None
                            }
                        },
                        None => None,
                    }
                }
            },
        },
    }
}

/// The components without the last one (the parent's components).
fn drop_last_comps(cs: &Vec<Vec<char>>) -> (r: Vec<Vec<char>>)
    requires
        cs@.len() > 0,
    ensures
        comps_view(r@) == comps_view(cs@).drop_last(),
{
    let mut r = cs.clone();
    assert(comps_view(r@) == comps_view(cs@));
    let _ = r.pop();
    assert(comps_view(r@) =~= comps_view(cs@).drop_last());
    r
}

/// The parent's components, `None` for an empty path or one ending at the root.
fn parent_comps(cs: &Vec<Vec<char>>) -> (r: Option<Vec<Vec<char>>>)
    ensures
        match r {
            Some(p) => parent_of(comps_view(cs@)) == Some(comps_view(p@)),
            None => parent_of(comps_view(cs@)) is None,
        },
{
    let n = cs.len();
    if n == 0 {
        return None;
    }
    if crate::path::is_root_exec(&cs[n - 1]) {
        return None;
    }
    Some(drop_last_comps(cs))
}

/// Whether the path with components `cs` ends in `name` up to ASCII case.
fn named_ci_exec(cs: &Vec<Vec<char>>, name: &str) -> (r: bool)
    ensures
        r == named_ci(comps_view(cs@), name@),
{
    let n = cs.len();
    if n == 0 {
        return false;
    }
    let last = &cs[n - 1];
    is_normal_exec(last) && eq_ignore_ascii_case_exec(last.as_slice(), name)
}

/// Whether the path with components `cs` ends in a Cargo profile name.
fn is_profile_exec(cs: &Vec<Vec<char>>) -> (r: bool)
    ensures
        r == is_profile(comps_view(cs@)),
{
    let n = cs.len();
    if n == 0 {
        return false;
    }
    let last = &cs[n - 1];
    if !is_normal_exec(last) {
        return false;
    }
    let s = string_of(last.as_slice());
    let l = to_lowercase(s.as_str());
    let lc = chars_of(l.as_str());
    chars_eq_str(lc.as_slice(), "debug") || chars_eq_str(lc.as_slice(), "release")
}

/// The `.../build/` directory for the build-script output directory with
/// components `cs`.
pub fn cargo_build_dir_exec(cs: &Vec<Vec<char>>) -> (r: Option<Vec<Vec<char>>>)
    ensures
        match r {
            Some(b) => cargo_build_dir(comps_view(cs@)) == Some(comps_view(b@)),
            None => cargo_build_dir(comps_view(cs@)) is None,
        },
{
    let crate_dir = match parent_comps(cs) {
        Some(c) => c,
        None => return None,
    };
    let build = match parent_comps(&crate_dir) {
        Some(b) => b,
        None => return None,
    };
    if !named_ci_exec(&build, "build") {
        return None;
    }
    match parent_comps(&build) {
        Some(profile) => {
            if is_profile_exec(&profile) {
                Some(build)
            } else {
                None
            }
        },
        None => None,
    }
}

/// Whether the path `path` ends in a name equal to `name` up to ASCII case.
pub fn is_named(path: &str, name: &str) -> (r: bool)
    ensures
        r == named_ci(components(path@), name@),
{
    let cs = path_components(path);
    named_ci_exec(&cs, name)
}

/// Whether `path` is an `out` directory (the name compared up to ASCII case).
pub fn is_out_dir(path: &str) -> (r: bool)
    ensures
        r == named_ci(components(path@), "out"@),
{
    is_named(path, "out")
}

/// Whether `path` is a Cargo profile directory (`debug` or `release`).
pub fn is_cargo_profile_dir(path: &str) -> (r: bool)
    ensures
        r == is_profile(components(path@)),
{
    let cs = path_components(path);
    is_profile_exec(&cs)
}

/// The Cargo `.../build/` directory for a build-script output directory
/// `.../<profile>/build/<crate>/out`, its components joined with `/`.
pub fn cargo_build_dir_for_out(out_dir: &str) -> (r: Option<String>)
    ensures
        match r {
            Some(b) => cargo_build_dir(components(out_dir@)) matches Some(k) && b@ == render(k),
            None => cargo_build_dir(components(out_dir@)) is None,
        },
{
    let cs = path_components(out_dir);
    match cargo_build_dir_exec(&cs) {
        Some(b) => {
            let t = render_exec(&b);
            Some(string_of(t.as_slice()))
        },
        None => None,
    }
}

/// `path` lies strictly below `ancestor`: the components of `ancestor`
/// begin those of `path`, and `path` has more of them.
pub open spec fn strictly_below(path: Seq<char>, ancestor: Seq<char>) -> bool {
    is_prefix_of(components(ancestor), components(path)) && components(ancestor).len()
        < components(path).len()
}

/// Whether `path` lies strictly below `ancestor`.
pub fn is_strict_descendant(path: &str, ancestor: &str) -> (r: bool)
    ensures
        r == strictly_below(path@, ancestor@),
{
    let p = path_components(path);
    let a = path_components(ancestor);
    comps_prefix(&a, &p) && a.len() < p.len()
}

/// The result is a physical path (not a Docker resource).
pub open spec fn is_physical(r: ScanResult) -> bool {
    r.artifact_type is Physical
}

/// The build directory a result would be collapsed into: for a physical
/// `out` directory, its Cargo `.../build/` directory, if it has one.
pub open spec fn key_of(r: ScanResult) -> Option<Comps> {
    if is_physical(r) && named_ci(components(r.path@), "out"@) {
        cargo_build_dir(components(r.path@))
    } else {
        None
    }
}

/// How many of the first `n` results have the build directory `k`.
pub open spec fn count_key(rs: Seq<ScanResult>, k: Comps, n: int) -> nat
    decreases n,
{
    if n <= 0 {
        0
    } else {
        count_key(rs, k, n - 1) + if key_of(rs[n - 1]) == Some(k) {
            1nat
        } else {
            0nat
        }
    }
}

/// Result `i` belongs to a group of at least `min` results with the same
/// build directory.
pub open spec fn promoted(rs: Seq<ScanResult>, min: int, i: int) -> bool {
    key_of(rs[i]) matches Some(k) && count_key(rs, k, rs.len() as int) >= min
}

/// Result `i` is the first of its promoted group.
pub open spec fn leads(rs: Seq<ScanResult>, min: int, i: int) -> bool {
    promoted(rs, min, i) && forall|j: int| 0 <= j < i ==> key_of(rs[j]) != key_of(rs[i])
}

/// Result `i` is kept by the promotion: it is not promoted, or it leads its group.
pub open spec fn survives(rs: Seq<ScanResult>, min: int, i: int) -> bool {
    !promoted(rs, min, i) || leads(rs, min, i)
}

/// The indices, in order, of the first `n` results that the promotion keeps.
pub open spec fn survivors(rs: Seq<ScanResult>, min: int, n: int) -> Seq<int>
    decreases n,
{
    if n <= 0 {
        seq![]
    } else if survives(rs, min, n - 1) {
        survivors(rs, min, n - 1).push(n - 1)
    } else {
        survivors(rs, min, n - 1)
    }
}

/// `o` is what result `i` becomes: the leader of a promoted group becomes
/// its build directory, with size `sizes[i]` and the same category and
/// type; any other kept result is unchanged.
pub open spec fn promoted_from(o: ScanResult, rs: Seq<ScanResult>, min: int, sizes: Seq<u64>, i: int) -> bool {
    if leads(rs, min, i) {
        &&& o.path@ == render(key_of(rs[i])->0)
        &&& o.size_bytes == sizes[i]
        &&& o.category == rs[i].category
        &&& o.artifact_type == rs[i].artifact_type
    } else {
        o == rs[i]
    }
}

/// `out` is the promotion of `rs`: each kept result, in order, as it becomes.
pub open spec fn promotion_of(out: Seq<ScanResult>, rs: Seq<ScanResult>, min: int, sizes: Seq<u64>) -> bool {
    let idx = survivors(rs, min, rs.len() as int);
    &&& out.len() == idx.len()
    &&& forall|j: int| 0 <= j < out.len() ==> promoted_from(#[trigger] out[j], rs, min, sizes, idx[j])
}

/// What the promotion does with one result.
pub enum Promotion {
    /// Not part of a promoted group.
    Keep,
    /// Part of a promoted group, after its first member.
    Drop,
    /// First of a promoted group, whose build directory has these components.
    Lead(Vec<Vec<char>>),
}

/// The view of an optional component list.
pub open spec fn opt_comps(o: Option<Vec<Vec<char>>>) -> Option<Comps> {
    match o {
        Some(v) => Some(comps_view(v@)),
        None => None,
    }
}

/// `p` says what the promotion does with result `i`.
pub open spec fn plans(p: Promotion, rs: Seq<ScanResult>, min: int, i: int) -> bool {
    match p {
        Promotion::Keep => !promoted(rs, min, i),
        Promotion::Drop => promoted(rs, min, i) && !leads(rs, min, i),
        Promotion::Lead(k) => leads(rs, min, i) && key_of(rs[i]) == Some(comps_view(k@)),
    }
}

fn key_exec(r: &ScanResult) -> (k: Option<Vec<Vec<char>>>)
    ensures
        opt_comps(k) == key_of(*r),
{
    let physical = match r.artifact_type {
        ArtifactType::Physical => true,
        _ => false,
    };
    if !physical {
        return None;
    }
    let cs = path_components(r.path.as_str());
    if !named_ci_exec(&cs, "out") {
        return None;
    }
    cargo_build_dir_exec(&cs)
}

fn opt_comps_eq(a: &Option<Vec<Vec<char>>>, b: &Option<Vec<Vec<char>>>) -> (r: bool)
    ensures
        r == (opt_comps(*a) == opt_comps(*b)),
{
    match (a, b) {
        (Some(x), Some(y)) => comps_eq(x, y),
        (None, None) => true,
        _ => false,
    }
}

/// What the promotion does with each result.
pub fn plan_promotions(results: &Vec<ScanResult>, min_siblings: usize) -> (plan: Vec<Promotion>)
    ensures
        plan@.len() == results@.len(),
        forall|i: int| 0 <= i < results@.len() ==> plans(#[trigger] plan@[i], results@, min_siblings as int, i),
{
    let ghost rs = results@;
    let n = results.len();
    let mut keys: Vec<Option<Vec<Vec<char>>>> = Vec::new();
    for i in 0..n
        invariant
            n == rs.len(),
            rs == results@,
            keys@.len() == i,
            forall|k: int| 0 <= k < i ==> opt_comps(#[trigger] keys@[k]) == key_of(rs[k]),
    {
        keys.push(key_exec(&results[i]));
    }
    let mut plan: Vec<Promotion> = Vec::new();
    for i in 0..n
        invariant
            n == rs.len(),
            keys@.len() == n,
            forall|k: int| 0 <= k < n ==> opt_comps(#[trigger] keys@[k]) == key_of(rs[k]),
            plan@.len() == i,
            forall|k: int| 0 <= k < i ==> plans(#[trigger] plan@[k], rs, min_siblings as int, k),
    {
        match &keys[i] {
            None => {
                plan.push(Promotion::Keep);
            },
            Some(k) => {
                let ghost kv = comps_view(k@);
                let mut count: usize = 0;
                let mut first = true;
                for j in 0..n
                    invariant
                        n == rs.len(),
                        keys@.len() == n,
                        forall|m: int| 0 <= m < n ==> opt_comps(#[trigger] keys@[m]) == key_of(rs[m]),
                        i < n,
                        opt_comps(keys@[i as int]) == Some(kv),
                        count == count_key(rs, kv, j as int),
                        count <= j,
                        first == (forall|m: int| 0 <= m < j && m < i ==> key_of(rs[m]) != Some(kv)),
                {
                    let same = opt_comps_eq(&keys[j], &keys[i]);
                    if same {
                        count = count + 1;
                        if j < i {
                            first = false;
                        }
                    }
                    proof {
                        if !same && j < i {
                            assert(key_of(rs[j as int]) != Some(kv));
                        }
                    }
                }
                assert(key_of(rs[i as int]) == Some(kv));
                if count >= min_siblings {
                    assert(promoted(rs, min_siblings as int, i as int));
                    if first {
                        let kc = k.clone();
                        assert(comps_view(kc@) == kv);
                        assert(leads(rs, min_siblings as int, i as int));
                        plan.push(Promotion::Lead(kc));
                    } else {
                        assert(!leads(rs, min_siblings as int, i as int));
                        plan.push(Promotion::Drop);
                    }
                } else {
                    assert(!promoted(rs, min_siblings as int, i as int));
                    plan.push(Promotion::Keep);
                }
                assert(plans(plan@[i as int], rs, min_siblings as int, i as int));
            },
        }
    }
    plan
}

/// Collapses promoted groups of Cargo `out/` directories: the first member
/// of each group of at least `min_siblings` results with the same build
/// directory becomes that directory, with size `sizes[i]`; the other members
/// are dropped; every other result stays as it is, in order.
pub fn promote_with_sizes(results: Vec<ScanResult>, min_siblings: usize, sizes: &Vec<u64>) -> (r: Vec<
    ScanResult,
>)
    requires
        sizes@.len() == results@.len(),
    ensures
        promotion_of(r@, results@, min_siblings as int, sizes@),
{
    let ghost rs = results@;
    let ghost min = min_siblings as int;
    let plan = plan_promotions(&results, min_siblings);
    let n = results.len();
    let mut rest = results;
    let mut out: Vec<ScanResult> = Vec::new();
    for i in 0..n
        invariant
            n == rs.len(),
            sizes@.len() == n,
            plan@.len() == n,
            forall|k: int| 0 <= k < n ==> plans(#[trigger] plan@[k], rs, min, k),
            rest@ == rs.subrange(i as int, n as int),
            out@.len() == survivors(rs, min, i as int).len(),
            forall|j: int|
                0 <= j < out@.len() ==> promoted_from(
                    #[trigger] out@[j],
                    rs,
                    min,
                    sizes@,
                    survivors(rs, min, i as int)[j],
                ),
    {
        let mut x = rest.remove(0);
        assert(x == rs[i as int]);
        let ghost before = out@;
        match &plan[i] {
            Promotion::Keep => {
                out.push(x);
            },
            Promotion::Drop => {},
            Promotion::Lead(k) => {
                let t = render_exec(k);
                x.path = string_of(t.as_slice());
                x.size_bytes = sizes[i];
                out.push(x);
            },
        }
        proof {
            let s = survivors(rs, min, i + 1);
            assert forall|j: int| 0 <= j < out@.len() implies promoted_from(
                #[trigger] out@[j],
                rs,
                min,
                sizes@,
                s[j],
            ) by {
                if j < before.len() {
                    assert(out@[j] == before[j]);
                }
            }
        }
    }
    out
}

/// The sizes of the build directories that promoted groups collapse into,
/// measured on disk, at the index of each group's leader (0 elsewhere).
fn leader_sizes(results: &Vec<ScanResult>, min_siblings: usize) -> (sizes: Vec<u64>)
    ensures
        sizes@.len() == results@.len(),
{
    let plan = plan_promotions(results, min_siblings);
    let n = plan.len();
    let mut sizes: Vec<u64> = Vec::new();
    for i in 0..n
        invariant
            n == plan@.len(),
            sizes@.len() == i,
    {
        match &plan[i] {
            Promotion::Lead(k) => {
                let t = render_exec(k);
                let dir = string_of(t.as_slice());
                sizes.push(estimate_dir_size_bytes(dir.as_str()));
            },
            _ => {
                sizes.push(0);
            },
        }
    }
    sizes
}

/// Collapses each group of at least `min_siblings` Cargo build-script
/// `out/` directories into their `.../build/` directory, whose size is
/// measured on disk.  The sizes depend on the disk; everything else is as
/// [`promote_with_sizes`] states.
pub fn promote_cargo_out_dirs(results: Vec<ScanResult>, min_siblings: usize) -> (r: Vec<ScanResult>)
    ensures
        exists|sizes: Seq<u64>|
            sizes.len() == results@.len() && promotion_of(
                r@,
                results@,
                min_siblings as int,
                sizes,
            ),
{
    let sizes = leader_sizes(&results, min_siblings);
    let ghost rs = results@;
    let r = promote_with_sizes(results, min_siblings, &sizes);
    assert(sizes@.len() == rs.len() && promotion_of(
        r@,
        rs,
        min_siblings as int,
        sizes@,
    ));
    r
}

/// Some physical result of `rs` lies strictly above `r`.
pub open spec fn has_physical_ancestor(rs: Seq<ScanResult>, r: ScanResult) -> bool {
    exists|j: int| 0 <= j < rs.len() && is_physical(rs[j]) && strictly_below(r.path@, rs[j].path@)
}

/// `r` survives the removal of descendants: it is not physical, or no
/// physical result of `rs` lies strictly above it.
pub open spec fn keeps(rs: Seq<ScanResult>, r: ScanResult) -> bool {
    !is_physical(r) || !has_physical_ancestor(rs, r)
}

/// The results among the first `n` of `rs` that survive, in order.
pub open spec fn kept_upto(rs: Seq<ScanResult>, n: int) -> Seq<ScanResult>
    decreases n,
{
    if n <= 0 {
        seq![]
    } else if keeps(rs, rs[n - 1]) {
        kept_upto(rs, n - 1).push(rs[n - 1])
    } else {
        kept_upto(rs, n - 1)
    }
}

/// `out` is `rs` without descendants: the surviving results, sorted stably
/// largest first and, among equal sizes, by path.
pub open spec fn descendants_removed(out: Seq<ScanResult>, rs: Seq<ScanResult>) -> bool {
    stable_sort_of(out, kept_upto(rs, rs.len() as int), true)
}

/// Drops every physical result that lies strictly below another physical
/// result, then orders what is left largest first, equal sizes by path,
/// keeping the input order among equal sizes and paths.
pub fn remove_descendants(results: Vec<ScanResult>) -> (r: Vec<ScanResult>)
    ensures
        descendants_removed(r@, results@),
{
    let ghost rs = results@;
    let n = results.len();
    let mut comps: Vec<Vec<Vec<char>>> = Vec::new();
    for i in 0..n
        invariant
            n == rs.len(),
            rs == results@,
            comps@.len() == i,
            forall|k: int| 0 <= k < i ==> comps_view(#[trigger] comps@[k]@) == components(rs[k].path@),
    {
        comps.push(path_components(results[i].path.as_str()));
    }
    let mut keep: Vec<bool> = Vec::new();
    for i in 0..n
        invariant
            n == rs.len(),
            rs == results@,
            comps@.len() == n,
            forall|k: int| 0 <= k < n ==> comps_view(#[trigger] comps@[k]@) == components(rs[k].path@),
            keep@.len() == i,
            forall|k: int| 0 <= k < i ==> #[trigger] keep@[k] == keeps(rs, rs[k]),
    {
        let physical = match results[i].artifact_type {
            ArtifactType::Physical => true,
            _ => false,
        };
        let mut found = false;
        if physical {
            for j in 0..n
                invariant
                    n == rs.len(),
                    rs == results@,
                    comps@.len() == n,
                    forall|k: int| 0 <= k < n ==> comps_view(#[trigger] comps@[k]@) == components(rs[k].path@),
                    i < n,
                    found == (exists|m: int|
                        0 <= m < j && is_physical(rs[m]) && strictly_below(rs[i as int].path@, rs[m].path@)),
            {
                let pj = match results[j].artifact_type {
                    ArtifactType::Physical => true,
                    _ => false,
                };
                if pj && comps_prefix(&comps[j], &comps[i]) && comps[j].len() < comps[i].len() {
                    assert(strictly_below(rs[i as int].path@, rs[j as int].path@));
                    found = true;
                }
            }
        }
        keep.push(!physical || !found);
    }
    let mut rest = results;
    let mut kept: Vec<ScanResult> = Vec::new();
    for i in 0..n
        invariant
            n == rs.len(),
            keep@.len() == n,
            forall|k: int| 0 <= k < n ==> #[trigger] keep@[k] == keeps(rs, rs[k]),
            rest@ == rs.subrange(i as int, n as int),
            kept@ == kept_upto(rs, i as int),
    {
        let x = rest.remove(0);
        assert(x == rs[i as int]);
        if keep[i] {
            kept.push(x);
        }
    }
    sort_stable(kept, true)
}

/// `out` is the reduction of `rs`: its promotion (with build-directory
/// sizes `sizes`) without descendants.
pub open spec fn reduction_of(out: Seq<ScanResult>, rs: Seq<ScanResult>, min: int, sizes: Seq<u64>) -> bool {
    exists|mid: Seq<ScanResult>| promotion_of(mid, rs, min, sizes) && descendants_removed(out, mid)
}

/// Reduces redundant scan results, with the sizes of promoted build
/// directories given in `sizes`.
pub fn reduce_with_sizes(results: Vec<ScanResult>, opts: ReduceOptions, sizes: &Vec<u64>) -> (r: Vec<
    ScanResult,
>)
    requires
        sizes@.len() == results@.len(),
    ensures
        reduction_of(r@, results@, opts.cargo_out_promotion_min as int, sizes@),
{
    let ghost rs = results@;
    let mid = promote_with_sizes(results, opts.cargo_out_promotion_min, sizes);
    let ghost midv = mid@;
    let r = remove_descendants(mid);
    assert(promotion_of(midv, rs, opts.cargo_out_promotion_min as int, sizes@) && descendants_removed(r@, midv));
    r
}

/// Reduces redundant scan results: promotes crowded Cargo `out/`
/// directories to their build directory (measured on disk), then removes
/// descendants of other physical results; the result is ordered largest
/// first.
pub fn reduce_scan_results(results: Vec<ScanResult>, opts: ReduceOptions) -> (r: Vec<ScanResult>)
    ensures
        exists|sizes: Seq<u64>|
            sizes.len() == results@.len() && reduction_of(
                r@,
                results@,
                opts.cargo_out_promotion_min as int,
                sizes,
            ),
{
    let sizes = leader_sizes(&results, opts.cargo_out_promotion_min);
    let ghost rs = results@;
    let r = reduce_with_sizes(results, opts, &sizes);
    assert(sizes@.len() == rs.len() && reduction_of(
        r@,
        rs,
        opts.cargo_out_promotion_min as int,
        sizes@,
    ));
    r
}

proof fn lemma_kept_upto_members(rs: Seq<ScanResult>, n: int, i: int)
    requires
        0 <= n <= rs.len(),
        0 <= i < kept_upto(rs, n).len(),
    ensures
        rs.contains(kept_upto(rs, n)[i]),
        keeps(rs, kept_upto(rs, n)[i]),
    decreases n,
{
    if n > 0 {
        let prev = kept_upto(rs, n - 1);
        if keeps(rs, rs[n - 1]) {
            if i < prev.len() {
                lemma_kept_upto_members(rs, n - 1, i);
                assert(kept_upto(rs, n)[i] == prev[i]);
            } else {
                assert(kept_upto(rs, n)[i] == rs[n - 1]);
            }
        } else {
            lemma_kept_upto_members(rs, n - 1, i);
        }
    }
}

/// After descendants are removed, no physical result lies strictly below
/// another physical result.
pub proof fn lemma_no_nested_physical_results(out: Seq<ScanResult>, rs: Seq<ScanResult>)
    requires
        descendants_removed(out, rs),
    ensures
        forall|i: int, j: int|
            0 <= i < out.len() && 0 <= j < out.len() && is_physical(out[i]) && is_physical(out[j])
                ==> !strictly_below(#[trigger] out[i].path@, #[trigger] out[j].path@),
{
    let kept = kept_upto(rs, rs.len() as int);
    let perm = choose|perm: Seq<int>| crate::sort::stable_perm(out, kept, true, perm);
    assert forall|i: int, j: int|
        0 <= i < out.len() && 0 <= j < out.len() && is_physical(out[i]) && is_physical(out[j])
            implies !strictly_below(#[trigger] out[i].path@, #[trigger] out[j].path@) by {
        assert(out[i] == kept[perm[i]]);
        assert(out[j] == kept[perm[j]]);
        lemma_kept_upto_members(rs, rs.len() as int, perm[i]);
        lemma_kept_upto_members(rs, rs.len() as int, perm[j]);
        if strictly_below(out[i].path@, out[j].path@) {
            let m = choose|m: int| 0 <= m < rs.len() && rs[m] == out[j];
            assert(has_physical_ancestor(rs, out[i]));
        }
    }
}

/// Every physical result with no physical result strictly above it
/// survives the removal of descendants; so does every result that is not
/// physical.
pub proof fn lemma_roots_survive(out: Seq<ScanResult>, rs: Seq<ScanResult>, k: int)
    requires
        descendants_removed(out, rs),
        0 <= k < rs.len(),
        keeps(rs, rs[k]),
    ensures
        out.contains(rs[k]),
{
    lemma_kept_upto_contains(rs, rs.len() as int, k);
    let kept = kept_upto(rs, rs.len() as int);
    let perm = choose|perm: Seq<int>| crate::sort::stable_perm(out, kept, true, perm);
    let p = choose|p: int| 0 <= p < kept.len() && kept[p] == rs[k];
    crate::sort::lemma_stable_perm_onto(out, kept, true, perm, p);
}

proof fn lemma_kept_upto_contains(rs: Seq<ScanResult>, n: int, k: int)
    requires
        0 <= k < n <= rs.len(),
        keeps(rs, rs[k]),
    ensures
        kept_upto(rs, n).contains(rs[k]),
    decreases n,
{
    if k < n - 1 {
        lemma_kept_upto_contains(rs, n - 1, k);
        let prev = kept_upto(rs, n - 1);
        let p = choose|p: int| 0 <= p < prev.len() && prev[p] == rs[k];
        if keeps(rs, rs[n - 1]) {
            assert(kept_upto(rs, n)[p] == rs[k]);
        }
    } else {
        assert(kept_upto(rs, n).last() == rs[k]);
    }
}

} // verus!
