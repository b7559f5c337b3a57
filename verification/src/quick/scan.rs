//! What the quick scan does with each entry of the walk, and the list of
//! candidates it ends with.
use vstd::prelude::*;
use crate::order::{lemma_comps_lt_total, path_lt, path_lt_exec};
use crate::path::{components, same_path};
use crate::quick::config::{Pattern, PatternKind, pattern_matches, quick_patterns, any_matches, is_protected_entry_name, opt_text, matches_any_pattern, protected_name};

verus! {

/// What the walk does with one entry.
#[derive(Clone, Copy, Debug, PartialEq, Eq, Structural)]
pub enum Visit {
    /// Leave it and everything under it alone.
    Skip,
    /// Record it as a candidate and do not descend into it.
    Collect,
    /// Go on into it.
    Descend,
}

/// The visit for an entry named `name` (`None` when not valid text): skip
/// protected names, collect directories that match a pattern, descend
/// into the rest.
pub open spec fn visit_of(name: Option<Seq<char>>, is_dir: bool, patterns: Seq<Pattern>) -> Visit {
    if name is Some && protected_name(name->0) {
        Visit::Skip
    } else if is_dir && any_matches(name, patterns) {
        Visit::Collect
    } else {
        Visit::Descend
    }
}

/// What the walk does with an entry named `name`.
pub fn scan_filter_entry(name: Option<&str>, is_dir: bool, patterns: &[Pattern]) -> (r: Visit)
    ensures
        r == visit_of(opt_text(name), is_dir, patterns@),
{
    if is_protected_entry_name(name) {
        return Visit::Skip;
    }
    if is_dir && matches_any_pattern(name, patterns) {
        Visit::Collect
    } else {
        Visit::Descend
    }
}


/// `s` is `paths[k]`, and no earlier path of `paths` is the same as it.
pub open spec fn first_rep(paths: Seq<String>, k: int, s: String) -> bool {
    &&& 0 <= k < paths.len()
    &&& paths[k] == s
    &&& forall|j: int| 0 <= j < k ==> !same_path(#[trigger] paths[j]@, s@)
}

/// `s` is the first of `paths` with its components.
pub open spec fn is_first_rep(paths: Seq<String>, s: String) -> bool {
    exists|k: int| first_rep(paths, k, s)
}

/// Some path of `out` is the same as `p`.
pub open spec fn represented(out: Seq<String>, p: Seq<char>) -> bool {
    exists|a: int| 0 <= a < out.len() && same_path(#[trigger] out[a]@, p)
}

/// `out` is strictly increasing by path.
pub open spec fn strictly_sorted(out: Seq<String>) -> bool {
    forall|a: int, b: int| 0 <= a < b < out.len() ==> path_lt(#[trigger] out[a]@, #[trigger] out[b]@)
}

/// `out` is `paths` sorted by path and without repeats: in strictly
/// increasing order, each the first of `paths` with its components, and
/// every path of `paths` represented.
pub open spec fn sorted_unique_of(out: Seq<String>, paths: Seq<String>) -> bool {
    &&& strictly_sorted(out)
    &&& forall|a: int| 0 <= a < out.len() ==> #[trigger] is_first_rep(paths, out[a])
    &&& forall|k: int| 0 <= k < paths.len() ==> #[trigger] represented(out, paths[k]@)
}

/// The candidate paths sorted by path, repeats removed (the first of
/// equal paths stays).
pub fn sort_dedup_paths(paths: Vec<String>) -> (r: Vec<String>)
    ensures
        sorted_unique_of(r@, paths@),
{
    proof {
        lemma_comps_lt_total();
    }
    let n = paths.len();
    let mut out: Vec<String> = Vec::new();
    let ghost mut idx: Seq<int> = seq![];
    let mut i: usize = 0;
    while i < n
        invariant
            i <= n,
            n == paths@.len(),
            strictly_sorted(out@),
            idx.len() == out@.len(),
            forall|a: int| #![trigger idx[a]] 0 <= a < out@.len() ==> idx[a] < i && first_rep(paths@, idx[a], out@[a]),
            forall|k: int| 0 <= k < i ==> #[trigger] represented(out@, paths@[k]@),
            forall|x: Seq<Seq<char>>| !#[trigger] crate::order::comps_lt(x, x),
            forall|x: Seq<Seq<char>>, y: Seq<Seq<char>>, z: Seq<Seq<char>>|
                #[trigger] crate::order::comps_lt(x, y) && #[trigger] crate::order::comps_lt(y, z)
                    ==> crate::order::comps_lt(x, z),
            forall|x: Seq<Seq<char>>, y: Seq<Seq<char>>|
                x != y ==> #[trigger] crate::order::comps_lt(x, y) || #[trigger] crate::order::comps_lt(y, x),
        decreases n - i,
    {
        let x = paths[i].clone();
        let len = out.len();
        let mut j: usize = 0;
        while j < len && path_lt_exec(out[j].as_str(), x.as_str())
            invariant
                len == out@.len(),
                j <= len,
                forall|a: int| 0 <= a < j ==> path_lt(#[trigger] out@[a]@, x@),
            decreases len - j,
        {
            j = j + 1;
        }
        let ghost old_out = out@;
        let ghost old_idx = idx;
        let dup = j < len && !path_lt_exec(x.as_str(), out[j].as_str());
        let ghost xs = x;
        if !dup {
            out.insert(j, x);
            proof {
                idx = old_idx.insert(j as int, i as int);
            }
        }
        proof {
            if dup {
                assert(out@ == old_out);
                assert(idx == old_idx);
                assert(same_path(out@[j as int]@, paths@[i as int]@));
                assert(represented(out@, paths@[i as int]@));
                assert forall|a: int| #![trigger idx[a]] 0 <= a < out@.len() implies idx[a] < i + 1 && first_rep(
                    paths@,
                    idx[a],
                    out@[a],
                ) by {
                    assert(old_idx[a] < i);
                }
            } else {
                assert(out@ == old_out.insert(j as int, xs));
                assert(idx == old_idx.insert(j as int, i as int));
                assert forall|k: int| 0 <= k < i implies !same_path(#[trigger] paths@[k]@, xs@) by {
                    assert(represented(old_out, paths@[k]@));
                    let a = choose|a: int| 0 <= a < old_out.len() && same_path(#[trigger] old_out[a]@, paths@[k]@);
                    if same_path(paths@[k]@, xs@) {
                        assert(same_path(old_out[a]@, xs@));
                        if a < j {
                            assert(path_lt(old_out[a]@, xs@));
                        } else {
                            assert(j < len);
                            if a > j {
                                assert(path_lt(old_out[j as int]@, old_out[a]@));
                            }
                            assert(!path_lt(old_out[j as int]@, xs@));
                        }
                    }
                }
                assert(first_rep(paths@, i as int, xs));
                assert forall|a: int, b: int| 0 <= a < b < out@.len() implies path_lt(
                    #[trigger] out@[a]@,
                    #[trigger] out@[b]@,
                ) by {
                    if a < j && b == j {
                    } else if a == j && b > j {
                        assert(out@[b] == old_out[b - 1]);
                        if b - 1 > j {
                            assert(path_lt(old_out[j as int]@, old_out[b - 1]@));
                        }
                    } else if a < j && b > j {
                        assert(out@[b] == old_out[b - 1]);
                        assert(out@[a] == old_out[a]);
                    } else if a > j {
                        assert(out@[b] == old_out[b - 1]);
                        assert(out@[a] == old_out[a - 1]);
                    } else {
                        assert(out@[b] == old_out[b]);
                        assert(out@[a] == old_out[a]);
                    }
                }
                assert forall|a: int| #![trigger idx[a]] 0 <= a < out@.len() implies idx[a] < i + 1 && first_rep(
                    paths@,
                    idx[a],
                    out@[a],
                ) by {
                    if a < j {
                        assert(out@[a] == old_out[a]);
                        assert(idx[a] == old_idx[a]);
                        assert(first_rep(paths@, old_idx[a], old_out[a]));
                    } else if a > j {
                        assert(out@[a] == old_out[a - 1]);
                        assert(idx[a] == old_idx[a - 1]);
                        assert(first_rep(paths@, old_idx[a - 1], old_out[a - 1]));
                    }
                }
                assert forall|k: int| 0 <= k < i + 1 implies #[trigger] represented(out@, paths@[k]@) by {
                    if k == i {
                        assert(same_path(out@[j as int]@, paths@[k]@));
                    } else {
                        assert(represented(old_out, paths@[k]@));
                        let a = choose|a: int|
                            0 <= a < old_out.len() && same_path(#[trigger] old_out[a]@, paths@[k]@);
                        if a < j {
                            assert(out@[a] == old_out[a]);
                            assert(same_path(out@[a]@, paths@[k]@));
                        } else {
                            assert(out@[a + 1] == old_out[a]);
                            assert(same_path(out@[a + 1]@, paths@[k]@));
                        }
                    }
                }
            }
        }
        i = i + 1;
    }
    assert forall|a: int| 0 <= a < out@.len() implies #[trigger] is_first_rep(paths@, out@[a]) by {
        assert(first_rep(paths@, idx[a], out@[a]));
    }
    out
}


/// The sorted candidate list holds no path twice: no two of its entries
/// have the same components.
pub proof fn lemma_sorted_unique_has_no_repeats(out: Seq<String>, paths: Seq<String>)
    requires
        sorted_unique_of(out, paths),
    ensures
        forall|a: int, b: int| 0 <= a < b < out.len() ==> !same_path(#[trigger] out[a]@, #[trigger] out[b]@),
{
    lemma_comps_lt_total();
    assert forall|a: int, b: int| 0 <= a < b < out.len() implies !same_path(
        #[trigger] out[a]@,
        #[trigger] out[b]@,
    ) by {
        assert(path_lt(out[a]@, out[b]@));
    }
}


/// No name that a quick pattern matches is a protected name: every
/// directory that a quick pattern matches is collected by the walk.
pub proof fn lemma_pattern_dirs_collected(i: int, name: Seq<char>)
    requires
        0 <= i < quick_patterns().len(),
        pattern_matches(quick_patterns()[i], name),
    ensures
        !protected_name(name),
        visit_of(Some(name), true, quick_patterns()) == Visit::Collect,
{
    reveal_strlit("target");
    reveal_strlit("node_modules");
    reveal_strlit("__pycache__");
    reveal_strlit(".venv");
    reveal_strlit("venv");
    reveal_strlit(".next");
    reveal_strlit(".nuxt");
    reveal_strlit("dist");
    reveal_strlit("build");
    reveal_strlit("out");
    reveal_strlit(".pytest_cache");
    reveal_strlit(".parcel-cache");
    reveal_strlit(".dart_tool");
    reveal_strlit("cmake-build-");
    reveal_strlit("zig-cache");
    reveal_strlit("zig-out");
    reveal_strlit(".git");
    reveal_strlit(".vscode");
    reveal_strlit(".idea");
    reveal_strlit(".cursor");
    reveal_strlit(".env");
    reveal_strlit(".env.local");
    reveal_strlit(".gitignore");
    reveal_strlit(".editorconfig");
    reveal_strlit(".dockerignore");
    reveal_strlit(".github");
    let p = quick_patterns()[i];
    if protected_name(name) {
        assert(name[0] == '.');
        if p.kind == PatternKind::Prefix {
            assert(name[0] == p.text@[0]);
        } else {
            assert(name == p.text@);
            assert(name.len() == p.text@.len());
            assert(name[1] == p.text@[1]);
            assert(name[2] == p.text@[2]);
        }
    }
    assert(any_matches(Some(name), quick_patterns()));
}


/// Every directory whose name begins with `cmake-build-` is collected by
/// the quick walk, whatever follows the prefix.
pub proof fn lemma_cmake_build_dirs_collected(rest: Seq<char>)
    ensures
        visit_of(Some("cmake-build-"@ + rest), true, quick_patterns()) == Visit::Collect,
{
    let p = quick_patterns()[13];
    let name = "cmake-build-"@ + rest;
    assert(name.subrange(0, p.text@.len() as int) =~= p.text@);
    assert(pattern_matches(p, name));
    lemma_pattern_dirs_collected(13, name);
}

} // verus!
