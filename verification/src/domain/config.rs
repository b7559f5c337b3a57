//! The patterns a scan looks for, chosen by tier.
use vstd::prelude::*;
use crate::domain::patterns::{
    Pattern, any_pattern_matches, pattern_matches, artifact_registry, artifact_registry_spec,
    matches_any_pattern as match_patterns,
};
use crate::domain::traits::{ScanTier, tier_rank};

verus! {

/// The patterns of the registry whose tier is at most `tier`.
pub open spec fn patterns_for(tier: ScanTier) -> Seq<Pattern> {
    artifact_registry_spec().filter(|p: Pattern| tier_rank(p.tier) <= tier_rank(tier))
}

/// Configuration of a scan: the patterns in force and the tier.
#[derive(Clone)]
pub struct PurgeConfig {
    pub patterns: Vec<Pattern>,
    pub tier: ScanTier,
}

impl PurgeConfig {
    /// Configuration for `tier`: every registry pattern whose tier is at
    /// most `tier`, in registry order.
    pub fn for_tier(tier: ScanTier) -> (r: Self)
        ensures
            r.patterns@ == patterns_for(tier),
            r.tier == tier,
    {
        let all = artifact_registry();
        let mut kept: Vec<Pattern> = Vec::new();
        let n = all.len();
        let ghost pred = |p: Pattern| tier_rank(p.tier) <= tier_rank(tier);
        for i in 0..n
            invariant
                n == all@.len(),
                all@ == artifact_registry_spec(),
                pred == (|p: Pattern| tier_rank(p.tier) <= tier_rank(tier)),
                kept@ == all@.take(i as int).filter(pred),
        {
            let p = all[i];
            let ghost prev = all@.take(i as int);
            assert(all@.take(i + 1).drop_last() =~= prev);
            assert(all@.take(i + 1).last() == p);
            let keep = p.tier.at_most(&tier);
            assert(keep == pred(p));
            if keep {
                kept.push(p);
            }
            assert(all@.take(i + 1).filter(pred) == if pred(p) {
                prev.filter(pred).push(p)
            } else {
                prev.filter(pred)
            }) by {
                reveal(Seq::filter);
            }
        }
        assert(all@.take(n as int) =~= all@);
        PurgeConfig { patterns: kept, tier }
    }

    /// Configuration with the default tier, `Project`.
    pub fn hardcoded() -> (r: Self)
        ensures
            r.patterns@ == patterns_for(ScanTier::Project),
            r.tier == ScanTier::Project,
    {
        Self::for_tier(ScanTier::Project)
    }

    /// The patterns of this configuration.
    pub fn patterns(&self) -> (r: &[Pattern])
        ensures
            r@ == self.patterns@,
    {
        self.patterns.as_slice()
    }
}

/// Whether a directory named `name`, whose parent holds `siblings`, matches
/// some pattern of `patterns`.
pub fn matches_any_pattern(name: &str, patterns: &[Pattern], siblings: &[String]) -> (r: bool)
    ensures
        r == any_pattern_matches(patterns@, name@, siblings@),
{
    match_patterns(name, patterns, siblings)
}

/// A higher tier collects every pattern a lower tier collects.
pub proof fn lemma_patterns_grow_with_tier(t1: ScanTier, t2: ScanTier, p: Pattern)
    requires
        tier_rank(t1) <= tier_rank(t2),
        patterns_for(t1).contains(p),
    ensures
        patterns_for(t2).contains(p),
{
    broadcast use vstd::seq_lib::group_filter_ensures;
    let s = artifact_registry_spec();
    let f1 = |q: Pattern| tier_rank(q.tier) <= tier_rank(t1);
    let f2 = |q: Pattern| tier_rank(q.tier) <= tier_rank(t2);
    let k = choose|k: int| 0 <= k < s.filter(f1).len() && s.filter(f1)[k] == p;
    assert(f1(s.filter(f1)[k]));
    assert(s.filter(f1).contains(p));
    s.lemma_filter_contains_rev(f1, p);
    assert(s.contains(p));
    let j = choose|j: int| 0 <= j < s.len() && s[j] == p;
    assert(f2(s[j]));
}


/// A prefix pattern matches every directory name that begins with its text,
/// whatever else the name holds and whatever lies beside it; so a name it
/// matches stays matched when more is appended.
pub proof fn lemma_prefix_patterns_match_longer_names(
    p: Pattern,
    name: Seq<char>,
    rest: Seq<char>,
    siblings: Seq<String>,
)
    requires
        p.kind is Prefix,
    ensures
        pattern_matches(p, p.name@ + rest, siblings),
        pattern_matches(p, name, siblings) ==> pattern_matches(p, name + rest, siblings),
{
    assert((p.name@ + rest).subrange(0, p.name@.len() as int) =~= p.name@);
    if pattern_matches(p, name, siblings) {
        assert((name + rest).subrange(0, p.name@.len() as int) =~= name.subrange(
            0,
            p.name@.len() as int,
        ));
    }
}

/// At the default tier every directory whose name begins with
/// `cmake-build-` (CLion/CMake build directories such as
/// `cmake-build-debug`) or `docker-build-` is a scan candidate, whatever
/// follows the prefix and whatever lies beside it.
pub proof fn lemma_build_prefixes_found_at_default_tier(rest: Seq<char>, siblings: Seq<String>)
    ensures
        any_pattern_matches(patterns_for(ScanTier::Project), "cmake-build-"@ + rest, siblings),
        any_pattern_matches(patterns_for(ScanTier::Project), "docker-build-"@ + rest, siblings),
{
    broadcast use vstd::seq_lib::group_filter_ensures;
    let s = artifact_registry_spec();
    let f = |q: Pattern| tier_rank(q.tier) <= tier_rank(ScanTier::Project);
    assert(patterns_for(ScanTier::Project) == s.filter(f));
    let ps = s.filter(f);
    let cmake = s[31];
    let docker = s[30];
    assert(f(cmake));
    assert(f(docker));
    s.lemma_filter_contains(f, 31);
    s.lemma_filter_contains(f, 30);
    let i = choose|i: int| 0 <= i < ps.len() && ps[i] == cmake;
    let j = choose|j: int| 0 <= j < ps.len() && ps[j] == docker;
    lemma_prefix_patterns_match_longer_names(cmake, cmake.name@, rest, siblings);
    lemma_prefix_patterns_match_longer_names(docker, docker.name@, rest, siblings);
    assert(pattern_matches(ps[i], "cmake-build-"@ + rest, siblings));
    assert(pattern_matches(ps[j], "docker-build-"@ + rest, siblings));
}

} // verus!
