//! The default safety checker, and the decisions of the default scanner and
//! cleaner.
//!
//! Walking the tree and deleting are done by the caller; what is decided
//! about each entry, and what the outcome adds up to, is decided here.
use vstd::prelude::*;
use crate::domain::os::{
    HomeEnv, Platform, is_protected_entry_name, is_protected_root, os_names, os_protected_root,
    platform_components, platform_components_exec,
};
use crate::domain::patterns::{Pattern, any_pattern_matches, matches_any_pattern};
use crate::domain::size::{SizeError, WalkEntry, strict_file_total, strict_total_result, walk_entries};
use crate::domain::config::PurgeConfig;
use crate::domain::os::tiers::{lemma_names_relax_with_tier, lemma_protected_root_relaxes_with_tier};
use crate::domain::traits::{
    ArtifactType, CleanupCategory, CleanupStats, SafetyChecker, ScanResult, ScanTier, tier_rank,
};
use crate::sort::{sort_stable, stable_sort_of};
use crate::path::comps_view;
use crate::text::{chars_of, string_of};

verus! {

/// The default scanner: walks the tree (in parallel) and reports each
/// directory that matches a pattern of its configuration, with its size.
#[derive(Clone)]
pub struct ParallelScanner {
    pub config: PurgeConfig,
}

/// The result the scanner reports for a matching directory.
pub open spec fn candidate_result_of(path: String, size: u64) -> ScanResult {
    ScanResult {
        path,
        size_bytes: size,
        category: CleanupCategory::BuildArtifact,
        artifact_type: ArtifactType::Physical,
    }
}

impl ParallelScanner {
    /// A scanner with the given configuration.
    pub fn new(config: PurgeConfig) -> (r: Self)
        ensures
            r.config == config,
    {
        ParallelScanner { config }
    }

    /// The result for the matching directory `path` of `size` bytes: a
    /// physical build artifact.
    pub fn candidate_result(&self, path: String, size: u64) -> (r: ScanResult)
        ensures
            r == candidate_result_of(path, size),
    {
        ScanResult {
            path,
            size_bytes: size,
            category: CleanupCategory::BuildArtifact,
            artifact_type: ArtifactType::Physical,
        }
    }

    /// The results in the order the scanner reports them: largest first,
    /// equal sizes in the order found.
    pub fn order_results(&self, results: Vec<ScanResult>) -> (r: Vec<ScanResult>)
        ensures
            stable_sort_of(r@, results@, false),
    {
        sort_stable(results, false)
    }
}

/// The default safety checker: the protection rules of one platform, with
/// the home directories of the environment.
#[derive(Clone, Debug)]
pub struct OsSafetyChecker {
    pub platform: Platform,
    pub env: HomeEnv,
}

/// `path` is neither a protected root nor has a component that is a
/// protected entry name.
pub open spec fn checker_safe(path: Seq<char>, tier: ScanTier, platform: Platform, env: HomeEnv) -> bool {
    &&& !os_protected_root(path, tier, platform, env)
    &&& !exists|i: int|
        0 <= i < platform_components(platform, path).len() && os_names(
            #[trigger] platform_components(platform, path)[i],
            tier,
            platform,
        )
}

impl OsSafetyChecker {
    /// Whether `path` is safe to delete at `tier`.
    pub fn is_safe_at(&self, path: &str, tier: ScanTier) -> (r: bool)
        ensures
            r == checker_safe(path@, tier, self.platform, self.env),
    {
        if is_protected_root(path, tier, self.platform, &self.env) {
            return false;
        }
        let p = chars_of(path);
        let cs = platform_components_exec(self.platform, p.as_slice());
        let n = cs.len();
        for i in 0..n
            invariant
                n == cs@.len(),
                comps_view(cs@) == platform_components(self.platform, path@),
                forall|k: int|
                    0 <= k < i ==> !os_names(
                        #[trigger] platform_components(self.platform, path@)[k],
                        tier,
                        self.platform,
                    ),
        {
            let name = string_of(cs[i].as_slice());
            assert(name@ == platform_components(self.platform, path@)[i as int]);
            if is_protected_entry_name(name.as_str(), tier, self.platform) {
                return false;
            }
        }
        true
    }
}

impl SafetyChecker for OsSafetyChecker {
    fn is_safe(&self, path: &str, tier: ScanTier) -> (r: bool)
        ensures
            r == checker_safe(path@, tier, self.platform, self.env),
    {
        self.is_safe_at(path, tier)
    }
}

/// A path the default checker finds safe at a lower tier it finds safe at
/// every higher tier, and a root it protects at a higher tier it protects
/// at every lower tier, on every platform and whatever the environment.
pub proof fn lemma_checker_safety_grows_with_tier(
    path: Seq<char>,
    lower: ScanTier,
    higher: ScanTier,
    platform: Platform,
    env: HomeEnv,
)
    requires
        tier_rank(lower) <= tier_rank(higher),
    ensures
        checker_safe(path, lower, platform, env) ==> checker_safe(path, higher, platform, env),
        os_protected_root(path, higher, platform, env) ==> os_protected_root(path, lower, platform, env),
{
    if os_protected_root(path, higher, platform, env) {
        lemma_protected_root_relaxes_with_tier(path, lower, higher, platform, env);
    }
    let cs = platform_components(platform, path);
    if exists|i: int| 0 <= i < cs.len() && os_names(cs[i], higher, platform) {
        let i = choose|i: int| 0 <= i < cs.len() && os_names(cs[i], higher, platform);
        lemma_names_relax_with_tier(cs[i], lower, higher, platform);
        assert(0 <= i < cs.len() && os_names(cs[i], lower, platform));
    }
}

/// The result survives the safety filter: it is not a physical path, or
/// the checker finds its path safe.
pub open spec fn passes_safety(r: ScanResult, tier: ScanTier, platform: Platform, env: HomeEnv) -> bool {
    !(r.artifact_type is Physical) || checker_safe(r.path@, tier, platform, env)
}

/// The results that pass the safety filter, in order.  Docker resources
/// pass: they are removed through the Docker API.
pub fn keep_safe_results(results: Vec<ScanResult>, checker: &OsSafetyChecker, tier: ScanTier) -> (r:
    Vec<ScanResult>)
    ensures
        r@ == results@.filter(
            |x: ScanResult| passes_safety(x, tier, checker.platform, checker.env),
        ),
{
    let ghost rs = results@;
    let ghost pred = |x: ScanResult| passes_safety(x, tier, checker.platform, checker.env);
    let n = results.len();
    let mut rest = results;
    let mut out: Vec<ScanResult> = Vec::new();
    for i in 0..n
        invariant
            n == rs.len(),
            pred == (|x: ScanResult| passes_safety(x, tier, checker.platform, checker.env)),
            rest@ == rs.subrange(i as int, n as int),
            out@ == rs.take(i as int).filter(pred),
    {
        let x = rest.remove(0);
        assert(x == rs[i as int]);
        let keep = match x.artifact_type {
            ArtifactType::Physical => checker.is_safe_at(x.path.as_str(), tier),
            _ => true,
        };
        assert(keep == pred(x));
        assert(rs.take(i + 1).drop_last() =~= rs.take(i as int));
        assert(rs.take(i + 1).filter(pred) == if pred(x) {
            rs.take(i as int).filter(pred).push(x)
        } else {
            rs.take(i as int).filter(pred)
        }) by {
            reveal(Seq::filter);
        }
        if keep {
            out.push(x);
        }
    }
    assert(rs.take(n as int) =~= rs);
    out
}

/// A directory named `name`, whose parent holds `siblings`, is a scan
/// candidate: it is a directory and matches a pattern.
pub fn is_scan_candidate(is_dir: bool, name: &str, patterns: &[Pattern], siblings: &[String]) -> (r:
    bool)
    ensures
        r == (is_dir && any_pattern_matches(patterns@, name@, siblings@)),
{
    is_dir && matches_any_pattern(name, patterns, siblings)
}

/// The size of the directory `dir`: the bytes of its regular files, an
/// error if an item of the walk cannot be read.  The walk depends on the
/// disk; the result is [`strict_total_result`] of some list of walk items.
pub fn estimate_dir_size(dir: &str) -> (r: Result<u64, SizeError>)
    ensures
        exists|es: Seq<WalkEntry>| r == strict_total_result(es),
{
    let entries = walk_entries(dir);
    strict_file_total(&entries)
}

/// What cleaning one result takes.
#[derive(Clone, Debug)]
pub enum CleanAction {
    /// Only report it (dry run).
    Report,
    /// Move the path to the trash bin.
    MoveToTrash,
    /// Delete the path permanently.
    DeletePermanently,
    /// Remove the Docker image with this id.
    RemoveDockerImage(String),
    /// Remove the Docker container with this id.
    RemoveDockerContainer(String),
    /// Nothing to do (Docker volumes are not removed).
    Nothing,
}

/// The action for a result: report it in a dry run; otherwise trash or
/// delete a path, remove a Docker image or container, and leave volumes.
pub open spec fn action_for(a: ArtifactType, dry_run: bool, permanent: bool) -> CleanAction {
    if dry_run {
        CleanAction::Report
    } else {
        match a {
            ArtifactType::Physical => if permanent {
                CleanAction::DeletePermanently
            } else {
                CleanAction::MoveToTrash
            },
            ArtifactType::DockerImage(id) => CleanAction::RemoveDockerImage(id),
            ArtifactType::DockerContainer(id) => CleanAction::RemoveDockerContainer(id),
            ArtifactType::DockerVolume(_) => CleanAction::Nothing,
        }
    }
}

/// Outside a dry run each artifact is cleaned by its own means: a path is
/// moved to the trash, or deleted when `permanent`; a Docker image or
/// container is removed by the very id the result carries; only a volume
/// is left alone.  A dry run only reports.  Conversely, a removal of an
/// image or container only ever comes from a result of that kind with that
/// id.
pub proof fn lemma_each_artifact_cleaned_by_its_own_means(a: ArtifactType, dry_run: bool, permanent: bool)
    ensures
        dry_run ==> action_for(a, dry_run, permanent) is Report,
        !dry_run && a is Physical && permanent ==> action_for(a, dry_run, permanent) is DeletePermanently,
        !dry_run && a is Physical && !permanent ==> action_for(a, dry_run, permanent) is MoveToTrash,
        !dry_run ==> (a matches ArtifactType::DockerImage(id) ==> action_for(a, dry_run, permanent)
            == CleanAction::RemoveDockerImage(id)),
        !dry_run ==> (a matches ArtifactType::DockerContainer(id) ==> action_for(a, dry_run, permanent)
            == CleanAction::RemoveDockerContainer(id)),
        !dry_run ==> (action_for(a, dry_run, permanent) is Nothing <==> a is DockerVolume),
        action_for(a, dry_run, permanent) matches CleanAction::RemoveDockerImage(id) ==> a
            == ArtifactType::DockerImage(id),
        action_for(a, dry_run, permanent) matches CleanAction::RemoveDockerContainer(id) ==> a
            == ArtifactType::DockerContainer(id),
{
}

/// What cleaning `result` takes.
pub fn clean_action(result: &ScanResult, dry_run: bool, permanent: bool) -> (r: CleanAction)
    ensures
        r == action_for(result.artifact_type, dry_run, permanent),
{
    if dry_run {
        return CleanAction::Report;
    }
    match &result.artifact_type {
        ArtifactType::Physical => if permanent {
            CleanAction::DeletePermanently
        } else {
            CleanAction::MoveToTrash
        },
        ArtifactType::DockerImage(id) => CleanAction::RemoveDockerImage(id.clone()),
        ArtifactType::DockerContainer(id) => CleanAction::RemoveDockerContainer(id.clone()),
        ArtifactType::DockerVolume(_) => CleanAction::Nothing,
    }
}

/// The words that report a successful clean of an artifact.
pub open spec fn success_label_of(a: ArtifactType, permanent: bool) -> Seq<char> {
    match a {
        ArtifactType::Physical => if permanent {
            "Permanently deleted"@
        } else {
            "Moved to trash"@
        },
        ArtifactType::DockerImage(_) => "Removed Docker image"@,
        ArtifactType::DockerContainer(_) => "Removed Docker container"@,
        ArtifactType::DockerVolume(_) => "Cleaned"@,
    }
}

/// The words that report a successful clean of `artifact`.
pub fn success_label(artifact: &ArtifactType, permanent: bool) -> (r: &'static str)
    ensures
        r@ == success_label_of(*artifact, permanent),
{
    match artifact {
        ArtifactType::Physical => if permanent {
            "Permanently deleted"
        } else {
            "Moved to trash"
        },
        ArtifactType::DockerImage(_) => "Removed Docker image",
        ArtifactType::DockerContainer(_) => "Removed Docker container",
        ArtifactType::DockerVolume(_) => "Cleaned",
    }
}

/// How cleaning one result went.
#[derive(Clone, Debug)]
pub enum CleanOutcome {
    /// Cleaned (or, in a dry run, counted).
    Cleaned,
    /// Failed, with the message to record.
    Failed(String),
}

/// The bytes of the results among the first `n` that were cleaned.
pub open spec fn cleaned_bytes(results: Seq<ScanResult>, outcomes: Seq<CleanOutcome>, n: int) -> int
    decreases n,
{
    if n <= 0 {
        0
    } else {
        cleaned_bytes(results, outcomes, n - 1) + if outcomes[n - 1] is Cleaned {
            results[n - 1].size_bytes as int
        } else {
            0
        }
    }
}

/// How many of the first `n` results were cleaned.
pub open spec fn cleaned_count(outcomes: Seq<CleanOutcome>, n: int) -> int
    decreases n,
{
    if n <= 0 {
        0
    } else {
        cleaned_count(outcomes, n - 1) + if outcomes[n - 1] is Cleaned {
            1int
        } else {
            0
        }
    }
}

/// The messages of the failures among the first `n` outcomes, in order.
pub open spec fn failure_messages(outcomes: Seq<CleanOutcome>, n: int) -> Seq<String>
    decreases n,
{
    if n <= 0 {
        seq![]
    } else {
        match outcomes[n - 1] {
            CleanOutcome::Failed(m) => failure_messages(outcomes, n - 1).push(m),
            CleanOutcome::Cleaned => failure_messages(outcomes, n - 1),
        }
    }
}

proof fn lemma_cleaned_bytes_monotone(results: Seq<ScanResult>, outcomes: Seq<CleanOutcome>, a: int, b: int)
    requires
        0 <= a <= b,
    ensures
        cleaned_bytes(results, outcomes, a) <= cleaned_bytes(results, outcomes, b),
    decreases b - a,
{
    if a < b {
        lemma_cleaned_bytes_monotone(results, outcomes, a, b - 1);
    }
}

proof fn lemma_cleaned_count_bound(outcomes: Seq<CleanOutcome>, n: int)
    requires
        0 <= n,
    ensures
        0 <= cleaned_count(outcomes, n) <= n,
    decreases n,
{
    if n > 0 {
        lemma_cleaned_count_bound(outcomes, n - 1);
    }
}

/// The statistics of a cleanup: the bytes and the number of the cleaned
/// results, and the messages of the failed ones, in order.
pub fn summarize_cleanup(results: &[ScanResult], outcomes: Vec<CleanOutcome>) -> (r: CleanupStats)
    requires
        outcomes@.len() == results@.len(),
        cleaned_bytes(results@, outcomes@, results@.len() as int) <= u64::MAX,
    ensures
        r.total_bytes_freed == cleaned_bytes(results@, outcomes@, results@.len() as int),
        r.items_deleted == cleaned_count(outcomes@, results@.len() as int),
        r.errors@ == failure_messages(outcomes@, results@.len() as int),
{
    let ghost os = outcomes@;
    let n = results.len();
    let mut rest = outcomes;
    let mut stats = CleanupStats { total_bytes_freed: 0, items_deleted: 0, errors: Vec::new() };
    for i in 0..n
        invariant
            n == results@.len(),
            n == os.len(),
            cleaned_bytes(results@, os, n as int) <= u64::MAX,
            rest@ == os.subrange(i as int, n as int),
            stats.total_bytes_freed == cleaned_bytes(results@, os, i as int),
            stats.items_deleted == cleaned_count(os, i as int),
            stats.errors@ == failure_messages(os, i as int),
    {
        let o = rest.remove(0);
        assert(o == os[i as int]);
        proof {
            lemma_cleaned_bytes_monotone(results@, os, i + 1, n as int);
            lemma_cleaned_count_bound(os, i + 1);
        }
        match o {
            CleanOutcome::Cleaned => {
                stats.total_bytes_freed = stats.total_bytes_freed + results[i].size_bytes;
                stats.items_deleted = stats.items_deleted + 1;
            },
            CleanOutcome::Failed(m) => {
                stats.errors.push(m);
            },
        }
    }
    stats
}

/// The cleanup statistics, or `None` when the cleaned bytes exceed
/// `u64::MAX`.
pub fn try_summarize_cleanup(results: &[ScanResult], outcomes: Vec<CleanOutcome>) -> (r: Option<
    CleanupStats,
>)
    requires
        outcomes@.len() == results@.len(),
    ensures
        match r {
            Some(s) => cleaned_bytes(results@, outcomes@, results@.len() as int) <= u64::MAX
                && s.total_bytes_freed == cleaned_bytes(results@, outcomes@, results@.len() as int)
                && s.items_deleted == cleaned_count(outcomes@, results@.len() as int)
                && s.errors@ == failure_messages(outcomes@, results@.len() as int),
            None => cleaned_bytes(results@, outcomes@, results@.len() as int) > u64::MAX,
        },
{
    let n = results.len();
    let mut total: u64 = 0;
    for i in 0..n
        invariant
            n == results@.len(),
            n == outcomes@.len(),
            total == cleaned_bytes(results@, outcomes@, i as int),
    {
        let add = match &outcomes[i] {
            CleanOutcome::Cleaned => results[i].size_bytes,
            CleanOutcome::Failed(_) => 0,
        };
        match total.checked_add(add) {
            Some(t) => {
                total = t;
            },
            None => {
                proof {
                    lemma_cleaned_bytes_monotone(results@, outcomes@, i + 1, n as int);
                }
                return None;
            },
        }
    }
    Some(summarize_cleanup(results, outcomes))
}

} // verus!
