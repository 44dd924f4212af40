//! The decisions of a workspace scan: which directories are not descended
//! into, which directories are project candidates, which artifacts a
//! candidate has, and which projects the stale filter keeps.
use vstd::prelude::*;

use crate::detectors::matching_detectors;
use crate::detectors::Detector;
use crate::detectors::DetectorRegistry;
use crate::paths::join;
use crate::paths::spec_join;
use crate::sweep_core::laws::candidate_projects;
use crate::sweep_core::laws::kept_from;
use crate::sweep_core::laws::lemma_kept_from;
use crate::sweep_core::laws::lemma_present_found;
use crate::sweep_core::laws::observed;
use crate::sweep_core::laws::scanned_view;
use crate::sweep_core::traits::ArtifactTarget;
use crate::sweep_core::traits::DirListing;
use crate::sweep_core::traits::DiscoveredArtifact;
use crate::sweep_core::traits::DiscoveredProject;
use crate::sweep_core::traits::GitInfo;
use crate::sweep_core::traits::ProjectDetector;
use crate::sweep_core::traits::ProjectType;
use crate::sweep_core::traits::targets_view;
use crate::text::owned;
use crate::text::str_eq;

verus! {

/// Directory names whose contents a scan does not read.
pub const PRUNE_DIRS: [&'static str; 15] = [
    ".git",
    "node_modules",
    "target",
    "build",
    "bin",
    "obj",
    ".venv",
    "venv",
    "__pycache__",
    ".cache",
    ".idea",
    ".vscode",
    ".sweep-trash",
    ".gradle",
    "out",
];

/// How many directories pass between two progress reports.
pub const PROGRESS_INTERVAL: usize = 50;

/// A scan does not descend into a directory called `name`.
pub open spec fn is_pruned(name: Seq<char>) -> bool {
    exists|i: int| 0 <= i < 15 && #[trigger] PRUNE_DIRS@[i]@ == name
}

/// What a scan measured about itself.
#[derive(Debug, Clone, Copy)]
pub struct ScanStats {
    pub dirs_inspected: usize,
    pub duration: std::time::Duration,
}

/// A directory that a detector recognised, with that detector's targets.
#[derive(Debug)]
pub struct ScanCandidate {
    pub root: String,
    pub project_type: ProjectType,
    pub targets: Vec<ArtifactTarget>,
}

/// The artifacts that exist below `root`: target `i` is present with size
/// `s` when `present[i]` is `Some(s)`.
pub open spec fn present_artifacts(
    root: Seq<char>,
    targets: Seq<ArtifactTarget>,
    present: Seq<Option<u64>>,
) -> Seq<(ArtifactTarget, Seq<char>, u64)>
    decreases targets.len(),
{
    if targets.len() == 0 || present.len() == 0 {
        Seq::empty()
    } else {
        let rest = present_artifacts(root, targets.drop_last(), present.drop_last());
        match present.last() {
            Some(size) => rest.push((targets.last(), spec_join(root, targets.last().rel_path@), size)),
            None => rest,
        }
    }
}

/// The view of a discovered artifact: its target, path and size.
pub open spec fn artifact_view(a: DiscoveredArtifact) -> (ArtifactTarget, Seq<char>, u64) {
    (a.target, a.abs_path@, a.size_bytes)
}

/// A project with git information `git_info` passes the stale filter
/// `min_days`: with a filter, only projects whose last commit is at least
/// `min_days` old pass.
pub open spec fn passes_stale_filter(min_days: Option<u64>, git_info: Option<GitInfo>) -> bool {
    match min_days {
        None => true,
        Some(min) => match git_info {
            Some(info) => match info.last_commit_days {
                Some(days) => days >= min,
                None => false,
            },
            None => false,
        },
    }
}

/// A filter of zero days keeps exactly the projects whose repository has a
/// commit, and a filter lets through everything that a stricter one does.
pub proof fn lemma_stale_filter_monotone(loose: u64, strict: u64, git_info: Option<GitInfo>)
    requires
        loose <= strict,
    ensures
        passes_stale_filter(Some(0), git_info) == (git_info matches Some(i) && i.last_commit_days is Some),
        passes_stale_filter(Some(strict), git_info) ==> passes_stale_filter(Some(loose), git_info),
        passes_stale_filter(None, git_info),
{
}

/// The stale filter in words: without a filter every project passes; with
/// a filter of `min` days only a project in a repository whose last commit
/// is at least `min` days old passes, and a project outside git or in a
/// repository without a commit never does.
pub proof fn lemma_stale_filter_exact(min_days: Option<u64>, git_info: Option<GitInfo>)
    ensures
        min_days is None ==> passes_stale_filter(min_days, git_info),
        min_days matches Some(m) ==> (passes_stale_filter(min_days, git_info) <==> (git_info matches Some(
            i,
        ) && (i.last_commit_days matches Some(d) && d >= m))),
{
}

impl ScanCandidate {
    /// Where each target of the candidate lies.
    pub fn artifact_paths(&self) -> (r: Vec<String>)
        ensures
            r@.len() == self.targets@.len(),
            forall|i: int|
                0 <= i < r@.len() ==> #[trigger] r@[i]@ == spec_join(
                    self.root@,
                    self.targets@[i].rel_path@,
                ),
    {
        let mut out: Vec<String> = Vec::new();
        let mut i: usize = 0;
        while i < self.targets.len()
            invariant
                i <= self.targets@.len(),
                out@.len() == i,
                forall|k: int|
                    0 <= k < i ==> #[trigger] out@[k]@ == spec_join(
                        self.root@,
                        self.targets@[k].rel_path@,
                    ),
            decreases self.targets.len() - i,
        {
            out.push(join(self.root.as_str(), self.targets[i].rel_path.as_str()));
            i = i + 1;
        }
        out
    }

    /// Whether any target exists, where `exists[i]` tells whether target `i` does.
    pub fn has_artifact_on_disk(exists: &Vec<bool>) -> (r: bool)
        ensures
            r == exists@.contains(true),
    {
        let mut i: usize = 0;
        while i < exists.len()
            invariant
                i <= exists@.len(),
                forall|k: int| 0 <= k < i ==> !exists@[k],
            decreases exists.len() - i,
        {
            if exists[i] {
                assert(exists@[i as int] == true);
                return true;
            }
            i = i + 1;
        }
        false
    }

    /// The artifacts of the candidate that exist, with their sizes: target
    /// `i` is present with size `s` when `present[i]` is `Some(s)`.
    pub fn discovered_artifacts(&self, present: &Vec<Option<u64>>) -> (r: Vec<DiscoveredArtifact>)
        requires
            present@.len() == self.targets@.len(),
        ensures
            r@.map_values(|a: DiscoveredArtifact| artifact_view(a)) == present_artifacts(
                self.root@,
                self.targets@,
                present@,
            ),
    {
        let mut out: Vec<DiscoveredArtifact> = Vec::new();
        let mut i: usize = 0;
        while i < self.targets.len()
            invariant
                present@.len() == self.targets@.len(),
                i <= self.targets@.len(),
                out@.map_values(|a: DiscoveredArtifact| artifact_view(a)) == present_artifacts(
                    self.root@,
                    self.targets@.take(i as int),
                    present@.take(i as int),
                ),
            decreases self.targets.len() - i,
        {
            proof {
                assert(self.targets@.take(i + 1).drop_last() == self.targets@.take(i as int));
                assert(present@.take(i + 1).drop_last() == present@.take(i as int));
                assert(self.targets@.take(i + 1).last() == self.targets@[i as int]);
                assert(present@.take(i + 1).last() == present@[i as int]);
            }
            match present[i] {
                Some(size) => {
                    let t = self.targets[i].clone();
                    let abs = join(self.root.as_str(), t.rel_path.as_str());
                    let ghost before = out@;
                    out.push(DiscoveredArtifact { target: t, abs_path: abs, size_bytes: size });
                    assert(out@.map_values(|a: DiscoveredArtifact| artifact_view(a)) == before.map_values(
                        |a: DiscoveredArtifact| artifact_view(a),
                    ).push(artifact_view(out@.last())));
                },
                None => {},
            }
            i = i + 1;
        }
        assert(self.targets@.take(i as int) == self.targets@);
        assert(present@.take(i as int) == present@);
        out
    }
}

/// Whether a scan leaves the contents of a directory called `name` unread.
pub fn is_pruned_dir(name: &str) -> (r: bool)
    ensures
        r == is_pruned(name@),
{
    let mut i: usize = 0;
    while i < 15
        invariant
            i <= 15,
            forall|k: int| 0 <= k < i ==> #[trigger] PRUNE_DIRS@[k]@ != name@,
        decreases 15 - i,
    {
        if str_eq(PRUNE_DIRS[i], name) {
            return true;
        }
        i = i + 1;
    }
    false
}

/// Whether the progress callback runs after the `dirs_inspected`-th directory.
pub fn should_report_progress(dirs_inspected: usize) -> (r: bool)
    ensures
        r == (dirs_inspected % 50 == 0),
{
    dirs_inspected % PROGRESS_INTERVAL == 0
}

/// Walks a workspace with a set of detectors and an optional stale filter.
#[derive(Debug)]
pub struct ScanEngine<D = Detector> {
    registry: DetectorRegistry<D>,
    stale_days_filter: Option<u64>,
}

impl<D: ProjectDetector> ScanEngine<D> {
    /// The detectors that the engine runs.
    pub closed spec fn detectors(&self) -> Seq<D> {
        self.registry@
    }

    /// The minimum commit age that a project must have to be reported.
    pub closed spec fn stale_filter(&self) -> Option<u64> {
        self.stale_days_filter
    }

    /// An engine that runs the detectors of `registry` and filters nothing.
    pub fn new(registry: DetectorRegistry<D>) -> (r: Self)
        ensures
            r.detectors() == registry@,
            r.stale_filter() is None,
    {
        ScanEngine { registry, stale_days_filter: None }
    }

    /// The engine with the stale filter set to `stale_days`.
    pub fn with_stale_filter(self, stale_days: Option<u64>) -> (r: Self)
        ensures
            r.detectors() == self.detectors(),
            r.stale_filter() == stale_days,
    {
        ScanEngine { registry: self.registry, stale_days_filter: stale_days }
    }

    /// The minimum commit age that a project must have to be reported.
    pub fn stale_days_filter(&self) -> (r: Option<u64>)
        ensures
            r == self.stale_filter(),
    {
        self.stale_days_filter
    }

    /// The candidates that the directory at `dir_path` yields: one for each
    /// detector that recognises it, in the order of the registry.
    pub fn candidates_in(&self, dir_path: &str, dir: &DirListing) -> (r: Vec<ScanCandidate>)
        ensures
            r@.len() == matching_detectors(self.detectors(), dir.entries@).len(),
            forall|k: int|
                0 <= k < r@.len() ==> {
                    let d = matching_detectors(self.detectors(), dir.entries@)[k];
                    &&& (#[trigger] r@[k]).root@ == dir_path@
                    &&& r@[k].project_type == d.spec_name()
                    &&& targets_view(r@[k].targets@) == d.spec_targets()
                },
    {
        let matched = self.registry.detect_all(dir);
        let mut out: Vec<ScanCandidate> = Vec::new();
        let mut i: usize = 0;
        while i < matched.len()
            invariant
                matched@.len() == matching_detectors(self.detectors(), dir.entries@).len(),
                forall|k: int|
                    0 <= k < matched@.len() ==> *matched@[k] == matching_detectors(
                        self.detectors(),
                        dir.entries@,
                    )[k],
                i <= matched@.len(),
                out@.len() == i,
                forall|k: int|
                    0 <= k < i ==> {
                        let d = matching_detectors(self.detectors(), dir.entries@)[k];
                        &&& (#[trigger] out@[k]).root@ == dir_path@
                        &&& out@[k].project_type == d.spec_name()
                        &&& targets_view(out@[k].targets@) == d.spec_targets()
                    },
            decreases matched.len() - i,
        {
            let d = matched[i];
            out.push(
                ScanCandidate {
                    root: owned(dir_path),
                    project_type: d.name(),
                    targets: d.get_artifacts(dir_path),
                },
            );
            i = i + 1;
        }
        out
    }

    /// Appends to `result` the projects that the directory at `dir_path`
    /// yields: for each detector that recognises it, in the order of the
    /// registry, the project with the artifacts that exist, where `present[k]`
    /// holds the size of what exists at each target of the `k`-th such
    /// detector and `git_info` is the directory's git information; a project
    /// is kept when it has an artifact and the stale filter lets it pass.
    /// Called on each walked directory in turn, starting from an empty list,
    /// this builds `scan_projects`.
    pub fn collect_directory(
        &self,
        result: &mut Vec<DiscoveredProject>,
        dir_path: &str,
        dir: &DirListing,
        present: &Vec<Vec<Option<u64>>>,
        git_info: Option<GitInfo>,
    )
        requires
            present@.len() == matching_detectors(self.detectors(), dir.entries@).len(),
            forall|k: int|
                0 <= k < present@.len() ==> (#[trigger] present@[k])@.len() == matching_detectors(
                    self.detectors(),
                    dir.entries@,
                )[k].spec_targets().len(),
        ensures
            final(result)@.map_values(|p: DiscoveredProject| scanned_view(p)) == old(result)@.map_values(
                |p: DiscoveredProject| scanned_view(p),
            ) + kept_from(
                matching_detectors(self.detectors(), dir.entries@),
                dir_path@,
                self.stale_filter(),
                present@.map_values(|v: Vec<Option<u64>>| v@),
                git_info,
            ),
            forall|sizes: spec_fn(Seq<char>) -> Option<u64>, git: spec_fn(Seq<char>) -> Option<GitInfo>|
                observed(
                    matching_detectors(self.detectors(), dir.entries@),
                    dir_path@,
                    present@.map_values(|v: Vec<Option<u64>>| v@),
                    git_info,
                    sizes,
                    git,
                ) ==> final(result)@.map_values(|p: DiscoveredProject| scanned_view(p)) == old(
                    result,
                )@.map_values(|p: DiscoveredProject| scanned_view(p)) + #[trigger] candidate_projects(
                    matching_detectors(self.detectors(), dir.entries@),
                    dir_path@,
                    self.stale_filter(),
                    sizes,
                    git,
                ),
    {
        let ghost ms = matching_detectors(self.detectors(), dir.entries@);
        let ghost pv = present@.map_values(|v: Vec<Option<u64>>| v@);
        let ghost before = result@.map_values(|p: DiscoveredProject| scanned_view(p));
        let ghost min = self.stale_filter();
        let mut cands = self.candidates_in(dir_path, dir);
        let ghost cs = cands@;
        let n = cands.len();
        let mut k: usize = 0;
        while k < n
            invariant
                n == cs.len(),
                cs.len() == ms.len(),
                present@.len() == ms.len(),
                pv == present@.map_values(|v: Vec<Option<u64>>| v@),
                min == self.stale_filter(),
                forall|j: int|
                    0 <= j < cs.len() ==> {
                        &&& (#[trigger] cs[j]).root@ == dir_path@
                        &&& cs[j].project_type == ms[j].spec_name()
                        &&& targets_view(cs[j].targets@) == ms[j].spec_targets()
                    },
                forall|j: int| 0 <= j < present@.len() ==> (#[trigger] present@[j])@.len() == ms[j].spec_targets().len(),
                k <= n,
                cands@ == cs.skip(k as int),
                result@.map_values(|p: DiscoveredProject| scanned_view(p)) == before + kept_from(
                    ms.take(k as int),
                    dir_path@,
                    min,
                    pv.take(k as int),
                    git_info,
                ),
            decreases n - k,
        {
            proof {
                assert(cs.skip(k as int)[0] == cs[k as int]);
                assert(cs.skip(k as int).remove(0) == cs.skip(k + 1));
            }
            let c = cands.remove(0);
            assert(c == cs[k as int]);
            assert(c.targets@.len() == targets_view(c.targets@).len());
            let arts = c.discovered_artifacts(&present[k]);
            proof {
                lemma_present_found(c.root@, c.targets@, present@[k as int]@);
                assert(arts@.map_values(|a: DiscoveredArtifact| (a.target.name@, a.abs_path@, a.size_bytes))
                    =~= present_artifacts(c.root@, c.targets@, present@[k as int]@).map_values(
                    |x: (ArtifactTarget, Seq<char>, u64)| (x.0.name@, x.1, x.2),
                ));
                assert(ms.take(k + 1).drop_last() == ms.take(k as int));
                assert(pv.take(k + 1).drop_last() == pv.take(k as int));
                assert(ms.take(k + 1).last() == ms[k as int]);
                assert(pv.take(k + 1).last() == pv[k as int]);
            }
            let ghost old_result = result@;
            match self.keep_project(c, arts, git_info) {
                Some(p) => {
                    result.push(p);
                    assert(result@.map_values(|p: DiscoveredProject| scanned_view(p)) == old_result.map_values(
                        |p: DiscoveredProject| scanned_view(p),
                    ).push(scanned_view(p)));
                },
                None => {},
            }
            k = k + 1;
        }
        assert(ms.take(n as int) == ms);
        assert(pv.take(n as int) == pv);
        proof {
            assert forall|sizes: spec_fn(Seq<char>) -> Option<u64>, git: spec_fn(Seq<char>) -> Option<GitInfo>|
                observed(ms, dir_path@, pv, git_info, sizes, git) implies #[trigger] candidate_projects(
                ms,
                dir_path@,
                min,
                sizes,
                git,
            ) == kept_from(ms, dir_path@, min, pv, git_info) by {
                lemma_kept_from(ms, dir_path@, min, pv, git_info, sizes, git);
            }
        }
    }

    /// The project that a candidate with the artifacts `artifacts` becomes:
    /// none when no artifact exists or the stale filter rejects its git
    /// information.
    pub fn keep_project(
        &self,
        candidate: ScanCandidate,
        artifacts: Vec<DiscoveredArtifact>,
        git_info: Option<GitInfo>,
    ) -> (r: Option<DiscoveredProject>)
        ensures
            r is Some <==> (artifacts@.len() > 0 && passes_stale_filter(self.stale_filter(), git_info)),
            self.stale_filter() matches Some(m) ==> (r is Some ==> (git_info matches Some(i) && (
            i.last_commit_days matches Some(d) && d >= m))),
            r matches Some(p) ==> {
                &&& p.root == candidate.root
                &&& p.project_type == candidate.project_type
                &&& p.artifacts@ == artifacts@
                &&& p.git_info == git_info
            },
    {
        if artifacts.len() == 0 {
            return None;
        }
        if let Some(min_days) = self.stale_days_filter {
            let is_stale = match git_info {
                Some(info) => match info.last_commit_days {
                    Some(days) => days >= min_days,
                    None => false,
                },
                None => false,
            };
            if !is_stale {
                return None;
            }
        }
        Some(
            DiscoveredProject {
                root: candidate.root,
                project_type: candidate.project_type,
                artifacts,
                git_info,
            },
        )
    }
}

} // verus!
