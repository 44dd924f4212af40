//! What a whole scan yields, and how the stale filter and the type filter
//! narrow it.
use vstd::prelude::*;

use crate::detectors::all_detectors;
use crate::detectors::detectors_for;
use crate::detectors::matching_detectors;
use crate::detectors::Detector;
use crate::paths::spec_join;
use crate::sweep_core::engine::passes_stale_filter;
use crate::sweep_core::engine::present_artifacts;
use crate::sweep_core::traits::ArtifactTarget;
use crate::sweep_core::traits::DiscoveredArtifact;
use crate::sweep_core::traits::DiscoveredProject;
use crate::sweep_core::traits::targets_view;
use crate::sweep_core::traits::DirEntryInfo;
use crate::sweep_core::traits::GitInfo;
use crate::sweep_core::traits::ProjectDetector;
use crate::sweep_core::traits::ProjectType;

verus! {

/// A project as a scan reports it: root, ecosystem, the artifacts found
/// (name, path, size) and the git information of the root.
pub type ScannedProject = (Seq<char>, ProjectType, Seq<(Seq<char>, Seq<char>, u64)>, Option<GitInfo>);

/// The targets that exist below `root`, in order, where `sizes` gives the
/// size of whatever exists at a path.
pub open spec fn found_artifacts(
    root: Seq<char>,
    targets: Seq<(Seq<char>, Seq<char>, bool)>,
    sizes: spec_fn(Seq<char>) -> Option<u64>,
) -> Seq<(Seq<char>, Seq<char>, u64)>
    decreases targets.len(),
{
    if targets.len() == 0 {
        Seq::empty()
    } else {
        let rest = found_artifacts(root, targets.drop_last(), sizes);
        let path = spec_join(root, targets.last().1);
        match sizes(path) {
            Some(size) => rest.push((targets.last().0, path, size)),
            None => rest,
        }
    }
}

/// The projects that the detectors `ms`, which recognised the directory
/// `root`, yield in order: one for each detector with an artifact on disk,
/// where the stale filter `min_days` lets the root's git information pass.
pub open spec fn candidate_projects<D: ProjectDetector>(
    ms: Seq<D>,
    root: Seq<char>,
    min_days: Option<u64>,
    sizes: spec_fn(Seq<char>) -> Option<u64>,
    git: spec_fn(Seq<char>) -> Option<GitInfo>,
) -> Seq<ScannedProject>
    decreases ms.len(),
{
    if ms.len() == 0 {
        Seq::empty()
    } else {
        let rest = candidate_projects(ms.drop_last(), root, min_days, sizes, git);
        let d = ms.last();
        let arts = found_artifacts(root, d.spec_targets(), sizes);
        if arts.len() > 0 && passes_stale_filter(min_days, git(root)) {
            rest.push((root, d.spec_name(), arts, git(root)))
        } else {
            rest
        }
    }
}

/// The projects that a scan with the detectors `ds` and the stale filter
/// `min_days` reports over the walked directories `dirs` (path and entries,
/// in walk order): what `candidates_in`, `discovered_artifacts` and
/// `keep_project` give for each directory, one directory after another.
pub open spec fn scan_projects<D: ProjectDetector>(
    ds: Seq<D>,
    min_days: Option<u64>,
    dirs: Seq<(Seq<char>, Seq<DirEntryInfo>)>,
    sizes: spec_fn(Seq<char>) -> Option<u64>,
    git: spec_fn(Seq<char>) -> Option<GitInfo>,
) -> Seq<ScannedProject>
    decreases dirs.len(),
{
    if dirs.len() == 0 {
        Seq::empty()
    } else {
        scan_projects(ds, min_days, dirs.drop_last(), sizes, git) + candidate_projects(
            matching_detectors(ds, dirs.last().1),
            dirs.last().0,
            min_days,
            sizes,
            git,
        )
    }
}

/// The projects of `ps` whose last commit is at least `min` days old, in order.
pub open spec fn keep_old_enough(ps: Seq<ScannedProject>, min: u64) -> Seq<ScannedProject>
    decreases ps.len(),
{
    if ps.len() == 0 {
        Seq::empty()
    } else {
        let rest = keep_old_enough(ps.drop_last(), min);
        if passes_stale_filter(Some(min), ps.last().3) {
            rest.push(ps.last())
        } else {
            rest
        }
    }
}

/// The projects of `ps` of ecosystem `t`, in order.
pub open spec fn keep_type(ps: Seq<ScannedProject>, t: ProjectType) -> Seq<ScannedProject>
    decreases ps.len(),
{
    if ps.len() == 0 {
        Seq::empty()
    } else {
        let rest = keep_type(ps.drop_last(), t);
        if ps.last().1 == t {
            rest.push(ps.last())
        } else {
            rest
        }
    }
}

/// The detectors of `ds` that recognise ecosystem `t`, in order.
pub open spec fn detectors_named<D: ProjectDetector>(ds: Seq<D>, t: ProjectType) -> Seq<D>
    decreases ds.len(),
{
    if ds.len() == 0 {
        Seq::empty()
    } else {
        let rest = detectors_named(ds.drop_last(), t);
        if ds.last().spec_name() == t {
            rest.push(ds.last())
        } else {
            rest
        }
    }
}

/// A project as `scan_projects` describes it.
pub open spec fn scanned_view(p: DiscoveredProject) -> ScannedProject {
    (
        p.root@,
        p.project_type,
        p.artifacts@.map_values(|a: DiscoveredArtifact| (a.target.name@, a.abs_path@, a.size_bytes)),
        p.git_info,
    )
}

/// The artifacts found below `root` for `targets`, where `present[i]` is
/// the size of what exists at the path of target `i` (none when nothing does).
pub open spec fn found_from(
    root: Seq<char>,
    targets: Seq<(Seq<char>, Seq<char>, bool)>,
    present: Seq<Option<u64>>,
) -> Seq<(Seq<char>, Seq<char>, u64)>
    decreases targets.len(),
{
    if targets.len() == 0 || present.len() == 0 {
        Seq::empty()
    } else {
        let rest = found_from(root, targets.drop_last(), present.drop_last());
        match present.last() {
            Some(size) => rest.push((targets.last().0, spec_join(root, targets.last().1), size)),
            None => rest,
        }
    }
}

/// The projects that the detectors `ms`, which recognised the directory
/// `root`, yield in order, where `present[k]` holds what exists of the
/// targets of `ms[k]` and `git_info` is the root's git information.
pub open spec fn kept_from<D: ProjectDetector>(
    ms: Seq<D>,
    root: Seq<char>,
    min_days: Option<u64>,
    present: Seq<Seq<Option<u64>>>,
    git_info: Option<GitInfo>,
) -> Seq<ScannedProject>
    decreases ms.len(),
{
    if ms.len() == 0 || present.len() == 0 {
        Seq::empty()
    } else {
        let rest = kept_from(ms.drop_last(), root, min_days, present.drop_last(), git_info);
        let arts = found_from(root, ms.last().spec_targets(), present.last());
        if arts.len() > 0 && passes_stale_filter(min_days, git_info) {
            rest.push((root, ms.last().spec_name(), arts, git_info))
        } else {
            rest
        }
    }
}

/// `present` holds, for each target below `root`, what `sizes` says exists there.
pub open spec fn sizes_agree(
    root: Seq<char>,
    targets: Seq<(Seq<char>, Seq<char>, bool)>,
    present: Seq<Option<u64>>,
    sizes: spec_fn(Seq<char>) -> Option<u64>,
) -> bool {
    &&& present.len() == targets.len()
    &&& forall|i: int| 0 <= i < targets.len() ==> present[i] == sizes(spec_join(root, #[trigger] targets[i].1))
}

/// What was observed of the directory `root` for the detectors `ms`
/// (`present` and `git_info`) is what `sizes` and `git` say of the disk.
pub open spec fn observed<D: ProjectDetector>(
    ms: Seq<D>,
    root: Seq<char>,
    present: Seq<Seq<Option<u64>>>,
    git_info: Option<GitInfo>,
    sizes: spec_fn(Seq<char>) -> Option<u64>,
    git: spec_fn(Seq<char>) -> Option<GitInfo>,
) -> bool {
    &&& git(root) == git_info
    &&& present.len() == ms.len()
    &&& forall|k: int| 0 <= k < ms.len() ==> sizes_agree(root, ms[k].spec_targets(), #[trigger] present[k], sizes)
}

proof fn lemma_found_from(
    root: Seq<char>,
    targets: Seq<(Seq<char>, Seq<char>, bool)>,
    present: Seq<Option<u64>>,
    sizes: spec_fn(Seq<char>) -> Option<u64>,
)
    requires
        sizes_agree(root, targets, present, sizes),
    ensures
        found_from(root, targets, present) == found_artifacts(root, targets, sizes),
    decreases targets.len(),
{
    if targets.len() > 0 {
        let t = targets.drop_last();
        let p = present.drop_last();
        assert forall|i: int| 0 <= i < t.len() implies p[i] == sizes(spec_join(root, #[trigger] t[i].1)) by {
            assert(t[i] == targets[i]);
        }
        lemma_found_from(root, t, p, sizes);
        assert(present.last() == sizes(spec_join(root, targets[targets.len() - 1].1)));
    }
}

/// What a directory's observations yield is what the scan model says of
/// the disk they were taken from.
pub proof fn lemma_kept_from<D: ProjectDetector>(
    ms: Seq<D>,
    root: Seq<char>,
    min_days: Option<u64>,
    present: Seq<Seq<Option<u64>>>,
    git_info: Option<GitInfo>,
    sizes: spec_fn(Seq<char>) -> Option<u64>,
    git: spec_fn(Seq<char>) -> Option<GitInfo>,
)
    requires
        observed(ms, root, present, git_info, sizes, git),
    ensures
        kept_from(ms, root, min_days, present, git_info) == candidate_projects(ms, root, min_days, sizes, git),
    decreases ms.len(),
{
    if ms.len() > 0 {
        let m = ms.drop_last();
        let p = present.drop_last();
        assert forall|k: int| 0 <= k < m.len() implies sizes_agree(root, m[k].spec_targets(), #[trigger] p[k], sizes) by {
            assert(m[k] == ms[k]);
            assert(p[k] == present[k]);
        }
        lemma_kept_from(m, root, min_days, p, git_info, sizes, git);
        assert(sizes_agree(root, ms[ms.len() - 1].spec_targets(), present[ms.len() - 1], sizes));
        lemma_found_from(root, ms.last().spec_targets(), present.last(), sizes);
    }
}

/// The artifacts that `discovered_artifacts` returns, described as the scan
/// model describes them.
pub proof fn lemma_present_found(root: Seq<char>, ts: Seq<ArtifactTarget>, present: Seq<Option<u64>>)
    ensures
        present_artifacts(root, ts, present).map_values(
            |x: (ArtifactTarget, Seq<char>, u64)| (x.0.name@, x.1, x.2),
        ) == found_from(root, targets_view(ts), present),
    decreases ts.len(),
{
    if ts.len() > 0 && present.len() > 0 {
        lemma_present_found(root, ts.drop_last(), present.drop_last());
        assert(targets_view(ts).drop_last() == targets_view(ts.drop_last()));
        assert(targets_view(ts).last() == ts.last()@);
        let rest = present_artifacts(root, ts.drop_last(), present.drop_last());
        match present.last() {
            Some(size) => {
                let x = (ts.last(), spec_join(root, ts.last().rel_path@), size);
                assert(rest.push(x).map_values(|x: (ArtifactTarget, Seq<char>, u64)| (x.0.name@, x.1, x.2))
                    == rest.map_values(|x: (ArtifactTarget, Seq<char>, u64)| (x.0.name@, x.1, x.2)).push(
                    (x.0.name@, x.1, x.2),
                ));
            },
            None => {},
        }
    } else {
        assert(present_artifacts(root, ts, present).map_values(
            |x: (ArtifactTarget, Seq<char>, u64)| (x.0.name@, x.1, x.2),
        ) == Seq::<(Seq<char>, Seq<char>, u64)>::empty());
    }
}

/// A scan over one more walked directory reports what it reported before,
/// followed by the projects of that directory: what `collect_directory`
/// appends for it.
pub proof fn lemma_scan_step<D: ProjectDetector>(
    ds: Seq<D>,
    min_days: Option<u64>,
    dirs: Seq<(Seq<char>, Seq<DirEntryInfo>)>,
    root: Seq<char>,
    entries: Seq<DirEntryInfo>,
    sizes: spec_fn(Seq<char>) -> Option<u64>,
    git: spec_fn(Seq<char>) -> Option<GitInfo>,
)
    ensures
        scan_projects(ds, min_days, dirs.push((root, entries)), sizes, git) == scan_projects(
            ds,
            min_days,
            dirs,
            sizes,
            git,
        ) + candidate_projects(matching_detectors(ds, entries), root, min_days, sizes, git),
{
    assert(dirs.push((root, entries)).drop_last() == dirs);
    assert(dirs.push((root, entries)).last() == (root, entries));
}

proof fn lemma_keep_old_enough_concat(a: Seq<ScannedProject>, b: Seq<ScannedProject>, min: u64)
    ensures
        keep_old_enough(a + b, min) == keep_old_enough(a, min) + keep_old_enough(b, min),
    decreases b.len(),
{
    if b.len() == 0 {
        assert(a + b == a);
    } else {
        lemma_keep_old_enough_concat(a, b.drop_last(), min);
        assert((a + b).drop_last() == a + b.drop_last());
        assert((a + b).last() == b.last());
    }
}

proof fn lemma_keep_type_concat(a: Seq<ScannedProject>, b: Seq<ScannedProject>, t: ProjectType)
    ensures
        keep_type(a + b, t) == keep_type(a, t) + keep_type(b, t),
    decreases b.len(),
{
    if b.len() == 0 {
        assert(a + b == a);
    } else {
        lemma_keep_type_concat(a, b.drop_last(), t);
        assert((a + b).drop_last() == a + b.drop_last());
        assert((a + b).last() == b.last());
    }
}

proof fn lemma_candidates_old_enough<D: ProjectDetector>(
    ms: Seq<D>,
    root: Seq<char>,
    min: u64,
    sizes: spec_fn(Seq<char>) -> Option<u64>,
    git: spec_fn(Seq<char>) -> Option<GitInfo>,
)
    ensures
        candidate_projects(ms, root, Some(min), sizes, git) == keep_old_enough(
            candidate_projects(ms, root, None, sizes, git),
            min,
        ),
    decreases ms.len(),
{
    if ms.len() > 0 {
        lemma_candidates_old_enough(ms.drop_last(), root, min, sizes, git);
        let prev = candidate_projects(ms.drop_last(), root, None, sizes, git);
        let d = ms.last();
        let p = (root, d.spec_name(), found_artifacts(root, d.spec_targets(), sizes), git(root));
        assert(prev.push(p).drop_last() == prev);
        assert(prev.push(p).last() == p);
    }
}

proof fn lemma_candidates_of_type<D: ProjectDetector>(
    ds: Seq<D>,
    entries: Seq<DirEntryInfo>,
    root: Seq<char>,
    t: ProjectType,
    min_days: Option<u64>,
    sizes: spec_fn(Seq<char>) -> Option<u64>,
    git: spec_fn(Seq<char>) -> Option<GitInfo>,
)
    ensures
        keep_type(candidate_projects(matching_detectors(ds, entries), root, min_days, sizes, git), t)
            == candidate_projects(
            matching_detectors(detectors_named(ds, t), entries),
            root,
            min_days,
            sizes,
            git,
        ),
    decreases ds.len(),
{
    if ds.len() > 0 {
        lemma_candidates_of_type(ds.drop_last(), entries, root, t, min_days, sizes, git);
        let d = ds.last();
        let rest = detectors_named(ds.drop_last(), t);
        if d.spec_name() == t {
            assert(detectors_named(ds, t) == rest.push(d));
            assert(rest.push(d).drop_last() == rest);
            assert(rest.push(d).last() == d);
        }
        let ms = matching_detectors(ds.drop_last(), entries);
        if d.spec_detect(entries) {
            assert(ms.push(d).drop_last() == ms);
            assert(ms.push(d).last() == d);
            let ns = matching_detectors(rest, entries);
            assert(ns.push(d).drop_last() == ns);
            assert(ns.push(d).last() == d);
            let prev = candidate_projects(ms, root, min_days, sizes, git);
            let p = (root, d.spec_name(), found_artifacts(root, d.spec_targets(), sizes), git(root));
            assert(prev.push(p).drop_last() == prev);
            assert(prev.push(p).last() == p);
        }
    }
}

/// The stale filter narrows a whole scan exactly: a scan with the filter
/// `Some(min)` reports, in the same order, the projects of the same scan
/// without a filter whose last commit is at least `min` days old (projects
/// outside git or without a commit drop out).
pub proof fn lemma_stale_filter_scan<D: ProjectDetector>(
    ds: Seq<D>,
    min: u64,
    dirs: Seq<(Seq<char>, Seq<DirEntryInfo>)>,
    sizes: spec_fn(Seq<char>) -> Option<u64>,
    git: spec_fn(Seq<char>) -> Option<GitInfo>,
)
    ensures
        scan_projects(ds, Some(min), dirs, sizes, git) == keep_old_enough(
            scan_projects(ds, None, dirs, sizes, git),
            min,
        ),
    decreases dirs.len(),
{
    if dirs.len() > 0 {
        lemma_stale_filter_scan(ds, min, dirs.drop_last(), sizes, git);
        let ms = matching_detectors(ds, dirs.last().1);
        lemma_candidates_old_enough(ms, dirs.last().0, min, sizes, git);
        lemma_keep_old_enough_concat(
            scan_projects(ds, None, dirs.drop_last(), sizes, git),
            candidate_projects(ms, dirs.last().0, None, sizes, git),
            min,
        );
    }
}

/// Keeping the projects of one ecosystem from a scan is the same as
/// scanning with just the detectors of that ecosystem.
pub proof fn lemma_type_subset_scan<D: ProjectDetector>(
    ds: Seq<D>,
    t: ProjectType,
    min_days: Option<u64>,
    dirs: Seq<(Seq<char>, Seq<DirEntryInfo>)>,
    sizes: spec_fn(Seq<char>) -> Option<u64>,
    git: spec_fn(Seq<char>) -> Option<GitInfo>,
)
    ensures
        scan_projects(detectors_named(ds, t), min_days, dirs, sizes, git) == keep_type(
            scan_projects(ds, min_days, dirs, sizes, git),
            t,
        ),
    decreases dirs.len(),
{
    if dirs.len() > 0 {
        lemma_type_subset_scan(ds, t, min_days, dirs.drop_last(), sizes, git);
        lemma_candidates_of_type(ds, dirs.last().1, dirs.last().0, t, min_days, sizes, git);
        lemma_keep_type_concat(
            scan_projects(ds, min_days, dirs.drop_last(), sizes, git),
            candidate_projects(matching_detectors(ds, dirs.last().1), dirs.last().0, min_days, sizes, git),
            t,
        );
    }
}

/// Each built-in detector is the only one of its ecosystem among all of them.
proof fn lemma_only_detector_of_its_type(d: Detector)
    ensures
        detectors_named(all_detectors(), d.spec_name()) == seq![d],
{
    reveal_with_fuel(detectors_named, 13);
    let a = all_detectors();
    assert(a.drop_last() == a.take(11));
    assert(a.take(11).drop_last() == a.take(10));
    assert(a.take(10).drop_last() == a.take(9));
    assert(a.take(9).drop_last() == a.take(8));
    assert(a.take(8).drop_last() == a.take(7));
    assert(a.take(7).drop_last() == a.take(6));
    assert(a.take(6).drop_last() == a.take(5));
    assert(a.take(5).drop_last() == a.take(4));
    assert(a.take(4).drop_last() == a.take(3));
    assert(a.take(3).drop_last() == a.take(2));
    assert(a.take(2).drop_last() == a.take(1));
    assert(a.take(1).drop_last() == a.take(0));
    assert(a.take(0) == Seq::<Detector>::empty());
    assert(seq![d] == Seq::<Detector>::empty().push(d));
}

/// A type filter other than "all" narrows a whole scan exactly: a scan with
/// the registry that the filter selects reports, in the same order, the
/// projects of the same scan with all built-in detectors that are of the
/// selected ecosystem.
pub proof fn lemma_type_filter_scan(
    filter: Seq<char>,
    min_days: Option<u64>,
    dirs: Seq<(Seq<char>, Seq<DirEntryInfo>)>,
    sizes: spec_fn(Seq<char>) -> Option<u64>,
    git: spec_fn(Seq<char>) -> Option<GitInfo>,
)
    requires
        detectors_for(filter) is Some,
        filter != "all"@,
    ensures
        detectors_for(filter)->0.len() == 1,
        scan_projects(detectors_for(filter)->0, min_days, dirs, sizes, git) == keep_type(
            scan_projects(all_detectors(), min_days, dirs, sizes, git),
            detectors_for(filter)->0[0].spec_name(),
        ),
{
    let ds = detectors_for(filter)->0;
    let d = ds[0];
    assert(ds == seq![d]);
    lemma_only_detector_of_its_type(d);
    lemma_type_subset_scan(all_detectors(), d.spec_name(), min_days, dirs, sizes, git);
}

} // verus!
