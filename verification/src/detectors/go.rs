//! Recognises a Go module or workspace file.
use vstd::prelude::*;

use crate::sweep_core::traits::ArtifactTarget;
use crate::sweep_core::traits::DirEntryInfo;
use crate::sweep_core::traits::DirListing;
use crate::sweep_core::traits::has_file;
use crate::sweep_core::traits::ProjectDetector;
use crate::sweep_core::traits::ProjectType;
use crate::sweep_core::traits::targets_view;

verus! {

/// Recognises a Go module or workspace file.
#[derive(Debug, Default, Clone, Copy)]
pub struct GoDetector;

impl GoDetector {
    pub fn new() -> (r: Self)
        ensures
            r == GoDetector,
    {
        GoDetector
    }
}

impl ProjectDetector for GoDetector {
    open spec fn spec_name(&self) -> ProjectType {
        ProjectType::Go
    }

    open spec fn spec_detect(&self, entries: Seq<DirEntryInfo>) -> bool {
        has_file(entries, "go.mod"@)
        || has_file(entries, "go.work"@)
    }

    open spec fn spec_targets(&self) -> Seq<(Seq<char>, Seq<char>, bool)> {
        seq![("bin"@, "bin"@, true), ("dist"@, "dist"@, true), ("vendor"@, "vendor"@, true)]
    }

    fn name(&self) -> (r: ProjectType) {
        ProjectType::Go
    }

    fn detect(&self, dir: &DirListing) -> (r: bool) {
        dir.has_file("go.mod")
            || dir.has_file("go.work")
    }

    fn get_artifacts(&self, _project_root: &str) -> (r: Vec<ArtifactTarget>) {
        let v = vec![
            ArtifactTarget::at("bin"),
            ArtifactTarget::at("dist"),
            ArtifactTarget::at("vendor"),
        ];
        assert(targets_view(v@) == self.spec_targets());
        v
    }
}

} // verus!
