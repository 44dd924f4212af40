//! Recognises a Composer manifest.
use vstd::prelude::*;

use crate::sweep_core::traits::ArtifactTarget;
use crate::sweep_core::traits::DirEntryInfo;
use crate::sweep_core::traits::DirListing;
use crate::sweep_core::traits::has_file;
use crate::sweep_core::traits::ProjectDetector;
use crate::sweep_core::traits::ProjectType;
use crate::sweep_core::traits::targets_view;

verus! {

/// Recognises a Composer manifest.
#[derive(Debug, Default, Clone, Copy)]
pub struct PhpDetector;

impl PhpDetector {
    pub fn new() -> (r: Self)
        ensures
            r == PhpDetector,
    {
        PhpDetector
    }
}

impl ProjectDetector for PhpDetector {
    open spec fn spec_name(&self) -> ProjectType {
        ProjectType::Php
    }

    open spec fn spec_detect(&self, entries: Seq<DirEntryInfo>) -> bool {
        has_file(entries, "composer.json"@)
    }

    open spec fn spec_targets(&self) -> Seq<(Seq<char>, Seq<char>, bool)> {
        seq![("vendor"@, "vendor"@, true)]
    }

    fn name(&self) -> (r: ProjectType) {
        ProjectType::Php
    }

    fn detect(&self, dir: &DirListing) -> (r: bool) {
        dir.has_file("composer.json")
    }

    fn get_artifacts(&self, _project_root: &str) -> (r: Vec<ArtifactTarget>) {
        let v = vec![
            ArtifactTarget::at("vendor"),
        ];
        assert(targets_view(v@) == self.spec_targets());
        v
    }
}

} // verus!
