//! Recognises a Cargo manifest.
use vstd::prelude::*;

use crate::sweep_core::traits::ArtifactTarget;
use crate::sweep_core::traits::DirEntryInfo;
use crate::sweep_core::traits::DirListing;
use crate::sweep_core::traits::has_file;
use crate::sweep_core::traits::ProjectDetector;
use crate::sweep_core::traits::ProjectType;
use crate::sweep_core::traits::targets_view;

verus! {

/// Recognises a Cargo manifest.
#[derive(Debug, Default, Clone, Copy)]
pub struct RustDetector;

impl RustDetector {
    pub fn new() -> (r: Self)
        ensures
            r == RustDetector,
    {
        RustDetector
    }
}

impl ProjectDetector for RustDetector {
    open spec fn spec_name(&self) -> ProjectType {
        ProjectType::Rust
    }

    open spec fn spec_detect(&self, entries: Seq<DirEntryInfo>) -> bool {
        has_file(entries, "Cargo.toml"@)
    }

    open spec fn spec_targets(&self) -> Seq<(Seq<char>, Seq<char>, bool)> {
        seq![("target"@, "target"@, true)]
    }

    fn name(&self) -> (r: ProjectType) {
        ProjectType::Rust
    }

    fn detect(&self, dir: &DirListing) -> (r: bool) {
        dir.has_file("Cargo.toml")
    }

    fn get_artifacts(&self, _project_root: &str) -> (r: Vec<ArtifactTarget>) {
        let v = vec![
            ArtifactTarget::at("target"),
        ];
        assert(targets_view(v@) == self.spec_targets());
        v
    }
}

} // verus!
