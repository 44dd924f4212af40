//! Recognises a Gemfile.
use vstd::prelude::*;

use crate::paths::join;
use crate::paths::spec_join;
use crate::sweep_core::traits::ArtifactTarget;
use crate::sweep_core::traits::DirEntryInfo;
use crate::sweep_core::traits::DirListing;
use crate::sweep_core::traits::has_file;
use crate::sweep_core::traits::ProjectDetector;
use crate::sweep_core::traits::ProjectType;
use crate::sweep_core::traits::targets_view;

verus! {

/// Recognises a Gemfile.
#[derive(Debug, Default, Clone, Copy)]
pub struct RubyDetector;

impl RubyDetector {
    pub fn new() -> (r: Self)
        ensures
            r == RubyDetector,
    {
        RubyDetector
    }
}

impl ProjectDetector for RubyDetector {
    open spec fn spec_name(&self) -> ProjectType {
        ProjectType::Ruby
    }

    open spec fn spec_detect(&self, entries: Seq<DirEntryInfo>) -> bool {
        has_file(entries, "Gemfile"@)
    }

    open spec fn spec_targets(&self) -> Seq<(Seq<char>, Seq<char>, bool)> {
        seq![("vendor"@, spec_join("vendor"@, "bundle"@), true), (".bundle"@, ".bundle"@, true)]
    }

    fn name(&self) -> (r: ProjectType) {
        ProjectType::Ruby
    }

    fn detect(&self, dir: &DirListing) -> (r: bool) {
        dir.has_file("Gemfile")
    }

    fn get_artifacts(&self, _project_root: &str) -> (r: Vec<ArtifactTarget>) {
        let rel = join("vendor", "bundle");
        let v = vec![
            ArtifactTarget { name: "vendor", rel_path: rel, is_reconstructible: true },
            ArtifactTarget::at(".bundle"),
        ];
        assert(targets_view(v@) == self.spec_targets());
        v
    }
}

} // verus!
