//! Recognises a Mix project file.
use vstd::prelude::*;

use crate::sweep_core::traits::ArtifactTarget;
use crate::sweep_core::traits::DirEntryInfo;
use crate::sweep_core::traits::DirListing;
use crate::sweep_core::traits::has_file;
use crate::sweep_core::traits::ProjectDetector;
use crate::sweep_core::traits::ProjectType;
use crate::sweep_core::traits::targets_view;

verus! {

/// Recognises a Mix project file.
#[derive(Debug, Default, Clone, Copy)]
pub struct ElixirDetector;

impl ElixirDetector {
    pub fn new() -> (r: Self)
        ensures
            r == ElixirDetector,
    {
        ElixirDetector
    }
}

impl ProjectDetector for ElixirDetector {
    open spec fn spec_name(&self) -> ProjectType {
        ProjectType::Elixir
    }

    open spec fn spec_detect(&self, entries: Seq<DirEntryInfo>) -> bool {
        has_file(entries, "mix.exs"@)
    }

    open spec fn spec_targets(&self) -> Seq<(Seq<char>, Seq<char>, bool)> {
        seq![("_build"@, "_build"@, true), ("deps"@, "deps"@, true)]
    }

    fn name(&self) -> (r: ProjectType) {
        ProjectType::Elixir
    }

    fn detect(&self, dir: &DirListing) -> (r: bool) {
        dir.has_file("mix.exs")
    }

    fn get_artifacts(&self, _project_root: &str) -> (r: Vec<ArtifactTarget>) {
        let v = vec![
            ArtifactTarget::at("_build"),
            ArtifactTarget::at("deps"),
        ];
        assert(targets_view(v@) == self.spec_targets());
        v
    }
}

} // verus!
