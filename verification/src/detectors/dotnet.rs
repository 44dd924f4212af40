//! Recognises a .NET project or solution.
use vstd::prelude::*;

use crate::sweep_core::traits::ArtifactTarget;
use crate::sweep_core::traits::DirEntryInfo;
use crate::sweep_core::traits::DirListing;
use crate::sweep_core::traits::has_entry_with_extension;
use crate::sweep_core::traits::ProjectDetector;
use crate::sweep_core::traits::ProjectType;
use crate::sweep_core::traits::targets_view;

verus! {

/// Recognises a .NET project or solution.
#[derive(Debug, Default, Clone, Copy)]
pub struct DotnetDetector;

impl DotnetDetector {
    pub fn new() -> (r: Self)
        ensures
            r == DotnetDetector,
    {
        DotnetDetector
    }
}

impl ProjectDetector for DotnetDetector {
    open spec fn spec_name(&self) -> ProjectType {
        ProjectType::Dotnet
    }

    open spec fn spec_detect(&self, entries: Seq<DirEntryInfo>) -> bool {
        has_entry_with_extension(entries, "csproj"@)
        || has_entry_with_extension(entries, "sln"@)
        || has_entry_with_extension(entries, "fsproj"@)
    }

    open spec fn spec_targets(&self) -> Seq<(Seq<char>, Seq<char>, bool)> {
        seq![("bin"@, "bin"@, true), ("obj"@, "obj"@, true)]
    }

    fn name(&self) -> (r: ProjectType) {
        ProjectType::Dotnet
    }

    fn detect(&self, dir: &DirListing) -> (r: bool) {
        dir.has_extension("csproj") || dir.has_extension("sln") || dir.has_extension("fsproj")
    }

    fn get_artifacts(&self, _project_root: &str) -> (r: Vec<ArtifactTarget>) {
        let v = vec![
            ArtifactTarget::at("bin"),
            ArtifactTarget::at("obj"),
        ];
        assert(targets_view(v@) == self.spec_targets());
        v
    }
}

} // verus!
