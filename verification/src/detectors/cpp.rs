//! Recognises a CMake or Meson build file.
use vstd::prelude::*;

use crate::sweep_core::traits::ArtifactTarget;
use crate::sweep_core::traits::DirEntryInfo;
use crate::sweep_core::traits::DirListing;
use crate::sweep_core::traits::has_file;
use crate::sweep_core::traits::ProjectDetector;
use crate::sweep_core::traits::ProjectType;
use crate::sweep_core::traits::targets_view;

verus! {

/// Recognises a CMake or Meson build file.
#[derive(Debug, Default, Clone, Copy)]
pub struct CppDetector;

impl CppDetector {
    pub fn new() -> (r: Self)
        ensures
            r == CppDetector,
    {
        CppDetector
    }
}

impl ProjectDetector for CppDetector {
    open spec fn spec_name(&self) -> ProjectType {
        ProjectType::Cpp
    }

    open spec fn spec_detect(&self, entries: Seq<DirEntryInfo>) -> bool {
        has_file(entries, "CMakeLists.txt"@)
        || has_file(entries, "meson.build"@)
    }

    open spec fn spec_targets(&self) -> Seq<(Seq<char>, Seq<char>, bool)> {
        seq![("build"@, "build"@, true), ("cmake-build-debug"@, "cmake-build-debug"@, true), ("cmake-build-release"@, "cmake-build-release"@, true)]
    }

    fn name(&self) -> (r: ProjectType) {
        ProjectType::Cpp
    }

    fn detect(&self, dir: &DirListing) -> (r: bool) {
        dir.has_file("CMakeLists.txt")
            || dir.has_file("meson.build")
    }

    fn get_artifacts(&self, _project_root: &str) -> (r: Vec<ArtifactTarget>) {
        let v = vec![
            ArtifactTarget::at("build"),
            ArtifactTarget::at("cmake-build-debug"),
            ArtifactTarget::at("cmake-build-release"),
        ];
        assert(targets_view(v@) == self.spec_targets());
        v
    }
}

} // verus!
