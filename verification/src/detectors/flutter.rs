//! Recognises a Dart pubspec.
use vstd::prelude::*;

use crate::sweep_core::traits::ArtifactTarget;
use crate::sweep_core::traits::DirEntryInfo;
use crate::sweep_core::traits::DirListing;
use crate::sweep_core::traits::has_file;
use crate::sweep_core::traits::ProjectDetector;
use crate::sweep_core::traits::ProjectType;
use crate::sweep_core::traits::targets_view;

verus! {

/// Recognises a Dart pubspec.
#[derive(Debug, Default, Clone, Copy)]
pub struct FlutterDetector;

impl FlutterDetector {
    pub fn new() -> (r: Self)
        ensures
            r == FlutterDetector,
    {
        FlutterDetector
    }
}

impl ProjectDetector for FlutterDetector {
    open spec fn spec_name(&self) -> ProjectType {
        ProjectType::Flutter
    }

    open spec fn spec_detect(&self, entries: Seq<DirEntryInfo>) -> bool {
        has_file(entries, "pubspec.yaml"@)
    }

    open spec fn spec_targets(&self) -> Seq<(Seq<char>, Seq<char>, bool)> {
        seq![(".dart_tool"@, ".dart_tool"@, true), ("build"@, "build"@, true), (".flutter-plugins"@, ".flutter-plugins"@, true), (".flutter-plugins-dependencies"@, ".flutter-plugins-dependencies"@, true)]
    }

    fn name(&self) -> (r: ProjectType) {
        ProjectType::Flutter
    }

    fn detect(&self, dir: &DirListing) -> (r: bool) {
        dir.has_file("pubspec.yaml")
    }

    fn get_artifacts(&self, _project_root: &str) -> (r: Vec<ArtifactTarget>) {
        let v = vec![
            ArtifactTarget::at(".dart_tool"),
            ArtifactTarget::at("build"),
            ArtifactTarget::at(".flutter-plugins"),
            ArtifactTarget::at(".flutter-plugins-dependencies"),
        ];
        assert(targets_view(v@) == self.spec_targets());
        v
    }
}

} // verus!
