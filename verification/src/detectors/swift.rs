//! Recognises a Swift package or an Xcode project.
use vstd::prelude::*;

use crate::sweep_core::traits::ArtifactTarget;
use crate::sweep_core::traits::DirEntryInfo;
use crate::sweep_core::traits::DirListing;
use crate::sweep_core::traits::has_file;
use crate::sweep_core::traits::has_entry_ending_with;
use crate::sweep_core::traits::ProjectDetector;
use crate::sweep_core::traits::ProjectType;
use crate::sweep_core::traits::targets_view;

verus! {

/// Recognises a Swift package or an Xcode project.
#[derive(Debug, Default, Clone, Copy)]
pub struct SwiftDetector;

impl SwiftDetector {
    pub fn new() -> (r: Self)
        ensures
            r == SwiftDetector,
    {
        SwiftDetector
    }
}

impl ProjectDetector for SwiftDetector {
    open spec fn spec_name(&self) -> ProjectType {
        ProjectType::Swift
    }

    open spec fn spec_detect(&self, entries: Seq<DirEntryInfo>) -> bool {
        has_file(entries, "Package.swift"@)
        || has_entry_ending_with(entries, ".xcodeproj"@)
        || has_entry_ending_with(entries, ".xcworkspace"@)
    }

    open spec fn spec_targets(&self) -> Seq<(Seq<char>, Seq<char>, bool)> {
        seq![(".build"@, ".build"@, true), ("DerivedData"@, "DerivedData"@, true)]
    }

    fn name(&self) -> (r: ProjectType) {
        ProjectType::Swift
    }

    fn detect(&self, dir: &DirListing) -> (r: bool) {
        dir.has_file("Package.swift") || dir.has_entry_ending_with(".xcodeproj")
            || dir.has_entry_ending_with(".xcworkspace")
    }

    fn get_artifacts(&self, _project_root: &str) -> (r: Vec<ArtifactTarget>) {
        let v = vec![
            ArtifactTarget::at(".build"),
            ArtifactTarget::at("DerivedData"),
        ];
        assert(targets_view(v@) == self.spec_targets());
        v
    }
}

} // verus!
