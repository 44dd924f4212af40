//! Recognises a Maven or Gradle build file.
use vstd::prelude::*;

use crate::sweep_core::traits::ArtifactTarget;
use crate::sweep_core::traits::DirEntryInfo;
use crate::sweep_core::traits::DirListing;
use crate::sweep_core::traits::has_file;
use crate::sweep_core::traits::ProjectDetector;
use crate::sweep_core::traits::ProjectType;
use crate::sweep_core::traits::targets_view;

verus! {

/// Recognises a Maven or Gradle build file.
#[derive(Debug, Default, Clone, Copy)]
pub struct JavaDetector;

impl JavaDetector {
    pub fn new() -> (r: Self)
        ensures
            r == JavaDetector,
    {
        JavaDetector
    }
}

impl ProjectDetector for JavaDetector {
    open spec fn spec_name(&self) -> ProjectType {
        ProjectType::Java
    }

    open spec fn spec_detect(&self, entries: Seq<DirEntryInfo>) -> bool {
        has_file(entries, "pom.xml"@)
        || has_file(entries, "build.gradle"@)
        || has_file(entries, "build.gradle.kts"@)
        || has_file(entries, "settings.gradle"@)
        || has_file(entries, "settings.gradle.kts"@)
    }

    open spec fn spec_targets(&self) -> Seq<(Seq<char>, Seq<char>, bool)> {
        seq![("target"@, "target"@, true), ("build"@, "build"@, true), (".gradle"@, ".gradle"@, true), ("out"@, "out"@, true)]
    }

    fn name(&self) -> (r: ProjectType) {
        ProjectType::Java
    }

    fn detect(&self, dir: &DirListing) -> (r: bool) {
        dir.has_file("pom.xml")
            || dir.has_file("build.gradle")
            || dir.has_file("build.gradle.kts")
            || dir.has_file("settings.gradle")
            || dir.has_file("settings.gradle.kts")
    }

    fn get_artifacts(&self, _project_root: &str) -> (r: Vec<ArtifactTarget>) {
        let v = vec![
            ArtifactTarget::at("target"),
            ArtifactTarget::at("build"),
            ArtifactTarget::at(".gradle"),
            ArtifactTarget::at("out"),
        ];
        assert(targets_view(v@) == self.spec_targets());
        v
    }
}

} // verus!
