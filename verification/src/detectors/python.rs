//! Recognises a Python project file.
use vstd::prelude::*;

use crate::sweep_core::traits::ArtifactTarget;
use crate::sweep_core::traits::DirEntryInfo;
use crate::sweep_core::traits::DirListing;
use crate::sweep_core::traits::has_file;
use crate::sweep_core::traits::ProjectDetector;
use crate::sweep_core::traits::ProjectType;
use crate::sweep_core::traits::targets_view;

verus! {

/// Recognises a Python project file.
#[derive(Debug, Default, Clone, Copy)]
pub struct PythonDetector;

impl PythonDetector {
    pub fn new() -> (r: Self)
        ensures
            r == PythonDetector,
    {
        PythonDetector
    }
}

impl ProjectDetector for PythonDetector {
    open spec fn spec_name(&self) -> ProjectType {
        ProjectType::Python
    }

    open spec fn spec_detect(&self, entries: Seq<DirEntryInfo>) -> bool {
        has_file(entries, "pyproject.toml"@)
        || has_file(entries, "requirements.txt"@)
        || has_file(entries, "Pipfile"@)
        || has_file(entries, "setup.py"@)
    }

    open spec fn spec_targets(&self) -> Seq<(Seq<char>, Seq<char>, bool)> {
        seq![(".venv"@, ".venv"@, true), ("venv"@, "venv"@, true), ("__pycache__"@, "__pycache__"@, true), (".pytest_cache"@, ".pytest_cache"@, true), (".mypy_cache"@, ".mypy_cache"@, true), (".ruff_cache"@, ".ruff_cache"@, true), ("dist"@, "dist"@, true), ("build"@, "build"@, true)]
    }

    fn name(&self) -> (r: ProjectType) {
        ProjectType::Python
    }

    fn detect(&self, dir: &DirListing) -> (r: bool) {
        dir.has_file("pyproject.toml")
            || dir.has_file("requirements.txt")
            || dir.has_file("Pipfile")
            || dir.has_file("setup.py")
    }

    fn get_artifacts(&self, _project_root: &str) -> (r: Vec<ArtifactTarget>) {
        let v = vec![
            ArtifactTarget::at(".venv"),
            ArtifactTarget::at("venv"),
            ArtifactTarget::at("__pycache__"),
            ArtifactTarget::at(".pytest_cache"),
            ArtifactTarget::at(".mypy_cache"),
            ArtifactTarget::at(".ruff_cache"),
            ArtifactTarget::at("dist"),
            ArtifactTarget::at("build"),
        ];
        assert(targets_view(v@) == self.spec_targets());
        v
    }
}

} // verus!
