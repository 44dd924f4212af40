//! Recognises a JavaScript package or workspace manifest.
use vstd::prelude::*;

use crate::sweep_core::traits::ArtifactTarget;
use crate::sweep_core::traits::DirEntryInfo;
use crate::sweep_core::traits::DirListing;
use crate::sweep_core::traits::has_file;
use crate::sweep_core::traits::ProjectDetector;
use crate::sweep_core::traits::ProjectType;
use crate::sweep_core::traits::targets_view;

verus! {

/// Recognises a JavaScript package or workspace manifest.
#[derive(Debug, Default, Clone, Copy)]
pub struct NodeDetector;

impl NodeDetector {
    pub fn new() -> (r: Self)
        ensures
            r == NodeDetector,
    {
        NodeDetector
    }
}

impl ProjectDetector for NodeDetector {
    open spec fn spec_name(&self) -> ProjectType {
        ProjectType::Node
    }

    open spec fn spec_detect(&self, entries: Seq<DirEntryInfo>) -> bool {
        has_file(entries, "package.json"@)
        || has_file(entries, "pnpm-workspace.yaml"@)
        || has_file(entries, "bun.lockb"@)
        || has_file(entries, "bun.lock"@)
        || has_file(entries, "deno.json"@)
        || has_file(entries, "deno.jsonc"@)
    }

    open spec fn spec_targets(&self) -> Seq<(Seq<char>, Seq<char>, bool)> {
        seq![("node_modules"@, "node_modules"@, true), (".next"@, ".next"@, true), (".nuxt"@, ".nuxt"@, true), ("dist"@, "dist"@, true), ("build"@, "build"@, true), (".turbo"@, ".turbo"@, true), (".svelte-kit"@, ".svelte-kit"@, true), (".astro"@, ".astro"@, true), (".output"@, ".output"@, true), (".parcel-cache"@, ".parcel-cache"@, true), (".angular"@, ".angular"@, true)]
    }

    fn name(&self) -> (r: ProjectType) {
        ProjectType::Node
    }

    fn detect(&self, dir: &DirListing) -> (r: bool) {
        dir.has_file("package.json")
            || dir.has_file("pnpm-workspace.yaml")
            || dir.has_file("bun.lockb")
            || dir.has_file("bun.lock")
            || dir.has_file("deno.json")
            || dir.has_file("deno.jsonc")
    }

    fn get_artifacts(&self, _project_root: &str) -> (r: Vec<ArtifactTarget>) {
        let v = vec![
            ArtifactTarget::at("node_modules"),
            ArtifactTarget::at(".next"),
            ArtifactTarget::at(".nuxt"),
            ArtifactTarget::at("dist"),
            ArtifactTarget::at("build"),
            ArtifactTarget::at(".turbo"),
            ArtifactTarget::at(".svelte-kit"),
            ArtifactTarget::at(".astro"),
            ArtifactTarget::at(".output"),
            ArtifactTarget::at(".parcel-cache"),
            ArtifactTarget::at(".angular"),
        ];
        assert(targets_view(v@) == self.spec_targets());
        v
    }
}

} // verus!
