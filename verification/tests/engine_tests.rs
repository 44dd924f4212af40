use std::collections::HashMap;
use std::collections::HashSet;

use sweep_rs::detectors::DetectorRegistry;
use sweep_rs::git::analyzer::GitAnalyzer;
use sweep_rs::git::analyzer::RepoState;
use sweep_rs::sweep_core::engine::ScanCandidate;
use sweep_rs::sweep_core::engine::ScanEngine;
use sweep_rs::sweep_core::engine::is_pruned_dir;
use sweep_rs::sweep_core::engine::should_report_progress;
use sweep_rs::sweep_core::size::total_allocated;
use sweep_rs::sweep_core::traits::DirEntryInfo;
use sweep_rs::sweep_core::traits::DirListing;
use sweep_rs::sweep_core::traits::DiscoveredProject;
use sweep_rs::sweep_core::traits::GitInfo;
use sweep_rs::sweep_core::traits::GitStatus;
use sweep_rs::sweep_core::traits::ProjectType;

/// A file tree held in memory: files with their lengths, and git facts per directory.
struct Tree {
    files: Vec<(String, u64)>,
    repos: HashMap<String, RepoState>,
}

impl Tree {
    fn new() -> Self {
        Tree { files: Vec::new(), repos: HashMap::new() }
    }

    fn file(&mut self, path: &str, len: u64) {
        self.files.push((path.to_string(), len));
    }

    fn dirs(&self) -> Vec<String> {
        let mut dirs: HashSet<String> = HashSet::new();
        dirs.insert("/ws".to_string());
        for (f, _) in &self.files {
            let mut p = f.as_str();
            while let Some(i) = p.rfind('/') {
                p = &p[..i];
                if p.len() >= 3 {
                    dirs.insert(p.to_string());
                }
            }
        }
        let mut v: Vec<String> = dirs.into_iter().collect();
        v.sort();
        v
    }

    fn holds_path(&self, path: &str) -> bool {
        self.files.iter().any(|(f, _)| f == path || f.starts_with(&format!("{}/", path)))
    }

    fn listing(&self, dir: &str) -> DirListing {
        let prefix = format!("{}/", dir);
        let mut seen: Vec<DirEntryInfo> = Vec::new();
        for (f, _) in &self.files {
            if let Some(rest) = f.strip_prefix(&prefix) {
                let (name, is_file) = match rest.find('/') {
                    Some(i) => (&rest[..i], false),
                    None => (rest, true),
                };
                if !seen.iter().any(|e| e.name == name) {
                    seen.push(DirEntryInfo { name: name.to_string(), is_file });
                }
            }
        }
        DirListing { entries: seen }
    }

    fn size_below(&self, dir: &str) -> u64 {
        let lens: Vec<u64> = self
            .files
            .iter()
            .filter(|(f, _)| f.starts_with(&format!("{}/", dir)))
            .map(|(_, l)| *l)
            .collect();
        total_allocated(&lens).unwrap()
    }

    fn pruned(&self, dir: &str) -> bool {
        let rel = dir.strip_prefix("/ws").unwrap_or(dir);
        let comps: Vec<&str> = rel.split('/').filter(|c| !c.is_empty()).collect();
        comps.len() > 1 && comps[..comps.len() - 1].iter().any(|c| is_pruned_dir(c))
    }

    /// Runs the scan decisions of `engine` over the tree at the Unix time `now`.
    fn scan(&self, engine: &ScanEngine, now: i64) -> (Vec<DiscoveredProject>, usize) {
        let mut inspected = 0usize;
        let mut projects = Vec::new();
        for dir in self.dirs() {
            if self.pruned(&dir) {
                continue;
            }
            inspected += 1;
            let listing = self.listing(&dir);
            let candidates = engine.candidates_in(&dir, &listing);
            let present: Vec<Vec<Option<u64>>> = candidates
                .iter()
                .map(|c| {
                    c.artifact_paths()
                        .iter()
                        .map(|p| if self.holds_path(p) { Some(self.size_below(p)) } else { None })
                        .collect()
                })
                .collect();
            let on_disk: Vec<bool> = present.iter().map(|v| v.iter().any(|s| s.is_some())).collect();
            let git = if ScanCandidate::has_artifact_on_disk(&on_disk) {
                GitAnalyzer::analyze(self.repos.get(&dir).copied(), now)
            } else {
                None
            };
            engine.collect_directory(&mut projects, &dir, &listing, &present, git);
        }
        (projects, inspected)
    }
}

#[test]
fn test_scan_and_prune_mock_projects() {
    let mut t = Tree::new();
    t.file("/ws/my-rust-app/Cargo.toml", 26);
    t.file("/ws/my-rust-app/target/output.bin", 1024);
    t.file("/ws/my-node-app/package.json", 15);
    t.file("/ws/my-node-app/node_modules/dummy-pkg/index.js", 2048);
    t.file("/ws/my-node-app/node_modules/dummy-pkg/package.json", 18);
    t.file("/ws/my-java-app/pom.xml", 19);
    t.file("/ws/my-java-app/target/output.jar", 512);

    let engine = ScanEngine::new(DetectorRegistry::default_all());
    let (projects, inspected) = t.scan(&engine, 0);

    assert_eq!(projects.len(), 3);
    assert!(inspected >= 2);

    let rust_proj = projects.iter().find(|p| p.project_type == ProjectType::Rust).unwrap();
    assert_eq!(rust_proj.artifacts.len(), 1);
    assert_eq!(rust_proj.artifacts[0].target.name, "target");
    assert_eq!(rust_proj.artifacts[0].size_bytes, 4096);
    assert_eq!(rust_proj.artifacts[0].abs_path, "/ws/my-rust-app/target");

    let node_proj = projects.iter().find(|p| p.project_type == ProjectType::Node).unwrap();
    assert_eq!(node_proj.artifacts.len(), 1);
    assert_eq!(node_proj.artifacts[0].target.name, "node_modules");
    assert_eq!(node_proj.artifacts[0].size_bytes, 4096 * 2);

    let java_proj = projects.iter().find(|p| p.project_type == ProjectType::Java).unwrap();
    assert_eq!(java_proj.artifacts.len(), 1);
    assert_eq!(java_proj.artifacts[0].target.name, "target");
    assert_eq!(java_proj.artifacts[0].size_bytes, 4096);
}

#[test]
fn test_monorepo_multi_ecosystem_detection() {
    let mut t = Tree::new();
    t.file("/ws/rust_service/Cargo.toml", 26);
    t.file("/ws/rust_service/target/output.bin", 1024);
    t.file("/ws/web_frontend/package.json", 15);
    t.file("/ws/web_frontend/node_modules/pkg/bundle.js", 2048);
    t.file("/ws/ml_service/pyproject.toml", 23);
    t.file("/ws/ml_service/.venv/pyvenv.cfg", 15);
    t.file("/ws/dotnet_tool/tool.csproj", 11);
    t.file("/ws/dotnet_tool/bin/tool.dll", 512);

    let engine = ScanEngine::new(DetectorRegistry::default_all());
    let (projects, inspected) = t.scan(&engine, 0);

    assert_eq!(projects.len(), 4);
    assert!(inspected >= 4);

    let types: Vec<ProjectType> = projects.iter().map(|p| p.project_type.clone()).collect();
    assert!(types.contains(&ProjectType::Rust));
    assert!(types.contains(&ProjectType::Node));
    assert!(types.contains(&ProjectType::Python));
    assert!(types.contains(&ProjectType::Dotnet));
}

#[test]
fn test_ecosystem_type_filtering() {
    let mut t = Tree::new();
    t.file("/ws/rust_app/Cargo.toml", 20);
    t.file("/ws/rust_app/target/a.out", 3);
    t.file("/ws/node_app/package.json", 13);
    t.file("/ws/node_app/node_modules/x.js", 3);

    let engine = ScanEngine::new(DetectorRegistry::for_type("rust").unwrap());
    let (projects, _) = t.scan(&engine, 0);
    assert_eq!(projects.len(), 1);
    assert_eq!(projects[0].project_type, ProjectType::Rust);

    let engine_node = ScanEngine::new(DetectorRegistry::for_type("node").unwrap());
    let (node_projects, _) = t.scan(&engine_node, 0);
    assert_eq!(node_projects.len(), 1);
    assert_eq!(node_projects[0].project_type, ProjectType::Node);
}

#[test]
fn test_stale_filter_filtering() {
    let now: i64 = 1_700_000_000;
    let mut t = Tree::new();
    t.file("/ws/my_repo/Cargo.toml", 24);
    t.file("/ws/my_repo/target/out.bin", 4);
    t.repos.insert(
        "/ws/my_repo".to_string(),
        RepoState { is_dirty: true, head_commit_time: Some(now - 5) },
    );

    let stale30 = ScanEngine::new(DetectorRegistry::default_all()).with_stale_filter(Some(30));
    let (projects_stale, _) = t.scan(&stale30, now);
    assert_eq!(projects_stale.len(), 0);

    let stale0 = ScanEngine::new(DetectorRegistry::default_all()).with_stale_filter(Some(0));
    let (projects_all, _) = t.scan(&stale0, now);
    assert_eq!(projects_all.len(), 1);
}

#[test]
fn pruned_directories_are_not_descended() {
    let mut t = Tree::new();
    t.file("/ws/app/package.json", 10);
    t.file("/ws/app/node_modules/inner/package.json", 10);
    t.file("/ws/app/node_modules/inner/node_modules/x.js", 100);
    let engine = ScanEngine::new(DetectorRegistry::default_all());
    let (projects, _) = t.scan(&engine, 0);
    assert_eq!(projects.len(), 1);
    assert_eq!(projects[0].root, "/ws/app");
    for name in [".git", "node_modules", "target", ".sweep-trash", "out"] {
        assert!(is_pruned_dir(name));
    }
    assert!(!is_pruned_dir("src"));
    assert!(!is_pruned_dir(".sweep-trash-1234"));
}

#[test]
fn progress_is_reported_every_fifty_directories() {
    assert!(should_report_progress(50));
    assert!(should_report_progress(100));
    assert!(!should_report_progress(49));
    assert!(!should_report_progress(1));
}

#[test]
fn candidates_carry_the_detector_targets() {
    let engine = ScanEngine::new(DetectorRegistry::default_all());
    let dir = DirListing {
        entries: vec![
            DirEntryInfo { name: "Cargo.toml".to_string(), is_file: true },
            DirEntryInfo { name: "package.json".to_string(), is_file: true },
        ],
    };
    let cands = engine.candidates_in("/w/p", &dir);
    assert_eq!(cands.len(), 2);
    assert_eq!(cands[0].project_type, ProjectType::Rust);
    assert_eq!(cands[1].project_type, ProjectType::Node);
    assert_eq!(cands[1].targets.len(), 11);
    assert_eq!(cands[0].artifact_paths(), vec!["/w/p/target".to_string()]);
    let present = vec![Some(8192u64)];
    let arts = cands[0].discovered_artifacts(&present);
    assert_eq!(arts.len(), 1);
    assert_eq!(arts[0].abs_path, "/w/p/target");
    assert_eq!(arts[0].size_bytes, 8192);
    assert!(cands[1].discovered_artifacts(&vec![None; 11]).is_empty());
}

#[test]
fn keep_project_applies_the_stale_filter() {
    let engine = ScanEngine::new(DetectorRegistry::default_all()).with_stale_filter(Some(30));
    assert_eq!(engine.stale_days_filter(), Some(30));
    let make = || ScanCandidate {
        root: "/w/r".to_string(),
        project_type: ProjectType::Rust,
        targets: Vec::new(),
    };
    let art = || {
        let c = ScanCandidate {
            root: "/w/r".to_string(),
            project_type: ProjectType::Rust,
            targets: sweep_rs::detectors::rust::RustDetector::new().get_artifacts("/w/r"),
        };
        c.discovered_artifacts(&vec![Some(4096)])
    };
    let old = GitInfo { last_commit_days: Some(45), is_dirty: false, status: GitStatus::Stale };
    let young = GitInfo { last_commit_days: Some(3), is_dirty: false, status: GitStatus::Active };
    assert!(engine.keep_project(make(), art(), Some(old)).is_some());
    assert!(engine.keep_project(make(), art(), Some(young)).is_none());
    assert!(engine.keep_project(make(), art(), None).is_none());
    assert!(engine.keep_project(make(), Vec::new(), Some(old)).is_none());
    let open = ScanEngine::new(DetectorRegistry::default_all());
    assert_eq!(open.stale_days_filter(), None);
    let kept = open.keep_project(make(), art(), None).unwrap();
    assert_eq!(kept.root, "/w/r");
    assert_eq!(kept.total_reclaimable_bytes(), 4096);
}

use sweep_rs::sweep_core::traits::ProjectDetector;

fn summary(ps: &[DiscoveredProject]) -> Vec<(String, ProjectType)> {
    ps.iter().map(|p| (p.root.clone(), p.project_type.clone())).collect()
}

#[test]
fn filters_narrow_a_whole_scan() {
    let now: i64 = 1_700_000_000;
    let day: i64 = 86_400;
    let mut t = Tree::new();
    t.file("/ws/old/Cargo.toml", 10);
    t.file("/ws/old/target/a", 10);
    t.file("/ws/old/package.json", 10);
    t.file("/ws/old/node_modules/b", 10);
    t.file("/ws/new/Cargo.toml", 10);
    t.file("/ws/new/target/a", 10);
    t.file("/ws/plain/Cargo.toml", 10);
    t.file("/ws/plain/target/a", 10);
    t.repos.insert("/ws/old".to_string(), RepoState { is_dirty: false, head_commit_time: Some(now - 40 * day) });
    t.repos.insert("/ws/new".to_string(), RepoState { is_dirty: false, head_commit_time: Some(now - day) });

    let (all, _) = t.scan(&ScanEngine::new(DetectorRegistry::default_all()), now);
    assert_eq!(all.len(), 4);

    let (stale, _) = t.scan(&ScanEngine::new(DetectorRegistry::default_all()).with_stale_filter(Some(30)), now);
    let expected: Vec<DiscoveredProject> = all
        .iter()
        .filter(|p| matches!(p.git_info, Some(GitInfo { last_commit_days: Some(d), .. }) if d >= 30))
        .cloned()
        .collect();
    assert_eq!(summary(&stale), summary(&expected));
    assert_eq!(stale.len(), 2);

    let (rust_only, _) = t.scan(&ScanEngine::new(DetectorRegistry::for_type("rust").unwrap()), now);
    let expected: Vec<DiscoveredProject> =
        all.iter().filter(|p| p.project_type == ProjectType::Rust).cloned().collect();
    assert_eq!(summary(&rust_only), summary(&expected));
    assert_eq!(rust_only.len(), 3);
}

#[test]
fn collect_directory_appends_the_kept_projects_in_registry_order() {
    let engine = ScanEngine::new(DetectorRegistry::default_all());
    let listing = DirListing {
        entries: vec![
            DirEntryInfo { name: "Cargo.toml".to_string(), is_file: true },
            DirEntryInfo { name: "package.json".to_string(), is_file: true },
        ],
    };
    let cands = engine.candidates_in("/ws/both", &listing);
    assert_eq!(cands.len(), 2);
    let mut present: Vec<Vec<Option<u64>>> = cands.iter().map(|c| vec![None; c.targets.len()]).collect();
    present[0][0] = Some(8192);
    let mut result = Vec::new();
    engine.collect_directory(&mut result, "/ws/both", &listing, &present, None);
    assert_eq!(result.len(), 1);
    assert_eq!(result[0].project_type, ProjectType::Rust);
    assert_eq!(result[0].artifacts[0].abs_path, "/ws/both/target");
    assert_eq!(result[0].artifacts[0].size_bytes, 8192);
    present[1][0] = Some(4096);
    engine.collect_directory(&mut result, "/ws/both", &listing, &present, None);
    assert_eq!(result.len(), 3);
    assert_eq!(result[2].project_type, ProjectType::Node);
}
