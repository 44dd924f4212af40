use sweep_rs::detectors::Detector;
use sweep_rs::detectors::DetectorRegistry;
use sweep_rs::detectors::rust::RustDetector;
use sweep_rs::detectors::node::NodeDetector;
use sweep_rs::sweep_core::traits::DirEntryInfo;
use sweep_rs::sweep_core::traits::DirListing;
use sweep_rs::sweep_core::traits::ProjectDetector;
use sweep_rs::sweep_core::traits::ProjectType;

fn dir_with_files(files: &[&str]) -> DirListing {
    DirListing {
        entries: files
            .iter()
            .map(|f| DirEntryInfo { name: f.to_string(), is_file: true })
            .collect(),
    }
}

fn names(reg: &DetectorRegistry) -> Vec<ProjectType> {
    reg.detectors().iter().map(|d| d.name()).collect()
}

#[test]
fn default_registry_holds_all_twelve_in_order() {
    let reg = DetectorRegistry::default_all();
    assert_eq!(
        names(&reg),
        vec![
            ProjectType::Rust,
            ProjectType::Node,
            ProjectType::Python,
            ProjectType::Dotnet,
            ProjectType::Java,
            ProjectType::Go,
            ProjectType::Flutter,
            ProjectType::Php,
            ProjectType::Ruby,
            ProjectType::Cpp,
            ProjectType::Swift,
            ProjectType::Elixir,
        ]
    );
    assert_eq!(names(&DetectorRegistry::default()), names(&reg));
}

#[test]
fn for_type_selects_by_alias_without_case() {
    assert_eq!(names(&DetectorRegistry::for_type("all").unwrap()).len(), 12);
    assert_eq!(names(&DetectorRegistry::for_type("ALL").unwrap()).len(), 12);
    assert_eq!(names(&DetectorRegistry::for_type("rust").unwrap()), vec![ProjectType::Rust]);
    assert_eq!(names(&DetectorRegistry::for_type("TypeScript").unwrap()), vec![ProjectType::Node]);
    assert_eq!(names(&DetectorRegistry::for_type("py").unwrap()), vec![ProjectType::Python]);
    assert_eq!(names(&DetectorRegistry::for_type(".NET").unwrap()), vec![ProjectType::Dotnet]);
    assert_eq!(names(&DetectorRegistry::for_type("jvm").unwrap()), vec![ProjectType::Java]);
    assert_eq!(names(&DetectorRegistry::for_type("golang").unwrap()), vec![ProjectType::Go]);
    assert_eq!(names(&DetectorRegistry::for_type("dart").unwrap()), vec![ProjectType::Flutter]);
    assert_eq!(names(&DetectorRegistry::for_type("composer").unwrap()), vec![ProjectType::Php]);
    assert_eq!(names(&DetectorRegistry::for_type("rails").unwrap()), vec![ProjectType::Ruby]);
    assert_eq!(names(&DetectorRegistry::for_type("C++").unwrap()), vec![ProjectType::Cpp]);
    assert_eq!(names(&DetectorRegistry::for_type("xcode").unwrap()), vec![ProjectType::Swift]);
    assert_eq!(names(&DetectorRegistry::for_type("mix").unwrap()), vec![ProjectType::Elixir]);
}

#[test]
fn for_type_rejects_unknown_names() {
    let err = DetectorRegistry::for_type("Cobol").unwrap_err();
    assert_eq!(
        err,
        "Unknown project type 'cobol'. Available types: all, rust, node, python, dotnet, java, go, flutter, php, ruby, cpp, swift, elixir"
    );
    assert!(DetectorRegistry::for_type("").is_err());
    assert!(DetectorRegistry::for_type(" rust").is_err());
}

#[test]
fn detect_all_keeps_registry_order() {
    let reg = DetectorRegistry::new()
        .register(Detector::Node(NodeDetector::new()))
        .register(Detector::Rust(RustDetector::new()));
    let dir = dir_with_files(&["Cargo.toml", "package.json"]);
    let found: Vec<ProjectType> = reg.detect_all(&dir).iter().map(|d| d.name()).collect();
    assert_eq!(found, vec![ProjectType::Node, ProjectType::Rust]);
    let only_rust = dir_with_files(&["Cargo.toml"]);
    assert_eq!(reg.detect_all(&only_rust).len(), 1);
    assert!(reg.detect_all(&dir_with_files(&["notes.txt"])).is_empty());
}

/// A detector of the caller's own, as the README describes one.
struct GoModDetector;

impl ProjectDetector for GoModDetector {
    // The specification functions serve the verifier only; compiled code never calls them.
    fn spec_name(&self) -> ProjectType {
        unreachable!()
    }

    fn spec_detect(&self, _entries: vstd::seq::Seq<DirEntryInfo>) -> bool {
        unreachable!()
    }

    fn spec_targets(&self) -> vstd::seq::Seq<(vstd::seq::Seq<char>, vstd::seq::Seq<char>, bool)> {
        unreachable!()
    }

    fn name(&self) -> ProjectType {
        ProjectType::Custom("Go".to_string())
    }

    fn detect(&self, dir: &DirListing) -> bool {
        dir.has_file("go.mod")
    }

    fn get_artifacts(&self, _project_root: &str) -> Vec<sweep_rs::sweep_core::traits::ArtifactTarget> {
        vec![sweep_rs::sweep_core::traits::ArtifactTarget::at("bin")]
    }
}

#[test]
fn registry_runs_a_detector_of_the_callers_own() {
    let reg = DetectorRegistry::new().register(GoModDetector);
    assert_eq!(reg.detectors().len(), 1);
    let hits = reg.detect_all(&dir_with_files(&["go.mod", "main.go"]));
    assert_eq!(hits.len(), 1);
    assert_eq!(hits[0].name(), ProjectType::Custom("Go".to_string()));
    assert_eq!(hits[0].get_artifacts("/w/app")[0].rel_path, "bin");
    assert!(reg.detect_all(&dir_with_files(&["Cargo.toml"])).is_empty());
    let engine = sweep_rs::sweep_core::engine::ScanEngine::new(reg);
    let cands = engine.candidates_in("/w/app", &dir_with_files(&["go.mod"]));
    assert_eq!(cands.len(), 1);
    assert_eq!(cands[0].project_type, ProjectType::Custom("Go".to_string()));
}
