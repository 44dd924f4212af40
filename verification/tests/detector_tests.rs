use sweep_rs::detectors::cpp::CppDetector;
use sweep_rs::detectors::elixir::ElixirDetector;
use sweep_rs::detectors::flutter::FlutterDetector;
use sweep_rs::detectors::go::GoDetector;
use sweep_rs::detectors::java::JavaDetector;
use sweep_rs::detectors::node::NodeDetector;
use sweep_rs::detectors::php::PhpDetector;
use sweep_rs::detectors::python::PythonDetector;
use sweep_rs::detectors::ruby::RubyDetector;
use sweep_rs::detectors::rust::RustDetector;
use sweep_rs::detectors::swift::SwiftDetector;
use sweep_rs::detectors::dotnet::DotnetDetector;
use sweep_rs::sweep_core::traits::DirEntryInfo;
use sweep_rs::sweep_core::traits::DirListing;
use sweep_rs::sweep_core::traits::ProjectDetector;
use sweep_rs::sweep_core::traits::ProjectType;

/// A directory holding the given regular files.
fn dir_with_files(files: &[&str]) -> DirListing {
    DirListing {
        entries: files
            .iter()
            .map(|f| DirEntryInfo { name: f.to_string(), is_file: true })
            .collect(),
    }
}

/// A directory as a fresh temporary directory is: empty.
fn empty_dir() -> DirListing {
    DirListing { entries: Vec::new() }
}

#[test]
fn test_detect_cpp_project() {
    let dir = dir_with_files(&["CMakeLists.txt"]);

    let detector = CppDetector::new();
    assert!(detector.detect(&dir));
    assert_eq!(detector.name(), ProjectType::Cpp);

    let artifacts = detector.get_artifacts("/tmp/project");
    assert_eq!(artifacts.len(), 3);
    assert_eq!(artifacts[0].name, "build");
}

#[test]
fn test_detect_non_cpp_project() {
    let detector = CppDetector::new();
    assert!(!detector.detect(&empty_dir()));
}

#[test]
fn test_detect_elixir_project() {
    let dir = dir_with_files(&["mix.exs"]);

    let detector = ElixirDetector::new();
    assert!(detector.detect(&dir));
    assert_eq!(detector.name(), ProjectType::Elixir);

    let artifacts = detector.get_artifacts("/tmp/project");
    assert_eq!(artifacts.len(), 2);
    assert_eq!(artifacts[0].name, "_build");
}

#[test]
fn test_detect_non_elixir_project() {
    let detector = ElixirDetector::new();
    assert!(!detector.detect(&empty_dir()));
}

#[test]
fn test_detect_flutter_project() {
    let dir = dir_with_files(&["pubspec.yaml"]);

    let detector = FlutterDetector::new();
    assert!(detector.detect(&dir));
    assert_eq!(detector.name(), ProjectType::Flutter);

    let artifacts = detector.get_artifacts("/tmp/project");
    assert_eq!(artifacts.len(), 4);
    assert_eq!(artifacts[0].name, ".dart_tool");
}

#[test]
fn test_detect_non_flutter_project() {
    let detector = FlutterDetector::new();
    assert!(!detector.detect(&empty_dir()));
}

#[test]
fn test_detect_go_project() {
    let dir = dir_with_files(&["go.mod"]);

    let detector = GoDetector::new();
    assert!(detector.detect(&dir));
    assert_eq!(detector.name(), ProjectType::Go);

    let artifacts = detector.get_artifacts("/tmp/project");
    assert_eq!(artifacts.len(), 3);
    assert_eq!(artifacts[0].name, "bin");
}

#[test]
fn test_detect_non_go_project() {
    let detector = GoDetector::new();
    assert!(!detector.detect(&empty_dir()));
}

#[test]
fn test_detect_maven_project() {
    let dir = dir_with_files(&["pom.xml"]);

    let detector = JavaDetector::new();
    assert!(detector.detect(&dir));
    assert_eq!(detector.name(), ProjectType::Java);

    let artifacts = detector.get_artifacts("/tmp/project");
    assert_eq!(artifacts.len(), 4);
}

#[test]
fn test_detect_gradle_project() {
    let dir = dir_with_files(&["build.gradle"]);

    let detector = JavaDetector::new();
    assert!(detector.detect(&dir));
    assert_eq!(detector.name(), ProjectType::Java);
}

#[test]
fn test_detect_non_java_project() {
    let detector = JavaDetector::new();
    assert!(!detector.detect(&empty_dir()));
}

#[test]
fn test_detect_node_project() {
    let dir = dir_with_files(&["package.json"]);

    let detector = NodeDetector::new();
    assert!(detector.detect(&dir));
    assert_eq!(detector.name(), ProjectType::Node);

    let artifacts = detector.get_artifacts("/tmp/project");
    assert_eq!(artifacts.len(), 11);
    assert_eq!(artifacts[0].name, "node_modules");
    assert_eq!(artifacts[0].rel_path, "node_modules");
}

#[test]
fn test_detect_non_node_project() {
    let detector = NodeDetector::new();
    assert!(!detector.detect(&empty_dir()));
}

#[test]
fn test_detect_php_project() {
    let dir = dir_with_files(&["composer.json"]);

    let detector = PhpDetector::new();
    assert!(detector.detect(&dir));
    assert_eq!(detector.name(), ProjectType::Php);

    let artifacts = detector.get_artifacts("/tmp/project");
    assert_eq!(artifacts.len(), 1);
    assert_eq!(artifacts[0].name, "vendor");
}

#[test]
fn test_detect_non_php_project() {
    let detector = PhpDetector::new();
    assert!(!detector.detect(&empty_dir()));
}

#[test]
fn test_detect_python_project() {
    let dir = dir_with_files(&["pyproject.toml"]);

    let detector = PythonDetector::new();
    assert!(detector.detect(&dir));
    assert_eq!(detector.name(), ProjectType::Python);

    let artifacts = detector.get_artifacts("/tmp/project");
    assert_eq!(artifacts.len(), 8);
    assert_eq!(artifacts[0].name, ".venv");
}

#[test]
fn test_detect_non_python_project() {
    let detector = PythonDetector::new();
    assert!(!detector.detect(&empty_dir()));
}

#[test]
fn test_detect_ruby_project() {
    let dir = dir_with_files(&["Gemfile"]);

    let detector = RubyDetector::new();
    assert!(detector.detect(&dir));
    assert_eq!(detector.name(), ProjectType::Ruby);

    let artifacts = detector.get_artifacts("/tmp/project");
    assert_eq!(artifacts.len(), 2);
}

#[test]
fn test_detect_non_ruby_project() {
    let detector = RubyDetector::new();
    assert!(!detector.detect(&empty_dir()));
}

#[test]
fn test_detect_rust_project() {
    let dir = dir_with_files(&["Cargo.toml"]);

    let detector = RustDetector::new();
    assert!(detector.detect(&dir));
    assert_eq!(detector.name(), ProjectType::Rust);

    let artifacts = detector.get_artifacts("/tmp/project");
    assert_eq!(artifacts.len(), 1);
    assert_eq!(artifacts[0].name, "target");
    assert_eq!(artifacts[0].rel_path, "target");
}

#[test]
fn test_detect_non_rust_project() {
    let detector = RustDetector::new();
    assert!(!detector.detect(&empty_dir()));
}

#[test]
fn test_detect_swift_project() {
    let dir = dir_with_files(&["Package.swift"]);

    let detector = SwiftDetector::new();
    assert!(detector.detect(&dir));
    assert_eq!(detector.name(), ProjectType::Swift);

    let artifacts = detector.get_artifacts("/tmp/project");
    assert_eq!(artifacts.len(), 2);
    assert_eq!(artifacts[0].name, ".build");
}

#[test]
fn test_detect_non_swift_project() {
    let detector = SwiftDetector::new();
    assert!(!detector.detect(&empty_dir()));
}

#[test]
fn marker_must_be_a_regular_file() {
    let dir = DirListing {
        entries: vec![DirEntryInfo { name: "Cargo.toml".to_string(), is_file: false }],
    };
    assert!(!RustDetector::new().detect(&dir));
}

#[test]
fn dotnet_detects_project_extensions() {
    let d = DotnetDetector::new();
    assert!(d.detect(&dir_with_files(&["tool.csproj"])));
    assert!(d.detect(&dir_with_files(&["app.sln"])));
    assert!(d.detect(&dir_with_files(&["lib.fsproj"])));
    assert!(!d.detect(&dir_with_files(&[".csproj"])));
    assert!(!d.detect(&dir_with_files(&["tool.csproj.bak"])));
    assert!(!d.detect(&empty_dir()));
    let dir_entry = DirListing {
        entries: vec![DirEntryInfo { name: "Folder.sln".to_string(), is_file: false }],
    };
    assert!(!d.detect(&dir_entry));
    assert_eq!(d.name(), ProjectType::Dotnet);
    let artifacts = d.get_artifacts("/p");
    assert_eq!(artifacts.len(), 2);
    assert_eq!(artifacts[1].name, "obj");
}

#[test]
fn swift_detects_xcode_projects() {
    let d = SwiftDetector::new();
    let xcode = DirListing {
        entries: vec![DirEntryInfo { name: "App.xcodeproj".to_string(), is_file: false }],
    };
    assert!(d.detect(&xcode));
    assert!(d.detect(&dir_with_files(&["App.xcworkspace"])));
    assert!(!d.detect(&dir_with_files(&["App.xcodeproj.zip"])));
}

#[test]
fn ruby_bundle_lies_below_vendor() {
    let artifacts = RubyDetector::new().get_artifacts("/r");
    assert_eq!(artifacts[0].name, "vendor");
    assert_eq!(artifacts[0].rel_path, "vendor/bundle");
    assert_eq!(artifacts[1].rel_path, ".bundle");
    assert!(artifacts.iter().all(|a| a.is_reconstructible));
}

#[test]
fn every_node_marker_is_recognised() {
    let d = NodeDetector::new();
    for marker in ["package.json", "pnpm-workspace.yaml", "bun.lockb", "bun.lock", "deno.json", "deno.jsonc"] {
        assert!(d.detect(&dir_with_files(&["README.md", marker])), "{}", marker);
    }
    assert!(!d.detect(&dir_with_files(&["package.json.bak"])));
}
