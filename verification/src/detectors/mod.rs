//! The built-in detectors and the registry that runs them over a directory.
pub mod cpp;
pub mod laws;
pub mod dotnet;
pub mod elixir;
pub mod flutter;
pub mod go;
pub mod java;
pub mod node;
pub mod php;
pub mod python;
pub mod ruby;
pub mod rust;
pub mod swift;

use vstd::prelude::*;

use self::cpp::CppDetector;
use self::dotnet::DotnetDetector;
use self::elixir::ElixirDetector;
use self::flutter::FlutterDetector;
use self::go::GoDetector;
use self::java::JavaDetector;
use self::node::NodeDetector;
use self::php::PhpDetector;
use self::python::PythonDetector;
use self::ruby::RubyDetector;
use self::rust::RustDetector;
use self::swift::SwiftDetector;
use crate::sweep_core::traits::ArtifactTarget;
use crate::sweep_core::traits::DirEntryInfo;
use crate::sweep_core::traits::DirListing;
use crate::sweep_core::traits::ProjectDetector;
use crate::sweep_core::traits::ProjectType;
use crate::text::concat;
use crate::text::lowercase;
use crate::text::str_eq;
use crate::text::to_lowercase;

verus! {

/// One of the built-in detectors.
#[derive(Debug, Clone, Copy)]
pub enum Detector {
    Rust(RustDetector),
    Node(NodeDetector),
    Python(PythonDetector),
    Dotnet(DotnetDetector),
    Java(JavaDetector),
    Go(GoDetector),
    Flutter(FlutterDetector),
    Php(PhpDetector),
    Ruby(RubyDetector),
    Cpp(CppDetector),
    Swift(SwiftDetector),
    Elixir(ElixirDetector),
}

impl ProjectDetector for Detector {
    open spec fn spec_name(&self) -> ProjectType {
        match self {
            Detector::Rust(d) => d.spec_name(),
            Detector::Node(d) => d.spec_name(),
            Detector::Python(d) => d.spec_name(),
            Detector::Dotnet(d) => d.spec_name(),
            Detector::Java(d) => d.spec_name(),
            Detector::Go(d) => d.spec_name(),
            Detector::Flutter(d) => d.spec_name(),
            Detector::Php(d) => d.spec_name(),
            Detector::Ruby(d) => d.spec_name(),
            Detector::Cpp(d) => d.spec_name(),
            Detector::Swift(d) => d.spec_name(),
            Detector::Elixir(d) => d.spec_name(),
        }
    }

    open spec fn spec_detect(&self, entries: Seq<DirEntryInfo>) -> bool {
        match self {
            Detector::Rust(d) => d.spec_detect(entries),
            Detector::Node(d) => d.spec_detect(entries),
            Detector::Python(d) => d.spec_detect(entries),
            Detector::Dotnet(d) => d.spec_detect(entries),
            Detector::Java(d) => d.spec_detect(entries),
            Detector::Go(d) => d.spec_detect(entries),
            Detector::Flutter(d) => d.spec_detect(entries),
            Detector::Php(d) => d.spec_detect(entries),
            Detector::Ruby(d) => d.spec_detect(entries),
            Detector::Cpp(d) => d.spec_detect(entries),
            Detector::Swift(d) => d.spec_detect(entries),
            Detector::Elixir(d) => d.spec_detect(entries),
        }
    }

    open spec fn spec_targets(&self) -> Seq<(Seq<char>, Seq<char>, bool)> {
        match self {
            Detector::Rust(d) => d.spec_targets(),
            Detector::Node(d) => d.spec_targets(),
            Detector::Python(d) => d.spec_targets(),
            Detector::Dotnet(d) => d.spec_targets(),
            Detector::Java(d) => d.spec_targets(),
            Detector::Go(d) => d.spec_targets(),
            Detector::Flutter(d) => d.spec_targets(),
            Detector::Php(d) => d.spec_targets(),
            Detector::Ruby(d) => d.spec_targets(),
            Detector::Cpp(d) => d.spec_targets(),
            Detector::Swift(d) => d.spec_targets(),
            Detector::Elixir(d) => d.spec_targets(),
        }
    }

    fn name(&self) -> (r: ProjectType) {
        match self {
            Detector::Rust(d) => d.name(),
            Detector::Node(d) => d.name(),
            Detector::Python(d) => d.name(),
            Detector::Dotnet(d) => d.name(),
            Detector::Java(d) => d.name(),
            Detector::Go(d) => d.name(),
            Detector::Flutter(d) => d.name(),
            Detector::Php(d) => d.name(),
            Detector::Ruby(d) => d.name(),
            Detector::Cpp(d) => d.name(),
            Detector::Swift(d) => d.name(),
            Detector::Elixir(d) => d.name(),
        }
    }

    fn detect(&self, dir: &DirListing) -> (r: bool) {
        match self {
            Detector::Rust(d) => d.detect(dir),
            Detector::Node(d) => d.detect(dir),
            Detector::Python(d) => d.detect(dir),
            Detector::Dotnet(d) => d.detect(dir),
            Detector::Java(d) => d.detect(dir),
            Detector::Go(d) => d.detect(dir),
            Detector::Flutter(d) => d.detect(dir),
            Detector::Php(d) => d.detect(dir),
            Detector::Ruby(d) => d.detect(dir),
            Detector::Cpp(d) => d.detect(dir),
            Detector::Swift(d) => d.detect(dir),
            Detector::Elixir(d) => d.detect(dir),
        }
    }

    fn get_artifacts(&self, project_root: &str) -> (r: Vec<ArtifactTarget>) {
        match self {
            Detector::Rust(d) => d.get_artifacts(project_root),
            Detector::Node(d) => d.get_artifacts(project_root),
            Detector::Python(d) => d.get_artifacts(project_root),
            Detector::Dotnet(d) => d.get_artifacts(project_root),
            Detector::Java(d) => d.get_artifacts(project_root),
            Detector::Go(d) => d.get_artifacts(project_root),
            Detector::Flutter(d) => d.get_artifacts(project_root),
            Detector::Php(d) => d.get_artifacts(project_root),
            Detector::Ruby(d) => d.get_artifacts(project_root),
            Detector::Cpp(d) => d.get_artifacts(project_root),
            Detector::Swift(d) => d.get_artifacts(project_root),
            Detector::Elixir(d) => d.get_artifacts(project_root),
        }
    }
}

/// The twelve built-in detectors in the order in which a full scan runs them.
pub open spec fn all_detectors() -> Seq<Detector> {
    seq![
        Detector::Rust(RustDetector),
        Detector::Node(NodeDetector),
        Detector::Python(PythonDetector),
        Detector::Dotnet(DotnetDetector),
        Detector::Java(JavaDetector),
        Detector::Go(GoDetector),
        Detector::Flutter(FlutterDetector),
        Detector::Php(PhpDetector),
        Detector::Ruby(RubyDetector),
        Detector::Cpp(CppDetector),
        Detector::Swift(SwiftDetector),
        Detector::Elixir(ElixirDetector),
    ]
}

/// The detectors that a (lower-case) type filter selects, or none for an
/// unknown filter.
pub open spec fn detectors_for(filter: Seq<char>) -> Option<Seq<Detector>> {
    if filter == "all"@ {
        Some(all_detectors())
    } else if filter == "rust"@ {
        Some(seq![Detector::Rust(RustDetector)])
    } else if filter == "node"@ || filter == "nodejs"@ || filter == "javascript"@ || filter
        == "js"@ || filter == "typescript"@ || filter == "ts"@ {
        Some(seq![Detector::Node(NodeDetector)])
    } else if filter == "python"@ || filter == "py"@ {
        Some(seq![Detector::Python(PythonDetector)])
    } else if filter == "dotnet"@ || filter == ".net"@ || filter == "csharp"@ || filter == "cs"@ {
        Some(seq![Detector::Dotnet(DotnetDetector)])
    } else if filter == "java"@ || filter == "jvm"@ {
        Some(seq![Detector::Java(JavaDetector)])
    } else if filter == "go"@ || filter == "golang"@ {
        Some(seq![Detector::Go(GoDetector)])
    } else if filter == "flutter"@ || filter == "dart"@ {
        Some(seq![Detector::Flutter(FlutterDetector)])
    } else if filter == "php"@ || filter == "composer"@ {
        Some(seq![Detector::Php(PhpDetector)])
    } else if filter == "ruby"@ || filter == "rb"@ || filter == "rails"@ {
        Some(seq![Detector::Ruby(RubyDetector)])
    } else if filter == "cpp"@ || filter == "c"@ || filter == "c++"@ || filter == "cmake"@ {
        Some(seq![Detector::Cpp(CppDetector)])
    } else if filter == "swift"@ || filter == "apple"@ || filter == "xcode"@ {
        Some(seq![Detector::Swift(SwiftDetector)])
    } else if filter == "elixir"@ || filter == "ex"@ || filter == "mix"@ {
        Some(seq![Detector::Elixir(ElixirDetector)])
    } else {
        None
    }
}

/// The message for a type filter that names no ecosystem.
pub open spec fn unknown_type_message(filter: Seq<char>) -> Seq<char> {
    "Unknown project type '"@ + filter
        + "'. Available types: all, rust, node, python, dotnet, java, go, flutter, php, ruby, cpp, swift, elixir"@
}

/// The detectors of `ds` that recognise a directory with `entries`, in order.
pub open spec fn matching_detectors<D: ProjectDetector>(ds: Seq<D>, entries: Seq<DirEntryInfo>) -> Seq<D>
    decreases ds.len(),
{
    if ds.len() == 0 {
        Seq::empty()
    } else {
        let rest = matching_detectors(ds.drop_last(), entries);
        if ds.last().spec_detect(entries) {
            rest.push(ds.last())
        } else {
            rest
        }
    }
}

/// An ordered collection of detectors: the built-in ones, or detectors of
/// a type of the caller's that implements `ProjectDetector`.
#[derive(Debug)]
pub struct DetectorRegistry<D = Detector> {
    detectors: Vec<D>,
}

impl<D> View for DetectorRegistry<D> {
    type V = Seq<D>;

    closed spec fn view(&self) -> Seq<D> {
        self.detectors@
    }
}

impl<D> DetectorRegistry<D> {
    /// A registry without detectors.
    pub fn new() -> (r: Self)
        ensures
            r@ == Seq::<D>::empty(),
    {
        DetectorRegistry { detectors: Vec::new() }
    }

    /// The registry with `detector` added last.
    pub fn register(self, detector: D) -> (r: Self)
        ensures
            r@ == self@.push(detector),
    {
        let mut detectors = self.detectors;
        detectors.push(detector);
        DetectorRegistry { detectors }
    }

    /// The registered detectors, in order.
    pub fn detectors(&self) -> (r: &[D])
        ensures
            r@ == self@,
    {
        self.detectors.as_slice()
    }
}

impl DetectorRegistry<Detector> {
    /// A registry of all twelve built-in detectors.
    pub fn default_all() -> (r: Self)
        ensures
            r@ == all_detectors(),
    {
        let r = Self::new().register(Detector::Rust(RustDetector::new())).register(
            Detector::Node(NodeDetector::new()),
        ).register(Detector::Python(PythonDetector::new())).register(
            Detector::Dotnet(DotnetDetector::new()),
        ).register(Detector::Java(JavaDetector::new())).register(
            Detector::Go(GoDetector::new()),
        ).register(Detector::Flutter(FlutterDetector::new())).register(
            Detector::Php(PhpDetector::new()),
        ).register(Detector::Ruby(RubyDetector::new())).register(
            Detector::Cpp(CppDetector::new()),
        ).register(Detector::Swift(SwiftDetector::new())).register(
            Detector::Elixir(ElixirDetector::new()),
        );
        assert(r@ == all_detectors());
        r
    }

    /// A registry of one detector.
    fn single(detector: Detector) -> (r: Self)
        ensures
            r@ == seq![detector],
    {
        let r = Self::new().register(detector);
        assert(r@ == seq![detector]);
        r
    }

    /// The registry that an already lower-cased type filter selects.
    pub fn for_lowercase_type(filter: &str) -> (r: Result<Self, String>)
        ensures
            match detectors_for(filter@) {
                Some(ds) => r matches Ok(reg) && reg@ == ds,
                None => r matches Err(msg) && msg@ == unknown_type_message(filter@),
            },
    {
        let f = filter;
        if str_eq(f, "all") {
            Ok(Self::default_all())
        } else if str_eq(f, "rust") {
            Ok(Self::single(Detector::Rust(RustDetector::new())))
        } else if str_eq(f, "node") || str_eq(f, "nodejs") || str_eq(f, "javascript") || str_eq(
            f,
            "js",
        ) || str_eq(f, "typescript") || str_eq(f, "ts") {
            Ok(Self::single(Detector::Node(NodeDetector::new())))
        } else if str_eq(f, "python") || str_eq(f, "py") {
            Ok(Self::single(Detector::Python(PythonDetector::new())))
        } else if str_eq(f, "dotnet") || str_eq(f, ".net") || str_eq(f, "csharp") || str_eq(
            f,
            "cs",
        ) {
            Ok(Self::single(Detector::Dotnet(DotnetDetector::new())))
        } else if str_eq(f, "java") || str_eq(f, "jvm") {
            Ok(Self::single(Detector::Java(JavaDetector::new())))
        } else if str_eq(f, "go") || str_eq(f, "golang") {
            Ok(Self::single(Detector::Go(GoDetector::new())))
        } else if str_eq(f, "flutter") || str_eq(f, "dart") {
            Ok(Self::single(Detector::Flutter(FlutterDetector::new())))
        } else if str_eq(f, "php") || str_eq(f, "composer") {
            Ok(Self::single(Detector::Php(PhpDetector::new())))
        } else if str_eq(f, "ruby") || str_eq(f, "rb") || str_eq(f, "rails") {
            Ok(Self::single(Detector::Ruby(RubyDetector::new())))
        } else if str_eq(f, "cpp") || str_eq(f, "c") || str_eq(f, "c++") || str_eq(f, "cmake") {
            Ok(Self::single(Detector::Cpp(CppDetector::new())))
        } else if str_eq(f, "swift") || str_eq(f, "apple") || str_eq(f, "xcode") {
            Ok(Self::single(Detector::Swift(SwiftDetector::new())))
        } else if str_eq(f, "elixir") || str_eq(f, "ex") || str_eq(f, "mix") {
            Ok(Self::single(Detector::Elixir(ElixirDetector::new())))
        } else {
            let head = concat("Unknown project type '", filter);
            Err(
                concat(
                    head.as_str(),
                    "'. Available types: all, rust, node, python, dotnet, java, go, flutter, php, ruby, cpp, swift, elixir",
                ),
            )
        }
    }

    /// The registry that a type filter selects, compared without regard to case.
    pub fn for_type(filter: &str) -> (r: Result<Self, String>)
        ensures
            match detectors_for(lowercase(filter@)) {
                Some(ds) => r matches Ok(reg) && reg@ == ds,
                None => r matches Err(msg) && msg@ == unknown_type_message(lowercase(filter@)),
            },
    {
        let lower = to_lowercase(filter);
        Self::for_lowercase_type(lower.as_str())
    }

}

impl<D: ProjectDetector> DetectorRegistry<D> {
    /// The registered detectors that recognise the directory, in order.
    pub fn detect_all<'a>(&'a self, dir: &DirListing) -> (r: Vec<&'a D>)
        ensures
            r@.len() == matching_detectors(self@, dir.entries@).len(),
            forall|k: int|
                0 <= k < r@.len() ==> *r@[k] == matching_detectors(self@, dir.entries@)[k],
    {
        let mut out: Vec<&'a D> = Vec::new();
        let mut i: usize = 0;
        while i < self.detectors.len()
            invariant
                i <= self@.len(),
                out@.len() == matching_detectors(self@.take(i as int), dir.entries@).len(),
                forall|k: int|
                    0 <= k < out@.len() ==> *out@[k] == matching_detectors(
                        self@.take(i as int),
                        dir.entries@,
                    )[k],
            decreases self.detectors.len() - i,
        {
            assert(self@.take(i + 1).drop_last() == self@.take(i as int));
            assert(self@.take(i + 1).last() == self@[i as int]);
            let d = &self.detectors[i];
            if d.detect(dir) {
                out.push(d);
            }
            i = i + 1;
        }
        assert(self@.take(i as int) == self@);
        out
    }
}

impl Default for DetectorRegistry<Detector> {
    fn default() -> (r: Self)
        ensures
            r@ == all_detectors(),
    {
        Self::default_all()
    }
}

} // verus!
