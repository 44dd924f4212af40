//! Safety facts that tie the detectors to the cleaner's whitelist.
use vstd::prelude::*;

use crate::detectors::all_detectors;
use crate::detectors::detectors_for;
use crate::detectors::Detector;
use crate::detectors::rust::RustDetector;
use crate::detectors::node::NodeDetector;
use crate::detectors::python::PythonDetector;
use crate::detectors::dotnet::DotnetDetector;
use crate::detectors::java::JavaDetector;
use crate::detectors::go::GoDetector;
use crate::detectors::flutter::FlutterDetector;
use crate::detectors::php::PhpDetector;
use crate::detectors::ruby::RubyDetector;
use crate::detectors::cpp::CppDetector;
use crate::detectors::swift::SwiftDetector;
use crate::detectors::elixir::ElixirDetector;
use crate::paths::is_plain_name;
use crate::paths::lemma_file_name_of_join;
use crate::paths::spec_file_name;
use crate::paths::spec_join;
use crate::sweep_core::cleaner::is_uuid_v4_text;
use crate::sweep_core::cleaner::is_whitelisted;
use crate::sweep_core::cleaner::trash_prefix;
use crate::sweep_core::cleaner::WHITELIST_ARTIFACT_NAMES;
use crate::sweep_core::traits::DirEntryInfo;
use crate::sweep_core::traits::has_extension;
use crate::sweep_core::traits::ProjectDetector;
use crate::text::ends_with_seq;

verus! {

/// The whitelisted names, and that each of them is one plain path component.
pub proof fn lemma_whitelist_names(name: Seq<char>)
    requires

        name == "target"@
        || name == "node_modules"@
        || name == "bin"@
        || name == "obj"@
        || name == ".venv"@
        || name == "venv"@
        || name == "__pycache__"@
        || name == ".cache"@
        || name == "build"@
        || name == ".gradle"@
        || name == "out"@
        || name == ".next"@
        || name == ".nuxt"@
        || name == "dist"@
        || name == ".turbo"@
        || name == ".svelte-kit"@
        || name == ".astro"@
        || name == ".output"@
        || name == ".parcel-cache"@
        || name == ".angular"@
        || name == ".dart_tool"@
        || name == ".flutter-plugins"@
        || name == ".flutter-plugins-dependencies"@
        || name == "vendor"@
        || name == ".bundle"@
        || name == "_build"@
        || name == "deps"@
        || name == "cmake-build-debug"@
        || name == "cmake-build-release"@
        || name == ".build"@
        || name == "DerivedData"@
        || name == ".pytest_cache"@
        || name == ".mypy_cache"@
        || name == ".ruff_cache"@
        || name == "bundle"@,
    ensures
        is_plain_name(name),
        is_whitelisted(name),
{
    reveal_strlit("target");
    reveal_strlit("node_modules");
    reveal_strlit("bin");
    reveal_strlit("obj");
    reveal_strlit(".venv");
    reveal_strlit("venv");
    reveal_strlit("__pycache__");
    reveal_strlit(".cache");
    reveal_strlit("build");
    reveal_strlit(".gradle");
    reveal_strlit("out");
    reveal_strlit(".next");
    reveal_strlit(".nuxt");
    reveal_strlit("dist");
    reveal_strlit(".turbo");
    reveal_strlit(".svelte-kit");
    reveal_strlit(".astro");
    reveal_strlit(".output");
    reveal_strlit(".parcel-cache");
    reveal_strlit(".angular");
    reveal_strlit(".dart_tool");
    reveal_strlit(".flutter-plugins");
    reveal_strlit(".flutter-plugins-dependencies");
    reveal_strlit("vendor");
    reveal_strlit(".bundle");
    reveal_strlit("_build");
    reveal_strlit("deps");
    reveal_strlit("cmake-build-debug");
    reveal_strlit("cmake-build-release");
    reveal_strlit(".build");
    reveal_strlit("DerivedData");
    reveal_strlit(".pytest_cache");
    reveal_strlit(".mypy_cache");
    reveal_strlit(".ruff_cache");
    reveal_strlit("bundle");
    let w = WHITELIST_ARTIFACT_NAMES;
    if name == "target"@ {
        assert(w@[0]@ == name);
    } else if name == "node_modules"@ {
        assert(w@[1]@ == name);
    } else if name == "bin"@ {
        assert(w@[2]@ == name);
    } else if name == "obj"@ {
        assert(w@[3]@ == name);
    } else if name == ".venv"@ {
        assert(w@[4]@ == name);
    } else if name == "venv"@ {
        assert(w@[5]@ == name);
    } else if name == "__pycache__"@ {
        assert(w@[6]@ == name);
    } else if name == ".cache"@ {
        assert(w@[7]@ == name);
    } else if name == "build"@ {
        assert(w@[8]@ == name);
    } else if name == ".gradle"@ {
        assert(w@[9]@ == name);
    } else if name == "out"@ {
        assert(w@[10]@ == name);
    } else if name == ".next"@ {
        assert(w@[11]@ == name);
    } else if name == ".nuxt"@ {
        assert(w@[12]@ == name);
    } else if name == "dist"@ {
        assert(w@[13]@ == name);
    } else if name == ".turbo"@ {
        assert(w@[14]@ == name);
    } else if name == ".svelte-kit"@ {
        assert(w@[15]@ == name);
    } else if name == ".astro"@ {
        assert(w@[16]@ == name);
    } else if name == ".output"@ {
        assert(w@[17]@ == name);
    } else if name == ".parcel-cache"@ {
        assert(w@[18]@ == name);
    } else if name == ".angular"@ {
        assert(w@[19]@ == name);
    } else if name == ".dart_tool"@ {
        assert(w@[20]@ == name);
    } else if name == ".flutter-plugins"@ {
        assert(w@[21]@ == name);
    } else if name == ".flutter-plugins-dependencies"@ {
        assert(w@[22]@ == name);
    } else if name == "vendor"@ {
        assert(w@[23]@ == name);
    } else if name == ".bundle"@ {
        assert(w@[24]@ == name);
    } else if name == "_build"@ {
        assert(w@[25]@ == name);
    } else if name == "deps"@ {
        assert(w@[26]@ == name);
    } else if name == "cmake-build-debug"@ {
        assert(w@[27]@ == name);
    } else if name == "cmake-build-release"@ {
        assert(w@[28]@ == name);
    } else if name == ".build"@ {
        assert(w@[29]@ == name);
    } else if name == "DerivedData"@ {
        assert(w@[30]@ == name);
    } else if name == ".pytest_cache"@ {
        assert(w@[31]@ == name);
    } else if name == ".mypy_cache"@ {
        assert(w@[32]@ == name);
    } else if name == ".ruff_cache"@ {
        assert(w@[33]@ == name);
    } else if name == "bundle"@ {
        assert(w@[34]@ == name);
    }
}

/// Every artifact that a built-in detector reports ends in a whitelisted
/// name below any project root: the cleaner's whitelist check accepts every
/// artifact that a scan finds.
pub proof fn lemma_detector_targets_whitelisted(d: Detector, k: int, root: Seq<char>)
    requires
        0 <= k < d.spec_targets().len(),
    ensures
        spec_file_name(spec_join(root, d.spec_targets()[k].1)) matches Some(n) && is_whitelisted(n),
{
    let rel = d.spec_targets()[k].1;
    match d {
        Detector::Rust(_) => {
            if k == 0 {
                assert(rel == "target"@);
            }
        },
        Detector::Node(_) => {
            if k == 0 {
                assert(rel == "node_modules"@);
            }
            if k == 1 {
                assert(rel == ".next"@);
            }
            if k == 2 {
                assert(rel == ".nuxt"@);
            }
            if k == 3 {
                assert(rel == "dist"@);
            }
            if k == 4 {
                assert(rel == "build"@);
            }
            if k == 5 {
                assert(rel == ".turbo"@);
            }
            if k == 6 {
                assert(rel == ".svelte-kit"@);
            }
            if k == 7 {
                assert(rel == ".astro"@);
            }
            if k == 8 {
                assert(rel == ".output"@);
            }
            if k == 9 {
                assert(rel == ".parcel-cache"@);
            }
            if k == 10 {
                assert(rel == ".angular"@);
            }
        },
        Detector::Python(_) => {
            if k == 0 {
                assert(rel == ".venv"@);
            }
            if k == 1 {
                assert(rel == "venv"@);
            }
            if k == 2 {
                assert(rel == "__pycache__"@);
            }
            if k == 3 {
                assert(rel == ".pytest_cache"@);
            }
            if k == 4 {
                assert(rel == ".mypy_cache"@);
            }
            if k == 5 {
                assert(rel == ".ruff_cache"@);
            }
            if k == 6 {
                assert(rel == "dist"@);
            }
            if k == 7 {
                assert(rel == "build"@);
            }
        },
        Detector::Dotnet(_) => {
            if k == 0 {
                assert(rel == "bin"@);
            }
            if k == 1 {
                assert(rel == "obj"@);
            }
        },
        Detector::Java(_) => {
            if k == 0 {
                assert(rel == "target"@);
            }
            if k == 1 {
                assert(rel == "build"@);
            }
            if k == 2 {
                assert(rel == ".gradle"@);
            }
            if k == 3 {
                assert(rel == "out"@);
            }
        },
        Detector::Go(_) => {
            if k == 0 {
                assert(rel == "bin"@);
            }
            if k == 1 {
                assert(rel == "dist"@);
            }
            if k == 2 {
                assert(rel == "vendor"@);
            }
        },
        Detector::Flutter(_) => {
            if k == 0 {
                assert(rel == ".dart_tool"@);
            }
            if k == 1 {
                assert(rel == "build"@);
            }
            if k == 2 {
                assert(rel == ".flutter-plugins"@);
            }
            if k == 3 {
                assert(rel == ".flutter-plugins-dependencies"@);
            }
        },
        Detector::Php(_) => {
            if k == 0 {
                assert(rel == "vendor"@);
            }
        },
        Detector::Ruby(_) => {
            if k == 1 {
                assert(rel == ".bundle"@);
            }
        },
        Detector::Cpp(_) => {
            if k == 0 {
                assert(rel == "build"@);
            }
            if k == 1 {
                assert(rel == "cmake-build-debug"@);
            }
            if k == 2 {
                assert(rel == "cmake-build-release"@);
            }
        },
        Detector::Swift(_) => {
            if k == 0 {
                assert(rel == ".build"@);
            }
            if k == 1 {
                assert(rel == "DerivedData"@);
            }
        },
        Detector::Elixir(_) => {
            if k == 0 {
                assert(rel == "_build"@);
            }
            if k == 1 {
                assert(rel == "deps"@);
            }
        },
    }
    if d is Ruby && k == 0 {
        reveal_strlit("vendor");
        reveal_strlit("bundle");
        let v = spec_join(root, "vendor"@);
        assert(spec_join(root, rel) =~= spec_join(v, "bundle"@));
        lemma_whitelist_names("bundle"@);
        lemma_file_name_of_join(v, "bundle"@);
    } else {
        lemma_whitelist_names(rel);
        lemma_file_name_of_join(root, rel);
    }
}

/// No trash directory is itself a whitelisted artifact name, so the cleaner
/// never accepts a trash directory as something to clean.
pub proof fn lemma_trash_name_not_whitelisted(u: Seq<char>)
    requires
        is_uuid_v4_text(u),
    ensures
        !is_whitelisted(trash_prefix() + u),
{
    reveal_strlit(".sweep-trash-");
    reveal_strlit("target");
    reveal_strlit("node_modules");
    reveal_strlit("bin");
    reveal_strlit("obj");
    reveal_strlit(".venv");
    reveal_strlit("venv");
    reveal_strlit("__pycache__");
    reveal_strlit(".cache");
    reveal_strlit("build");
    reveal_strlit(".gradle");
    reveal_strlit("out");
    reveal_strlit(".next");
    reveal_strlit(".nuxt");
    reveal_strlit("dist");
    reveal_strlit(".turbo");
    reveal_strlit(".svelte-kit");
    reveal_strlit(".astro");
    reveal_strlit(".output");
    reveal_strlit(".parcel-cache");
    reveal_strlit(".angular");
    reveal_strlit(".dart_tool");
    reveal_strlit(".flutter-plugins");
    reveal_strlit(".flutter-plugins-dependencies");
    reveal_strlit("vendor");
    reveal_strlit(".bundle");
    reveal_strlit("_build");
    reveal_strlit("deps");
    reveal_strlit("cmake-build-debug");
    reveal_strlit("cmake-build-release");
    reveal_strlit(".build");
    reveal_strlit("DerivedData");
    reveal_strlit(".pytest_cache");
    reveal_strlit(".mypy_cache");
    reveal_strlit(".ruff_cache");
    reveal_strlit("bundle");
    let w = WHITELIST_ARTIFACT_NAMES;
    assert forall|i: int| 0 <= i < 35 implies #[trigger] w@[i]@.len() < 49 by {
        if i == 0 {
            assert(w@[0]@ == "target"@);
        } else if i == 1 {
            assert(w@[1]@ == "node_modules"@);
        } else if i == 2 {
            assert(w@[2]@ == "bin"@);
        } else if i == 3 {
            assert(w@[3]@ == "obj"@);
        } else if i == 4 {
            assert(w@[4]@ == ".venv"@);
        } else if i == 5 {
            assert(w@[5]@ == "venv"@);
        } else if i == 6 {
            assert(w@[6]@ == "__pycache__"@);
        } else if i == 7 {
            assert(w@[7]@ == ".cache"@);
        } else if i == 8 {
            assert(w@[8]@ == "build"@);
        } else if i == 9 {
            assert(w@[9]@ == ".gradle"@);
        } else if i == 10 {
            assert(w@[10]@ == "out"@);
        } else if i == 11 {
            assert(w@[11]@ == ".next"@);
        } else if i == 12 {
            assert(w@[12]@ == ".nuxt"@);
        } else if i == 13 {
            assert(w@[13]@ == "dist"@);
        } else if i == 14 {
            assert(w@[14]@ == ".turbo"@);
        } else if i == 15 {
            assert(w@[15]@ == ".svelte-kit"@);
        } else if i == 16 {
            assert(w@[16]@ == ".astro"@);
        } else if i == 17 {
            assert(w@[17]@ == ".output"@);
        } else if i == 18 {
            assert(w@[18]@ == ".parcel-cache"@);
        } else if i == 19 {
            assert(w@[19]@ == ".angular"@);
        } else if i == 20 {
            assert(w@[20]@ == ".dart_tool"@);
        } else if i == 21 {
            assert(w@[21]@ == ".flutter-plugins"@);
        } else if i == 22 {
            assert(w@[22]@ == ".flutter-plugins-dependencies"@);
        } else if i == 23 {
            assert(w@[23]@ == "vendor"@);
        } else if i == 24 {
            assert(w@[24]@ == ".bundle"@);
        } else if i == 25 {
            assert(w@[25]@ == "_build"@);
        } else if i == 26 {
            assert(w@[26]@ == "deps"@);
        } else if i == 27 {
            assert(w@[27]@ == "cmake-build-debug"@);
        } else if i == 28 {
            assert(w@[28]@ == "cmake-build-release"@);
        } else if i == 29 {
            assert(w@[29]@ == ".build"@);
        } else if i == 30 {
            assert(w@[30]@ == "DerivedData"@);
        } else if i == 31 {
            assert(w@[31]@ == ".pytest_cache"@);
        } else if i == 32 {
            assert(w@[32]@ == ".mypy_cache"@);
        } else if i == 33 {
            assert(w@[33]@ == ".ruff_cache"@);
        } else if i == 34 {
            assert(w@[34]@ == "bundle"@);
        }
    }
    assert((trash_prefix() + u).len() == 49);
}


/// The type filter in full: "all" selects the twelve built-in detectors,
/// and each ecosystem name listed in the "Available types" message, with
/// each of its aliases, selects exactly that ecosystem's detector.
pub proof fn lemma_type_filter_names()
    ensures
        detectors_for("all"@) == Some(all_detectors()),
        all_detectors().len() == 12,
        detectors_for("rust"@) == Some(seq![Detector::Rust(RustDetector)]),
        detectors_for("node"@) == Some(seq![Detector::Node(NodeDetector)]),
        detectors_for("nodejs"@) == Some(seq![Detector::Node(NodeDetector)]),
        detectors_for("javascript"@) == Some(seq![Detector::Node(NodeDetector)]),
        detectors_for("js"@) == Some(seq![Detector::Node(NodeDetector)]),
        detectors_for("typescript"@) == Some(seq![Detector::Node(NodeDetector)]),
        detectors_for("ts"@) == Some(seq![Detector::Node(NodeDetector)]),
        detectors_for("python"@) == Some(seq![Detector::Python(PythonDetector)]),
        detectors_for("py"@) == Some(seq![Detector::Python(PythonDetector)]),
        detectors_for("dotnet"@) == Some(seq![Detector::Dotnet(DotnetDetector)]),
        detectors_for(".net"@) == Some(seq![Detector::Dotnet(DotnetDetector)]),
        detectors_for("csharp"@) == Some(seq![Detector::Dotnet(DotnetDetector)]),
        detectors_for("cs"@) == Some(seq![Detector::Dotnet(DotnetDetector)]),
        detectors_for("java"@) == Some(seq![Detector::Java(JavaDetector)]),
        detectors_for("jvm"@) == Some(seq![Detector::Java(JavaDetector)]),
        detectors_for("go"@) == Some(seq![Detector::Go(GoDetector)]),
        detectors_for("golang"@) == Some(seq![Detector::Go(GoDetector)]),
        detectors_for("flutter"@) == Some(seq![Detector::Flutter(FlutterDetector)]),
        detectors_for("dart"@) == Some(seq![Detector::Flutter(FlutterDetector)]),
        detectors_for("php"@) == Some(seq![Detector::Php(PhpDetector)]),
        detectors_for("composer"@) == Some(seq![Detector::Php(PhpDetector)]),
        detectors_for("ruby"@) == Some(seq![Detector::Ruby(RubyDetector)]),
        detectors_for("rb"@) == Some(seq![Detector::Ruby(RubyDetector)]),
        detectors_for("rails"@) == Some(seq![Detector::Ruby(RubyDetector)]),
        detectors_for("cpp"@) == Some(seq![Detector::Cpp(CppDetector)]),
        detectors_for("c"@) == Some(seq![Detector::Cpp(CppDetector)]),
        detectors_for("c++"@) == Some(seq![Detector::Cpp(CppDetector)]),
        detectors_for("cmake"@) == Some(seq![Detector::Cpp(CppDetector)]),
        detectors_for("swift"@) == Some(seq![Detector::Swift(SwiftDetector)]),
        detectors_for("apple"@) == Some(seq![Detector::Swift(SwiftDetector)]),
        detectors_for("xcode"@) == Some(seq![Detector::Swift(SwiftDetector)]),
        detectors_for("elixir"@) == Some(seq![Detector::Elixir(ElixirDetector)]),
        detectors_for("ex"@) == Some(seq![Detector::Elixir(ElixirDetector)]),
        detectors_for("mix"@) == Some(seq![Detector::Elixir(ElixirDetector)]),
{
    reveal_strlit("all");
    reveal_strlit("rust");
    reveal_strlit("node");
    reveal_strlit("nodejs");
    reveal_strlit("javascript");
    reveal_strlit("js");
    reveal_strlit("typescript");
    reveal_strlit("ts");
    reveal_strlit("python");
    reveal_strlit("py");
    reveal_strlit("dotnet");
    reveal_strlit(".net");
    reveal_strlit("csharp");
    reveal_strlit("cs");
    reveal_strlit("java");
    reveal_strlit("jvm");
    reveal_strlit("go");
    reveal_strlit("golang");
    reveal_strlit("flutter");
    reveal_strlit("dart");
    reveal_strlit("php");
    reveal_strlit("composer");
    reveal_strlit("ruby");
    reveal_strlit("rb");
    reveal_strlit("rails");
    reveal_strlit("cpp");
    reveal_strlit("c");
    reveal_strlit("c++");
    reveal_strlit("cmake");
    reveal_strlit("swift");
    reveal_strlit("apple");
    reveal_strlit("xcode");
    reveal_strlit("elixir");
    reveal_strlit("ex");
    reveal_strlit("mix");
    assert("all"@.len() == 3);
    assert("all"@[0] == 'a');
    assert("all"@[1] == 'l');
    assert("all"@[2] == 'l');
    assert("rust"@.len() == 4);
    assert("rust"@[0] == 'r');
    assert("rust"@[1] == 'u');
    assert("rust"@[2] == 's');
    assert("rust"@[3] == 't');
    assert("node"@.len() == 4);
    assert("node"@[0] == 'n');
    assert("node"@[1] == 'o');
    assert("node"@[2] == 'd');
    assert("node"@[3] == 'e');
    assert("nodejs"@.len() == 6);
    assert("nodejs"@[0] == 'n');
    assert("nodejs"@[1] == 'o');
    assert("nodejs"@[2] == 'd');
    assert("nodejs"@[3] == 'e');
    assert("nodejs"@[4] == 'j');
    assert("nodejs"@[5] == 's');
    assert("javascript"@.len() == 10);
    assert("javascript"@[0] == 'j');
    assert("javascript"@[1] == 'a');
    assert("javascript"@[2] == 'v');
    assert("javascript"@[3] == 'a');
    assert("javascript"@[4] == 's');
    assert("javascript"@[5] == 'c');
    assert("javascript"@[6] == 'r');
    assert("javascript"@[7] == 'i');
    assert("javascript"@[8] == 'p');
    assert("javascript"@[9] == 't');
    assert("js"@.len() == 2);
    assert("js"@[0] == 'j');
    assert("js"@[1] == 's');
    assert("typescript"@.len() == 10);
    assert("typescript"@[0] == 't');
    assert("typescript"@[1] == 'y');
    assert("typescript"@[2] == 'p');
    assert("typescript"@[3] == 'e');
    assert("typescript"@[4] == 's');
    assert("typescript"@[5] == 'c');
    assert("typescript"@[6] == 'r');
    assert("typescript"@[7] == 'i');
    assert("typescript"@[8] == 'p');
    assert("typescript"@[9] == 't');
    assert("ts"@.len() == 2);
    assert("ts"@[0] == 't');
    assert("ts"@[1] == 's');
    assert("python"@.len() == 6);
    assert("python"@[0] == 'p');
    assert("python"@[1] == 'y');
    assert("python"@[2] == 't');
    assert("python"@[3] == 'h');
    assert("python"@[4] == 'o');
    assert("python"@[5] == 'n');
    assert("py"@.len() == 2);
    assert("py"@[0] == 'p');
    assert("py"@[1] == 'y');
    assert("dotnet"@.len() == 6);
    assert("dotnet"@[0] == 'd');
    assert("dotnet"@[1] == 'o');
    assert("dotnet"@[2] == 't');
    assert("dotnet"@[3] == 'n');
    assert("dotnet"@[4] == 'e');
    assert("dotnet"@[5] == 't');
    assert(".net"@.len() == 4);
    assert(".net"@[0] == '.');
    assert(".net"@[1] == 'n');
    assert(".net"@[2] == 'e');
    assert(".net"@[3] == 't');
    assert("csharp"@.len() == 6);
    assert("csharp"@[0] == 'c');
    assert("csharp"@[1] == 's');
    assert("csharp"@[2] == 'h');
    assert("csharp"@[3] == 'a');
    assert("csharp"@[4] == 'r');
    assert("csharp"@[5] == 'p');
    assert("cs"@.len() == 2);
    assert("cs"@[0] == 'c');
    assert("cs"@[1] == 's');
    assert("java"@.len() == 4);
    assert("java"@[0] == 'j');
    assert("java"@[1] == 'a');
    assert("java"@[2] == 'v');
    assert("java"@[3] == 'a');
    assert("jvm"@.len() == 3);
    assert("jvm"@[0] == 'j');
    assert("jvm"@[1] == 'v');
    assert("jvm"@[2] == 'm');
    assert("go"@.len() == 2);
    assert("go"@[0] == 'g');
    assert("go"@[1] == 'o');
    assert("golang"@.len() == 6);
    assert("golang"@[0] == 'g');
    assert("golang"@[1] == 'o');
    assert("golang"@[2] == 'l');
    assert("golang"@[3] == 'a');
    assert("golang"@[4] == 'n');
    assert("golang"@[5] == 'g');
    assert("flutter"@.len() == 7);
    assert("flutter"@[0] == 'f');
    assert("flutter"@[1] == 'l');
    assert("flutter"@[2] == 'u');
    assert("flutter"@[3] == 't');
    assert("flutter"@[4] == 't');
    assert("flutter"@[5] == 'e');
    assert("flutter"@[6] == 'r');
    assert("dart"@.len() == 4);
    assert("dart"@[0] == 'd');
    assert("dart"@[1] == 'a');
    assert("dart"@[2] == 'r');
    assert("dart"@[3] == 't');
    assert("php"@.len() == 3);
    assert("php"@[0] == 'p');
    assert("php"@[1] == 'h');
    assert("php"@[2] == 'p');
    assert("composer"@.len() == 8);
    assert("composer"@[0] == 'c');
    assert("composer"@[1] == 'o');
    assert("composer"@[2] == 'm');
    assert("composer"@[3] == 'p');
    assert("composer"@[4] == 'o');
    assert("composer"@[5] == 's');
    assert("composer"@[6] == 'e');
    assert("composer"@[7] == 'r');
    assert("ruby"@.len() == 4);
    assert("ruby"@[0] == 'r');
    assert("ruby"@[1] == 'u');
    assert("ruby"@[2] == 'b');
    assert("ruby"@[3] == 'y');
    assert("rb"@.len() == 2);
    assert("rb"@[0] == 'r');
    assert("rb"@[1] == 'b');
    assert("rails"@.len() == 5);
    assert("rails"@[0] == 'r');
    assert("rails"@[1] == 'a');
    assert("rails"@[2] == 'i');
    assert("rails"@[3] == 'l');
    assert("rails"@[4] == 's');
    assert("cpp"@.len() == 3);
    assert("cpp"@[0] == 'c');
    assert("cpp"@[1] == 'p');
    assert("cpp"@[2] == 'p');
    assert("c"@.len() == 1);
    assert("c"@[0] == 'c');
    assert("c++"@.len() == 3);
    assert("c++"@[0] == 'c');
    assert("c++"@[1] == '+');
    assert("c++"@[2] == '+');
    assert("cmake"@.len() == 5);
    assert("cmake"@[0] == 'c');
    assert("cmake"@[1] == 'm');
    assert("cmake"@[2] == 'a');
    assert("cmake"@[3] == 'k');
    assert("cmake"@[4] == 'e');
    assert("swift"@.len() == 5);
    assert("swift"@[0] == 's');
    assert("swift"@[1] == 'w');
    assert("swift"@[2] == 'i');
    assert("swift"@[3] == 'f');
    assert("swift"@[4] == 't');
    assert("apple"@.len() == 5);
    assert("apple"@[0] == 'a');
    assert("apple"@[1] == 'p');
    assert("apple"@[2] == 'p');
    assert("apple"@[3] == 'l');
    assert("apple"@[4] == 'e');
    assert("xcode"@.len() == 5);
    assert("xcode"@[0] == 'x');
    assert("xcode"@[1] == 'c');
    assert("xcode"@[2] == 'o');
    assert("xcode"@[3] == 'd');
    assert("xcode"@[4] == 'e');
    assert("elixir"@.len() == 6);
    assert("elixir"@[0] == 'e');
    assert("elixir"@[1] == 'l');
    assert("elixir"@[2] == 'i');
    assert("elixir"@[3] == 'x');
    assert("elixir"@[4] == 'i');
    assert("elixir"@[5] == 'r');
    assert("ex"@.len() == 2);
    assert("ex"@[0] == 'e');
    assert("ex"@[1] == 'x');
    assert("mix"@.len() == 3);
    assert("mix"@[0] == 'm');
    assert("mix"@[1] == 'i');
    assert("mix"@[2] == 'x');
    assert(detectors_for("rust"@) == Some(seq![Detector::Rust(RustDetector)]));
    assert(detectors_for("node"@) == Some(seq![Detector::Node(NodeDetector)]));
    assert(detectors_for("nodejs"@) == Some(seq![Detector::Node(NodeDetector)]));
    assert(detectors_for("javascript"@) == Some(seq![Detector::Node(NodeDetector)]));
    assert(detectors_for("js"@) == Some(seq![Detector::Node(NodeDetector)]));
    assert(detectors_for("typescript"@) == Some(seq![Detector::Node(NodeDetector)]));
    assert(detectors_for("ts"@) == Some(seq![Detector::Node(NodeDetector)]));
    assert(detectors_for("python"@) == Some(seq![Detector::Python(PythonDetector)]));
    assert(detectors_for("py"@) == Some(seq![Detector::Python(PythonDetector)]));
    assert(detectors_for("dotnet"@) == Some(seq![Detector::Dotnet(DotnetDetector)]));
    assert(detectors_for(".net"@) == Some(seq![Detector::Dotnet(DotnetDetector)]));
    assert(detectors_for("csharp"@) == Some(seq![Detector::Dotnet(DotnetDetector)]));
    assert(detectors_for("cs"@) == Some(seq![Detector::Dotnet(DotnetDetector)]));
    assert(detectors_for("java"@) == Some(seq![Detector::Java(JavaDetector)]));
    assert(detectors_for("jvm"@) == Some(seq![Detector::Java(JavaDetector)]));
    assert(detectors_for("go"@) == Some(seq![Detector::Go(GoDetector)]));
    assert(detectors_for("golang"@) == Some(seq![Detector::Go(GoDetector)]));
    assert(detectors_for("flutter"@) == Some(seq![Detector::Flutter(FlutterDetector)]));
    assert(detectors_for("dart"@) == Some(seq![Detector::Flutter(FlutterDetector)]));
    assert(detectors_for("php"@) == Some(seq![Detector::Php(PhpDetector)]));
    assert(detectors_for("composer"@) == Some(seq![Detector::Php(PhpDetector)]));
    assert(detectors_for("ruby"@) == Some(seq![Detector::Ruby(RubyDetector)]));
    assert(detectors_for("rb"@) == Some(seq![Detector::Ruby(RubyDetector)]));
    assert(detectors_for("rails"@) == Some(seq![Detector::Ruby(RubyDetector)]));
    assert(detectors_for("cpp"@) == Some(seq![Detector::Cpp(CppDetector)]));
    assert(detectors_for("c"@) == Some(seq![Detector::Cpp(CppDetector)]));
    assert(detectors_for("c++"@) == Some(seq![Detector::Cpp(CppDetector)]));
    assert(detectors_for("cmake"@) == Some(seq![Detector::Cpp(CppDetector)]));
    assert(detectors_for("swift"@) == Some(seq![Detector::Swift(SwiftDetector)]));
    assert(detectors_for("apple"@) == Some(seq![Detector::Swift(SwiftDetector)]));
    assert(detectors_for("xcode"@) == Some(seq![Detector::Swift(SwiftDetector)]));
    assert(detectors_for("elixir"@) == Some(seq![Detector::Elixir(ElixirDetector)]));
    assert(detectors_for("ex"@) == Some(seq![Detector::Elixir(ElixirDetector)]));
    assert(detectors_for("mix"@) == Some(seq![Detector::Elixir(ElixirDetector)]));
}

/// A directory is recognised as a Rust project exactly when it holds
/// a regular file named `Cargo.toml`.
pub proof fn lemma_rust_markers(entries: Seq<DirEntryInfo>)
    ensures
        RustDetector.spec_detect(entries) <==> exists|i: int|
            0 <= i < entries.len() && (#[trigger] entries[i]).is_file && (entries[i].name@ == "Cargo.toml"@),
{
}

/// A directory is recognised as a Node.js project exactly when it holds
/// a regular file named `package.json`, `pnpm-workspace.yaml`, `bun.lockb`, `bun.lock`, `deno.json`, `deno.jsonc`.
pub proof fn lemma_node_markers(entries: Seq<DirEntryInfo>)
    ensures
        NodeDetector.spec_detect(entries) <==> exists|i: int|
            0 <= i < entries.len() && (#[trigger] entries[i]).is_file && (entries[i].name@ == "package.json"@ || entries[i].name@ == "pnpm-workspace.yaml"@ || entries[i].name@ == "bun.lockb"@ || entries[i].name@ == "bun.lock"@ || entries[i].name@ == "deno.json"@ || entries[i].name@ == "deno.jsonc"@),
{
}

/// A directory is recognised as a Python project exactly when it holds
/// a regular file named `pyproject.toml`, `requirements.txt`, `Pipfile`, `setup.py`.
pub proof fn lemma_python_markers(entries: Seq<DirEntryInfo>)
    ensures
        PythonDetector.spec_detect(entries) <==> exists|i: int|
            0 <= i < entries.len() && (#[trigger] entries[i]).is_file && (entries[i].name@ == "pyproject.toml"@ || entries[i].name@ == "requirements.txt"@ || entries[i].name@ == "Pipfile"@ || entries[i].name@ == "setup.py"@),
{
}

/// A directory is recognised as a Java project exactly when it holds
/// a regular file named `pom.xml`, `build.gradle`, `build.gradle.kts`, `settings.gradle`, `settings.gradle.kts`.
pub proof fn lemma_java_markers(entries: Seq<DirEntryInfo>)
    ensures
        JavaDetector.spec_detect(entries) <==> exists|i: int|
            0 <= i < entries.len() && (#[trigger] entries[i]).is_file && (entries[i].name@ == "pom.xml"@ || entries[i].name@ == "build.gradle"@ || entries[i].name@ == "build.gradle.kts"@ || entries[i].name@ == "settings.gradle"@ || entries[i].name@ == "settings.gradle.kts"@),
{
}

/// A directory is recognised as a Go project exactly when it holds
/// a regular file named `go.mod`, `go.work`.
pub proof fn lemma_go_markers(entries: Seq<DirEntryInfo>)
    ensures
        GoDetector.spec_detect(entries) <==> exists|i: int|
            0 <= i < entries.len() && (#[trigger] entries[i]).is_file && (entries[i].name@ == "go.mod"@ || entries[i].name@ == "go.work"@),
{
}

/// A directory is recognised as a Flutter project exactly when it holds
/// a regular file named `pubspec.yaml`.
pub proof fn lemma_flutter_markers(entries: Seq<DirEntryInfo>)
    ensures
        FlutterDetector.spec_detect(entries) <==> exists|i: int|
            0 <= i < entries.len() && (#[trigger] entries[i]).is_file && (entries[i].name@ == "pubspec.yaml"@),
{
}

/// A directory is recognised as a PHP project exactly when it holds
/// a regular file named `composer.json`.
pub proof fn lemma_php_markers(entries: Seq<DirEntryInfo>)
    ensures
        PhpDetector.spec_detect(entries) <==> exists|i: int|
            0 <= i < entries.len() && (#[trigger] entries[i]).is_file && (entries[i].name@ == "composer.json"@),
{
}

/// A directory is recognised as a Ruby project exactly when it holds
/// a regular file named `Gemfile`.
pub proof fn lemma_ruby_markers(entries: Seq<DirEntryInfo>)
    ensures
        RubyDetector.spec_detect(entries) <==> exists|i: int|
            0 <= i < entries.len() && (#[trigger] entries[i]).is_file && (entries[i].name@ == "Gemfile"@),
{
}

/// A directory is recognised as a C/C++ project exactly when it holds
/// a regular file named `CMakeLists.txt`, `meson.build`.
pub proof fn lemma_cpp_markers(entries: Seq<DirEntryInfo>)
    ensures
        CppDetector.spec_detect(entries) <==> exists|i: int|
            0 <= i < entries.len() && (#[trigger] entries[i]).is_file && (entries[i].name@ == "CMakeLists.txt"@ || entries[i].name@ == "meson.build"@),
{
}

/// A directory is recognised as a Elixir project exactly when it holds
/// a regular file named `mix.exs`.
pub proof fn lemma_elixir_markers(entries: Seq<DirEntryInfo>)
    ensures
        ElixirDetector.spec_detect(entries) <==> exists|i: int|
            0 <= i < entries.len() && (#[trigger] entries[i]).is_file && (entries[i].name@ == "mix.exs"@),
{
}

/// A directory is recognised as a .NET project exactly when it holds a
/// regular file with the extension `csproj`, `sln` or `fsproj`.
pub proof fn lemma_dotnet_markers(entries: Seq<DirEntryInfo>)
    ensures
        DotnetDetector.spec_detect(entries) <==> exists|i: int|
            0 <= i < entries.len() && (#[trigger] entries[i]).is_file && (has_extension(entries[i].name@, "csproj"@)
                || has_extension(entries[i].name@, "sln"@) || has_extension(entries[i].name@, "fsproj"@)),
{
}

/// A directory is recognised as a Swift project exactly when it holds a
/// regular file named `Package.swift`, or an entry whose name ends in
/// `.xcodeproj` or `.xcworkspace`.
pub proof fn lemma_swift_markers(entries: Seq<DirEntryInfo>)
    ensures
        SwiftDetector.spec_detect(entries) <==> exists|i: int|
            0 <= i < entries.len() && ((#[trigger] entries[i]).is_file && entries[i].name@ == "Package.swift"@
                || ends_with_seq(entries[i].name@, ".xcodeproj"@) || ends_with_seq(entries[i].name@, ".xcworkspace"@)),
{
}

} // verus!
