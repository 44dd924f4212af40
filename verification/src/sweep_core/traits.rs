//! The vocabulary of a scan: ecosystems, git status, artifact targets,
//! discovered projects, directory listings and the detector interface.
use vstd::prelude::*;

use vstd::string::StrSliceExecFns;

use crate::text::concat;
use crate::text::decimal;
use crate::text::dec;
use crate::text::ends_with;
use crate::text::ends_with_seq;
use crate::text::owned;
use crate::text::str_eq;

verus! {

/// The ecosystem a project belongs to.
#[derive(Debug, PartialEq, Eq, PartialOrd, Ord, Hash)]
pub enum ProjectType {
    Rust,
    Node,
    Dotnet,
    Python,
    Java,
    Go,
    Php,
    Ruby,
    Cpp,
    Flutter,
    Swift,
    Elixir,
    Custom(String),
}

impl Clone for ProjectType {
    fn clone(&self) -> (r: Self)
        ensures
            r == *self,
    {
        match self {
            ProjectType::Rust => ProjectType::Rust,
            ProjectType::Node => ProjectType::Node,
            ProjectType::Dotnet => ProjectType::Dotnet,
            ProjectType::Python => ProjectType::Python,
            ProjectType::Java => ProjectType::Java,
            ProjectType::Go => ProjectType::Go,
            ProjectType::Php => ProjectType::Php,
            ProjectType::Ruby => ProjectType::Ruby,
            ProjectType::Cpp => ProjectType::Cpp,
            ProjectType::Flutter => ProjectType::Flutter,
            ProjectType::Swift => ProjectType::Swift,
            ProjectType::Elixir => ProjectType::Elixir,
            ProjectType::Custom(s) => ProjectType::Custom(s.clone()),
        }
    }
}

impl ProjectType {
    /// The name under which the ecosystem is shown.
    pub open spec fn label(&self) -> Seq<char> {
        match self {
            ProjectType::Rust => "Rust"@,
            ProjectType::Node => "Node"@,
            ProjectType::Dotnet => ".NET"@,
            ProjectType::Python => "Python"@,
            ProjectType::Java => "Java"@,
            ProjectType::Go => "Go"@,
            ProjectType::Php => "PHP"@,
            ProjectType::Ruby => "Ruby"@,
            ProjectType::Cpp => "C/C++"@,
            ProjectType::Flutter => "Flutter"@,
            ProjectType::Swift => "Swift"@,
            ProjectType::Elixir => "Elixir"@,
            ProjectType::Custom(s) => s@,
        }
    }

    /// The name under which the ecosystem is shown.
    pub fn display_name(&self) -> (r: String)
        ensures
            r@ == self.label(),
    {
        match self {
            ProjectType::Rust => owned("Rust"),
            ProjectType::Node => owned("Node"),
            ProjectType::Dotnet => owned(".NET"),
            ProjectType::Python => owned("Python"),
            ProjectType::Java => owned("Java"),
            ProjectType::Go => owned("Go"),
            ProjectType::Php => owned("PHP"),
            ProjectType::Ruby => owned("Ruby"),
            ProjectType::Cpp => owned("C/C++"),
            ProjectType::Flutter => owned("Flutter"),
            ProjectType::Swift => owned("Swift"),
            ProjectType::Elixir => owned("Elixir"),
            ProjectType::Custom(s) => s.clone(),
        }
    }
}

/// How recently a repository saw a commit.
#[derive(Debug, Clone, Copy, PartialEq, Eq, Structural)]
pub enum GitStatus {
    Stale,
    Active,
    Moderate,
    Unknown,
}

impl GitStatus {
    /// The name under which the status is shown.
    pub open spec fn label(&self) -> Seq<char> {
        match self {
            GitStatus::Stale => "Stale"@,
            GitStatus::Active => "Active"@,
            GitStatus::Moderate => "Moderate"@,
            GitStatus::Unknown => "Unknown"@,
        }
    }

    /// The name under which the status is shown.
    pub fn display_name(&self) -> (r: String)
        ensures
            r@ == self.label(),
    {
        match self {
            GitStatus::Stale => owned("Stale"),
            GitStatus::Active => owned("Active"),
            GitStatus::Moderate => owned("Moderate"),
            GitStatus::Unknown => owned("Unknown"),
        }
    }
}

/// What a project's git repository says about it.
#[derive(Debug, Clone, Copy, PartialEq, Eq, Structural)]
pub struct GitInfo {
    pub last_commit_days: Option<u64>,
    pub is_dirty: bool,
    pub status: GitStatus,
}

impl GitInfo {
    /// The status text, marked when the work tree has uncommitted changes.
    pub open spec fn status_text(&self) -> Seq<char> {
        if self.is_dirty {
            match self.status {
                GitStatus::Unknown => "Dirty"@,
                other => other.label() + " (Dirty)"@,
            }
        } else {
            self.status.label()
        }
    }

    /// The age of the last commit in words.
    pub open spec fn last_commit_text(&self) -> Seq<char> {
        match self.last_commit_days {
            Some(0) => "Today"@,
            Some(1) => "1 day ago"@,
            Some(days) => dec(days as nat) + " days ago"@,
            None => "N/A"@,
        }
    }

    /// The status text, marked when the work tree has uncommitted changes.
    pub fn display_status(&self) -> (r: String)
        ensures
            r@ == self.status_text(),
    {
        if self.is_dirty {
            match self.status {
                GitStatus::Unknown => owned("Dirty"),
                other => {
                    let s = other.display_name();
                    concat(s.as_str(), " (Dirty)")
                },
            }
        } else {
            self.status.display_name()
        }
    }

    /// The age of the last commit in words.
    pub fn display_last_commit(&self) -> (r: String)
        ensures
            r@ == self.last_commit_text(),
    {
        match self.last_commit_days {
            Some(0) => owned("Today"),
            Some(1) => owned("1 day ago"),
            Some(days) => {
                let d = decimal(days);
                concat(d.as_str(), " days ago")
            },
            None => owned("N/A"),
        }
    }
}

/// A build artifact that a detector knows how to find below a project root.
#[derive(Debug, PartialEq, Eq)]
pub struct ArtifactTarget {
    pub name: &'static str,
    pub rel_path: String,
    pub is_reconstructible: bool,
}

impl View for ArtifactTarget {
    type V = (Seq<char>, Seq<char>, bool);

    open spec fn view(&self) -> (Seq<char>, Seq<char>, bool) {
        (self.name@, self.rel_path@, self.is_reconstructible)
    }
}

impl Clone for ArtifactTarget {
    fn clone(&self) -> (r: Self)
        ensures
            r == *self,
    {
        ArtifactTarget {
            name: self.name,
            rel_path: self.rel_path.clone(),
            is_reconstructible: self.is_reconstructible,
        }
    }
}

impl ArtifactTarget {
    /// A reconstructible target named `name` that lies at `name` below the root.
    pub fn at(name: &'static str) -> (r: Self)
        ensures
            r@ == (name@, name@, true),
    {
        ArtifactTarget { name, rel_path: owned(name), is_reconstructible: true }
    }
}

/// The views of a list of targets.
pub open spec fn targets_view(ts: Seq<ArtifactTarget>) -> Seq<(Seq<char>, Seq<char>, bool)> {
    ts.map_values(|t: ArtifactTarget| t@)
}

/// An artifact that a scan found on disk.
#[derive(Debug)]
pub struct DiscoveredArtifact {
    pub target: ArtifactTarget,
    pub abs_path: String,
    pub size_bytes: u64,
}

impl Clone for DiscoveredArtifact {
    fn clone(&self) -> (r: Self)
        ensures
            r == *self,
    {
        DiscoveredArtifact {
            target: self.target.clone(),
            abs_path: self.abs_path.clone(),
            size_bytes: self.size_bytes,
        }
    }
}

/// Sum of the sizes of `arts`.
pub open spec fn artifacts_bytes(arts: Seq<DiscoveredArtifact>) -> nat
    decreases arts.len(),
{
    if arts.len() == 0 {
        0
    } else {
        artifacts_bytes(arts.drop_last()) + arts.last().size_bytes as nat
    }
}

/// A project root with the artifacts found below it.
#[derive(Debug)]
pub struct DiscoveredProject {
    pub root: String,
    pub project_type: ProjectType,
    pub artifacts: Vec<DiscoveredArtifact>,
    pub git_info: Option<GitInfo>,
}

impl Clone for DiscoveredProject {
    fn clone(&self) -> (r: Self)
        ensures
            r.root@ == self.root@,
            r.project_type == self.project_type,
            r.artifacts@ == self.artifacts@,
            r.git_info == self.git_info,
    {
        let mut arts: Vec<DiscoveredArtifact> = Vec::new();
        let mut i: usize = 0;
        while i < self.artifacts.len()
            invariant
                i <= self.artifacts@.len(),
                arts@ == self.artifacts@.take(i as int),
            decreases self.artifacts.len() - i,
        {
            arts.push(self.artifacts[i].clone());
            assert(self.artifacts@.take(i + 1) == self.artifacts@.take(i as int).push(self.artifacts@[i as int]));
            i = i + 1;
        }
        assert(self.artifacts@.take(i as int) == self.artifacts@);
        DiscoveredProject {
            root: self.root.clone(),
            project_type: self.project_type.clone(),
            artifacts: arts,
            git_info: self.git_info,
        }
    }
}

impl DiscoveredProject {
    /// Bytes that removing all of the project's artifacts frees.
    pub open spec fn reclaimable(&self) -> nat {
        artifacts_bytes(self.artifacts@)
    }

    /// Bytes that removing all of the project's artifacts frees.
    pub fn total_reclaimable_bytes(&self) -> (r: u64)
        requires
            self.reclaimable() <= u64::MAX,
        ensures
            r == self.reclaimable(),
    {
        let mut total: u64 = 0;
        let mut i: usize = 0;
        while i < self.artifacts.len()
            invariant
                i <= self.artifacts@.len(),
                total == artifacts_bytes(self.artifacts@.take(i as int)),
                artifacts_bytes(self.artifacts@) <= u64::MAX,
            decreases self.artifacts.len() - i,
        {
            proof {
                assert(self.artifacts@.take(i + 1).drop_last() == self.artifacts@.take(i as int));
                lemma_artifacts_bytes_prefix(self.artifacts@, i + 1);
            }
            total = total + self.artifacts[i].size_bytes;
            i = i + 1;
        }
        assert(self.artifacts@.take(i as int) == self.artifacts@);
        total
    }
}

impl DiscoveredProject {
    /// The bytes that removing all of the project's artifacts frees, or
    /// `None` when they add up to more than 64 bits hold.
    pub fn checked_reclaimable_bytes(&self) -> (r: Option<u64>)
        ensures
            r matches Some(b) ==> b == self.reclaimable(),
            r is None <==> self.reclaimable() > u64::MAX,
    {
        let mut total: u64 = 0;
        let mut i: usize = 0;
        while i < self.artifacts.len()
            invariant
                i <= self.artifacts@.len(),
                total == artifacts_bytes(self.artifacts@.take(i as int)),
            decreases self.artifacts.len() - i,
        {
            proof {
                assert(self.artifacts@.take(i + 1).drop_last() == self.artifacts@.take(i as int));
                assert(self.artifacts@.take(i + 1).last() == self.artifacts@[i as int]);
            }
            match total.checked_add(self.artifacts[i].size_bytes) {
                Some(t) => {
                    total = t;
                },
                None => {
                    proof {
                        lemma_artifacts_bytes_prefix(self.artifacts@, i + 1);
                    }
                    return None;
                },
            }
            i = i + 1;
        }
        assert(self.artifacts@.take(i as int) == self.artifacts@);
        Some(total)
    }
}

/// Sizes of a prefix never exceed the sizes of the whole list.
pub proof fn lemma_artifacts_bytes_prefix(arts: Seq<DiscoveredArtifact>, k: int)
    requires
        0 <= k <= arts.len(),
    ensures
        artifacts_bytes(arts.take(k)) <= artifacts_bytes(arts),
    decreases arts.len() - k,
{
    if k < arts.len() {
        lemma_artifacts_bytes_prefix(arts, k + 1);
        assert(arts.take(k + 1).drop_last() == arts.take(k));
    } else {
        assert(arts.take(k) == arts);
    }
}

/// One entry of a directory: its name and whether it is a regular file
/// (following symbolic links).
#[derive(Debug)]
pub struct DirEntryInfo {
    pub name: String,
    pub is_file: bool,
}

/// The entries of one directory, as a scan sees them.
#[derive(Debug)]
pub struct DirListing {
    pub entries: Vec<DirEntryInfo>,
}

/// The directory holds a regular file called `name`.
pub open spec fn has_file(entries: Seq<DirEntryInfo>, name: Seq<char>) -> bool {
    exists|i: int| 0 <= i < entries.len() && #[trigger] entries[i].name@ == name && entries[i].is_file
}

/// `name` has the extension `ext`, as `Path::extension` splits it: the text
/// after the last `.`, where that `.` is not the first character.
pub open spec fn has_extension(name: Seq<char>, ext: Seq<char>) -> bool {
    &&& ends_with_seq(name, seq!['.'] + ext)
    &&& name.len() > ext.len() + 1
}

/// Some regular file of the directory has the extension `ext`.
pub open spec fn has_entry_with_extension(entries: Seq<DirEntryInfo>, ext: Seq<char>) -> bool {
    exists|i: int| 0 <= i < entries.len() && has_extension(#[trigger] entries[i].name@, ext) && entries[i].is_file
}

/// Some entry of the directory (of any kind) has a name ending in `suffix`.
pub open spec fn has_entry_ending_with(entries: Seq<DirEntryInfo>, suffix: Seq<char>) -> bool {
    exists|i: int| 0 <= i < entries.len() && ends_with_seq(#[trigger] entries[i].name@, suffix)
}

impl DirListing {
    /// Whether the directory holds a regular file called `name`.
    pub fn has_file(&self, name: &str) -> (r: bool)
        ensures
            r == has_file(self.entries@, name@),
    {
        let mut i: usize = 0;
        while i < self.entries.len()
            invariant
                i <= self.entries@.len(),
                forall|k: int| 0 <= k < i ==> !(#[trigger] self.entries@[k].name@ == name@ && self.entries@[k].is_file),
            decreases self.entries.len() - i,
        {
            let e = &self.entries[i];
            if e.is_file && str_eq(e.name.as_str(), name) {
                return true;
            }
            i = i + 1;
        }
        false
    }

    /// Whether some regular file of the directory has the extension `ext`.
    pub fn has_extension(&self, ext: &str) -> (r: bool)
        ensures
            r == has_entry_with_extension(self.entries@, ext@),
    {
        let dot_ext = concat(".", ext);
        proof {
            reveal_strlit(".");
        }
        let mut i: usize = 0;
        while i < self.entries.len()
            invariant
                i <= self.entries@.len(),
                dot_ext@ == seq!['.'] + ext@,
                forall|k: int|
                    0 <= k < i ==> !(has_extension(#[trigger] self.entries@[k].name@, ext@) && self.entries@[k].is_file),
            decreases self.entries.len() - i,
        {
            let e = &self.entries[i];
            if e.is_file && ends_with(e.name.as_str(), dot_ext.as_str()) && e.name.as_str().unicode_len()
                > dot_ext.as_str().unicode_len() {
                return true;
            }
            i = i + 1;
        }
        false
    }

    /// Whether some entry of the directory has a name ending in `suffix`.
    pub fn has_entry_ending_with(&self, suffix: &str) -> (r: bool)
        ensures
            r == has_entry_ending_with(self.entries@, suffix@),
    {
        let mut i: usize = 0;
        while i < self.entries.len()
            invariant
                i <= self.entries@.len(),
                forall|k: int| 0 <= k < i ==> !ends_with_seq(#[trigger] self.entries@[k].name@, suffix@),
            decreases self.entries.len() - i,
        {
            if ends_with(self.entries[i].name.as_str(), suffix) {
                return true;
            }
            i = i + 1;
        }
        false
    }
}

/// A recogniser of one kind of project.
pub trait ProjectDetector {
    /// The ecosystem the detector recognises.
    spec fn spec_name(&self) -> ProjectType;

    /// Whether a directory with these entries is a project root.
    spec fn spec_detect(&self, entries: Seq<DirEntryInfo>) -> bool;

    /// The artifacts of such a project, in order.
    spec fn spec_targets(&self) -> Seq<(Seq<char>, Seq<char>, bool)>;

    fn name(&self) -> (r: ProjectType)
        ensures
            r == self.spec_name(),
    ;

    fn detect(&self, dir: &DirListing) -> (r: bool)
        ensures
            r == self.spec_detect(dir.entries@),
    ;

    fn get_artifacts(&self, project_root: &str) -> (r: Vec<ArtifactTarget>)
        ensures
            targets_view(r@) == self.spec_targets(),
    ;
}

} // verus!
