//! Safe removal of build artifacts: a whitelist check on the artifact's
//! name, a trash name beside it, and the tally of what a purge freed.
use vstd::prelude::*;

use crate::paths::file_name;
use crate::paths::is_plain_name;
use crate::paths::join;
use crate::paths::lemma_file_name_of_join;
use crate::paths::lemma_parent_of_join;
use crate::paths::parent;
use crate::paths::spec_file_name;
use crate::paths::spec_join;
use crate::paths::spec_parent;
use crate::paths::strip_slashes;
use crate::text::concat;
use crate::text::owned;
use crate::text::str_eq;

verus! {

/// The directory names that may ever be moved to the trash.
pub const WHITELIST_ARTIFACT_NAMES: [&'static str; 35] = [
    "target",
    "node_modules",
    "bin",
    "obj",
    ".venv",
    "venv",
    "__pycache__",
    ".cache",
    "build",
    ".gradle",
    "out",
    ".next",
    ".nuxt",
    "dist",
    ".turbo",
    ".svelte-kit",
    ".astro",
    ".output",
    ".parcel-cache",
    ".angular",
    ".dart_tool",
    ".flutter-plugins",
    ".flutter-plugins-dependencies",
    "vendor",
    ".bundle",
    "_build",
    "deps",
    "cmake-build-debug",
    "cmake-build-release",
    ".build",
    "DerivedData",
    ".pytest_cache",
    ".mypy_cache",
    ".ruff_cache",
    "bundle",
];

/// `name` is one of the whitelisted artifact names.
pub open spec fn is_whitelisted(name: Seq<char>) -> bool {
    exists|i: int| 0 <= i < 35 && #[trigger] WHITELIST_ARTIFACT_NAMES@[i]@ == name
}

/// The start of every trash directory's name.
pub open spec fn trash_prefix() -> Seq<char> {
    ".sweep-trash-"@
}

/// A lower-case hexadecimal digit.
pub open spec fn is_lower_hex(c: char) -> bool {
    ('0' <= c && c <= '9') || ('a' <= c && c <= 'f')
}

/// The hyphenated text of a random (version 4) UUID: 36 characters, `-` at
/// 8, 13, 18 and 23, lower-case hex digits elsewhere, `4` at 14 and one of
/// `8`, `9`, `a`, `b` at 19.
pub open spec fn is_uuid_v4_text(u: Seq<char>) -> bool {
    &&& u.len() == 36
    &&& forall|i: int|
        0 <= i < 36 ==> if i == 8 || i == 13 || i == 18 || i == 23 {
            u[i] == '-'
        } else {
            is_lower_hex(#[trigger] u[i])
        }
    &&& u[14] == '4'
    &&& (u[19] == '8' || u[19] == '9' || u[19] == 'a' || u[19] == 'b')
}

/// Calls `uuid::Uuid::new_v4` and renders it with `to_string`, which writes
/// the lower-case hyphenated form; the crate sets the version nibble to 4 and
/// the variant bits to `10`. Which UUID comes out is random.
#[verifier::external_body]
fn new_uuid_v4_text() -> (r: String)
    ensures
        is_uuid_v4_text(r@),
{
    uuid::Uuid::new_v4().to_string()
}

/// A file that was moved to the trash and waits to be deleted.
#[derive(Debug, Clone)]
pub struct CleanItem {
    pub original_path: String,
    pub trash_path: String,
    pub size_bytes: u64,
}

/// What a purge of trash directories achieved.
#[derive(Debug, Clone)]
pub struct CleanReport {
    pub items_cleaned: usize,
    pub total_bytes_reclaimed: u64,
    pub errors: Vec<String>,
}

impl Default for CleanReport {
    fn default() -> (r: Self)
        ensures
            r.items_cleaned == 0,
            r.total_bytes_reclaimed == 0,
            r.errors@.len() == 0,
    {
        CleanReport { items_cleaned: 0, total_bytes_reclaimed: 0, errors: Vec::new() }
    }
}

/// Why an artifact cannot be moved to the trash.
#[derive(Debug)]
pub enum CleanError {
    /// The path has no final component that could name an artifact.
    InvalidPath(String),
    /// The final component is not a whitelisted artifact name.
    NotWhitelisted(String),
    /// The resolved path has no parent directory to hold the trash.
    NoParent,
}

impl CleanError {
    /// The text of the error.
    pub open spec fn text(&self) -> Seq<char> {
        match self {
            CleanError::InvalidPath(p) => "Invalid artifact path: "@ + p@,
            CleanError::NotWhitelisted(n) => "Security Error: '"@ + n@
                + "' is not in the recognized build artifact whitelist. Aborting deletion."@,
            CleanError::NoParent => "Cannot determine parent directory for artifact"@,
        }
    }

    /// The text of the error.
    pub fn message(&self) -> (r: String)
        ensures
            r@ == self.text(),
    {
        match self {
            CleanError::InvalidPath(p) => concat("Invalid artifact path: ", p.as_str()),
            CleanError::NotWhitelisted(n) => {
                let head = concat("Security Error: '", n.as_str());
                concat(
                    head.as_str(),
                    "' is not in the recognized build artifact whitelist. Aborting deletion.",
                )
            },
            CleanError::NoParent => owned("Cannot determine parent directory for artifact"),
        }
    }
}

/// The message recorded for a trash directory that could not be deleted.
pub open spec fn purge_error_text(trash_path: Seq<char>, error: Seq<char>) -> Seq<char> {
    trash_path + ": "@ + error
}

/// Number of successful outcomes.
pub open spec fn purged_count(outcomes: Seq<Option<String>>) -> nat
    decreases outcomes.len(),
{
    if outcomes.len() == 0 {
        0
    } else {
        purged_count(outcomes.drop_last()) + if outcomes.last() is None {
            1nat
        } else {
            0nat
        }
    }
}

/// Bytes of the items whose deletion succeeded.
pub open spec fn purged_bytes(items: Seq<CleanItem>, outcomes: Seq<Option<String>>) -> nat
    decreases outcomes.len(),
{
    if outcomes.len() == 0 || items.len() == 0 {
        0
    } else {
        purged_bytes(items.drop_last(), outcomes.drop_last()) + if outcomes.last() is None {
            items.last().size_bytes as nat
        } else {
            0nat
        }
    }
}

/// The messages of the failed deletions, in order.
pub open spec fn purge_errors(items: Seq<CleanItem>, outcomes: Seq<Option<String>>) -> Seq<
    Seq<char>,
>
    decreases outcomes.len(),
{
    if outcomes.len() == 0 || items.len() == 0 {
        Seq::empty()
    } else {
        let rest = purge_errors(items.drop_last(), outcomes.drop_last());
        match outcomes.last() {
            Some(e) => rest.push(purge_error_text(items.last().trash_path@, e@)),
            None => rest,
        }
    }
}

/// Every purged item is counted either as cleaned or as an error.
pub proof fn lemma_every_item_accounted(items: Seq<CleanItem>, outcomes: Seq<Option<String>>)
    requires
        items.len() == outcomes.len(),
    ensures
        purged_count(outcomes) + purge_errors(items, outcomes).len() == items.len(),
    decreases items.len(),
{
    if items.len() > 0 {
        lemma_every_item_accounted(items.drop_last(), outcomes.drop_last());
    }
}

proof fn lemma_purged_count_bound(outcomes: Seq<Option<String>>)
    ensures
        purged_count(outcomes) <= outcomes.len(),
    decreases outcomes.len(),
{
    if outcomes.len() > 0 {
        lemma_purged_count_bound(outcomes.drop_last());
    }
}

proof fn lemma_purged_bytes_prefix(items: Seq<CleanItem>, outcomes: Seq<Option<String>>, k: int)
    requires
        items.len() == outcomes.len(),
        0 <= k <= items.len(),
    ensures
        purged_bytes(items.take(k), outcomes.take(k)) <= purged_bytes(items, outcomes),
    decreases items.len() - k,
{
    if k < items.len() {
        lemma_purged_bytes_prefix(items, outcomes, k + 1);
        assert(items.take(k + 1).drop_last() == items.take(k));
        assert(outcomes.take(k + 1).drop_last() == outcomes.take(k));
    } else {
        assert(items.take(k) == items);
        assert(outcomes.take(k) == outcomes);
    }
}

impl CleanReport {
    /// The report of a purge of `items`, where `outcomes[i]` is `None` when
    /// the deletion of `items[i]` succeeded and the error's text otherwise;
    /// `None` where the freed bytes do not fit in a `u64`.
    pub fn tally(items: &Vec<CleanItem>, outcomes: &Vec<Option<String>>) -> (r: Option<
        CleanReport,
    >)
        requires
            items@.len() == outcomes@.len(),
        ensures
            match r {
                Some(rep) => {
                    &&& rep.items_cleaned == purged_count(outcomes@)
                    &&& rep.total_bytes_reclaimed == purged_bytes(items@, outcomes@)
                    &&& rep.errors@.map_values(|e: String| e@) == purge_errors(items@, outcomes@)
                    &&& rep.items_cleaned + rep.errors@.len() == items@.len()
                },
                None => purged_bytes(items@, outcomes@) > u64::MAX,
            },
    {
        let mut report = CleanReport::default();
        let mut i: usize = 0;
        while i < items.len()
            invariant
                items@.len() == outcomes@.len(),
                i <= items@.len(),
                report.items_cleaned == purged_count(outcomes@.take(i as int)),
                report.total_bytes_reclaimed == purged_bytes(
                    items@.take(i as int),
                    outcomes@.take(i as int),
                ),
                report.errors@.map_values(|e: String| e@) == purge_errors(
                    items@.take(i as int),
                    outcomes@.take(i as int),
                ),
            decreases items.len() - i,
        {
            proof {
                assert(items@.take(i + 1).drop_last() == items@.take(i as int));
                assert(outcomes@.take(i + 1).drop_last() == outcomes@.take(i as int));
                assert(items@.take(i + 1).last() == items@[i as int]);
                assert(outcomes@.take(i + 1).last() == outcomes@[i as int]);
                lemma_purged_count_bound(outcomes@.take(i as int));
            }
            let item = &items[i];
            match &outcomes[i] {
                None => {
                    if item.size_bytes > u64::MAX - report.total_bytes_reclaimed {
                        proof {
                            lemma_purged_bytes_prefix(items@, outcomes@, i + 1);
                        }
                        return None;
                    }
                    report.items_cleaned = report.items_cleaned + 1;
                    report.total_bytes_reclaimed = report.total_bytes_reclaimed + item.size_bytes;
                },
                Some(e) => {
                    let head = concat(item.trash_path.as_str(), ": ");
                    let msg = concat(head.as_str(), e.as_str());
                    let ghost before = report.errors@;
                    report.errors.push(msg);
                    assert(report.errors@.map_values(|e: String| e@) == before.map_values(
                        |e: String| e@,
                    ).push(msg@));
                },
            }
            i = i + 1;
        }
        assert(items@.take(i as int) == items@);
        assert(outcomes@.take(i as int) == outcomes@);
        proof {
            lemma_every_item_accounted(items@, outcomes@);
            assert(report.errors@.len() == report.errors@.map_values(|e: String| e@).len());
        }
        Some(report)
    }
}

/// Moves artifacts out of the way before they are deleted.
#[derive(Debug, Default, Clone, Copy)]
pub struct Cleaner;

impl Cleaner {
    pub fn new() -> (r: Self)
        ensures
            r == Cleaner,
    {
        Cleaner
    }

    /// Whether `name` is a whitelisted artifact name.
    pub fn is_whitelisted_name(name: &str) -> (r: bool)
        ensures
            r == is_whitelisted(name@),
    {
        let mut i: usize = 0;
        while i < 35
            invariant
                i <= 35,
                forall|k: int| 0 <= k < i ==> #[trigger] WHITELIST_ARTIFACT_NAMES@[k]@ != name@,
            decreases 35 - i,
        {
            if str_eq(WHITELIST_ARTIFACT_NAMES[i], name) {
                return true;
            }
            i = i + 1;
        }
        false
    }

    /// The check that comes before any artifact is touched: the path's final
    /// component must exist and be a whitelisted name, which is returned.
    pub fn check_artifact_path(&self, artifact_path: &str) -> (r: Result<String, CleanError>)
        ensures
            match spec_file_name(artifact_path@) {
                None => r matches Err(CleanError::InvalidPath(p)) && p@ == artifact_path@,
                Some(n) => if is_whitelisted(n) {
                    r matches Ok(s) && s@ == n
                } else {
                    r matches Err(CleanError::NotWhitelisted(m)) && m@ == n
                },
            },
    {
        match file_name(artifact_path) {
            None => Err(CleanError::InvalidPath(owned(artifact_path))),
            Some(n) => {
                if Self::is_whitelisted_name(n.as_str()) {
                    Ok(n)
                } else {
                    Err(CleanError::NotWhitelisted(n))
                }
            },
        }
    }

    /// A fresh trash path for the resolved artifact path `canonical_path`: a
    /// directory `.sweep-trash-<random UUID>` beside it, in its parent. The
    /// resolved path must itself end in a whitelisted name, as the path it
    /// was resolved from had to: a link with a whitelisted name that
    /// resolves to any other directory is refused.
    pub fn trash_path_for(&self, canonical_path: &str) -> (r: Result<String, CleanError>)
        ensures
            match spec_file_name(canonical_path@) {
                None => r matches Err(CleanError::InvalidPath(p)) && p@ == canonical_path@,
                Some(n) => if !is_whitelisted(n) {
                    r matches Err(CleanError::NotWhitelisted(m)) && m@ == n
                } else {
                    match spec_parent(canonical_path@) {
                        None => r matches Err(CleanError::NoParent),
                        Some(dir) => r matches Ok(t) && exists|u: Seq<char>|
                            is_uuid_v4_text(u) && t@ == spec_join(dir, trash_prefix() + u),
                    }
                },
            },
    {
        match self.check_artifact_path(canonical_path) {
            Err(e) => Err(e),
            Ok(_) => match parent(canonical_path) {
                None => Err(CleanError::NoParent),
                Some(dir) => {
                    let u = new_uuid_v4_text();
                    let name = concat(".sweep-trash-", u.as_str());
                    let t = join(dir.as_str(), name.as_str());
                    assert(is_uuid_v4_text(u@) && t@ == spec_join(dir@, trash_prefix() + u@));
                    Ok(t)
                },
            },
        }
    }
}

/// A parent as `spec_parent` gives it carries no trailing `/` beyond the root.
pub proof fn lemma_parent_has_no_trailing_slash(p: Seq<char>)
    requires
        spec_parent(p) is Some,
    ensures
        ({
            let d = spec_parent(p)->0;
            d.len() == 0 || d == seq!['/'] || d.last() != '/'
        }),
{
    let q = strip_slashes(p);
    let k = crate::paths::last_slash(q);
    if k >= 0 {
        crate::paths::lemma_last_slash_bounds(q);
        lemma_strip_no_trailing(q.subrange(0, k + 1));
    }
}

proof fn lemma_strip_no_trailing(p: Seq<char>)
    ensures
        strip_slashes(p).len() > 0 ==> strip_slashes(p).last() != '/',
    decreases p.len(),
{
    if p.len() > 0 && p.last() == '/' {
        lemma_strip_no_trailing(p.drop_last());
    }
}

/// A trash name is one plain path component.
pub proof fn lemma_trash_name_is_plain(u: Seq<char>)
    requires
        is_uuid_v4_text(u),
    ensures
        is_plain_name(trash_prefix() + u),
{
    reveal_strlit(".sweep-trash-");
    let n = trash_prefix() + u;
    assert forall|i: int| 0 <= i < n.len() implies n[i] != '/' by {
        if i >= 13 {
            assert(n[i] == u[i - 13]);
            if !(i - 13 == 8 || i - 13 == 13 || i - 13 == 18 || i - 13 == 23) {
                assert(is_lower_hex(u[i - 13]));
            }
        }
    }
    assert(n.len() == 49);
}

/// The trash directory that `trash_path_for` names sits in the same
/// directory as the artifact, and its own name is `.sweep-trash-` followed
/// by the UUID: moving the artifact there is a rename within one directory.
pub proof fn lemma_trash_beside_artifact(canonical_path: Seq<char>, u: Seq<char>)
    requires
        spec_parent(canonical_path) is Some,
        is_uuid_v4_text(u),
    ensures
        ({
            let dir = spec_parent(canonical_path)->0;
            let t = spec_join(dir, trash_prefix() + u);
            &&& spec_parent(t) == Some(dir)
            &&& spec_file_name(t) == Some(trash_prefix() + u)
        }),
{
    let dir = spec_parent(canonical_path)->0;
    lemma_parent_has_no_trailing_slash(canonical_path);
    lemma_trash_name_is_plain(u);
    lemma_parent_of_join(dir, trash_prefix() + u);
    lemma_file_name_of_join(dir, trash_prefix() + u);
}

} // verus!
