//! What the panels of the dashboard show: the text of each cell and line,
//! and the colour class it is drawn in.
use vstd::prelude::*;

use crate::sweep_core::size::format_bytes;
use crate::sweep_core::size::spec_format_bytes;
use crate::sweep_core::traits::DiscoveredProject;
use crate::sweep_core::traits::GitInfo;
use crate::sweep_core::traits::GitStatus;
use crate::sweep_core::traits::ProjectType;
use crate::text::can_cut;
use crate::text::concat;
use crate::text::cuttable;
use crate::text::dec;
use crate::text::decimal;
use crate::text::is_shortened;
use crate::text::owned;
use crate::text::shorten_front;
use crate::ui::terminal::status_tone;
use crate::ui::terminal::tone_of;
use crate::ui::terminal::StatusTone;
use crate::ui::tui::NoticeKind;
use crate::ui::tui::Palette;
use crate::ui::tui::TuiView;
use crate::ui::tui::lemma_selected_bytes_prefix;
use crate::ui::tui::selected_bytes;
use crate::ui::tui::TuiApp;

verus! {

/// How loudly a size is drawn.
#[derive(Debug, Clone, Copy, PartialEq, Eq, Structural)]
pub enum SizeTier {
    /// At least 1 GiB: red and bold.
    Huge,
    /// At least 100 MiB: orange and bold.
    Large,
    /// At least 10 MiB: cyan.
    Medium,
    /// Below 10 MiB: muted.
    Small,
}

/// The tier of a size in bytes.
pub open spec fn size_tier(bytes: nat) -> SizeTier {
    if bytes >= 1024 * 1024 * 1024 {
        SizeTier::Huge
    } else if bytes >= 100 * 1024 * 1024 {
        SizeTier::Large
    } else if bytes >= 10 * 1024 * 1024 {
        SizeTier::Medium
    } else {
        SizeTier::Small
    }
}

/// The tier of a size in bytes.
pub fn tier_of(bytes: u64) -> (r: SizeTier)
    ensures
        r == size_tier(bytes as nat),
{
    if bytes >= 1024 * 1024 * 1024 {
        SizeTier::Huge
    } else if bytes >= 100 * 1024 * 1024 {
        SizeTier::Large
    } else if bytes >= 10 * 1024 * 1024 {
        SizeTier::Medium
    } else {
        SizeTier::Small
    }
}

/// The colour in which an ecosystem's name is drawn.
pub open spec fn ecosystem_colour(t: ProjectType) -> (u8, u8, u8) {
    match t {
        ProjectType::Rust => Palette::ORANGE,
        ProjectType::Node => Palette::SUCCESS_GREEN,
        ProjectType::Python => Palette::CYAN,
        ProjectType::Dotnet => Palette::PURPLE,
        _ => Palette::WARNING_YELLOW,
    }
}

/// The colour in which an ecosystem's name is drawn.
pub fn colour_of(t: &ProjectType) -> (r: (u8, u8, u8))
    ensures
        r == ecosystem_colour(*t),
{
    match t {
        ProjectType::Rust => Palette::ORANGE,
        ProjectType::Node => Palette::SUCCESS_GREEN,
        ProjectType::Python => Palette::CYAN,
        ProjectType::Dotnet => Palette::PURPLE,
        _ => Palette::WARNING_YELLOW,
    }
}

/// The git cell of a project in the dashboard's table, with its marker.
pub open spec fn table_status_text(git_info: Option<GitInfo>) -> Seq<char> {
    match git_info {
        Some(info) => if info.is_dirty {
            "\u{2716} "@ + info.status.label() + " (Dirty)"@
        } else {
            match info.status {
                GitStatus::Stale => "\u{25cf} Stale"@,
                GitStatus::Active => "\u{25b2} Active"@,
                GitStatus::Moderate => "\u{25c6} Moderate"@,
                GitStatus::Unknown => "? Unknown"@,
            }
        },
        None => "- No Git"@,
    }
}

/// The git cell of a project in the dashboard's table, with its marker.
pub fn table_status(git_info: &Option<GitInfo>) -> (r: String)
    ensures
        r@ == table_status_text(*git_info),
{
    match git_info {
        Some(info) => if info.is_dirty {
            let label = info.status.display_name();
            let head = concat("\u{2716} ", label.as_str());
            concat(head.as_str(), " (Dirty)")
        } else {
            match info.status {
                GitStatus::Stale => owned("\u{25cf} Stale"),
                GitStatus::Active => owned("\u{25b2} Active"),
                GitStatus::Moderate => owned("\u{25c6} Moderate"),
                GitStatus::Unknown => owned("? Unknown"),
            }
        },
        None => owned("- No Git"),
    }
}

/// A project can be shown as a row of the dashboard's table: its path can
/// be cut to 25 bytes and its size adds up within 64 bits.
pub open spec fn row_fits(p: DiscoveredProject) -> bool {
    &&& cuttable(p.root@, 28, 25)
    &&& p.reclaimable() <= u64::MAX
}

/// One row of the dashboard's table.
#[derive(Debug)]
pub struct TableRow {
    /// The project is selected.
    pub checked: bool,
    pub path: String,
    pub project_type: String,
    pub type_colour: (u8, u8, u8),
    pub status: String,
    pub tone: StatusTone,
    pub size: String,
    pub tier: SizeTier,
}

/// The row of `project`: its path cut to its last 25 bytes behind `...`
/// when longer than 28 bytes, its ecosystem, its git cell and its size.
pub fn table_row(project: &DiscoveredProject, checked: bool) -> (r: TableRow)
    requires
        row_fits(*project),
    ensures
        r.checked == checked,
        is_shortened(r.path@, project.root@, 28, 25),
        r.project_type@ == project.project_type.label(),
        r.type_colour == ecosystem_colour(project.project_type),
        r.status@ == table_status_text(project.git_info),
        r.tone == status_tone(project.git_info),
        r.size@ == spec_format_bytes(project.reclaimable()),
        r.tier == size_tier(project.reclaimable()),
{
    let bytes = project.total_reclaimable_bytes();
    TableRow {
        checked,
        path: shorten_front(project.root.as_str(), 28, 25),
        project_type: project.project_type.display_name(),
        type_colour: colour_of(&project.project_type),
        status: table_status(&project.git_info),
        tone: tone_of(&project.git_info),
        size: format_bytes(bytes),
        tier: tier_of(bytes),
    }
}

/// Whether `project` can be shown as a row of the dashboard's table.
pub fn fits_row(project: &DiscoveredProject) -> (r: bool)
    ensures
        r == row_fits(*project),
{
    let cut = can_cut(project.root.as_str(), 28, 25);
    let sum = project.checked_reclaimable_bytes();
    cut && sum.is_some()
}

/// Every listed position names a project that can be shown as a row.
pub open spec fn rows_fit(ps: Seq<DiscoveredProject>, f: Seq<usize>) -> bool {
    forall|i: int| 0 <= i < f.len() ==> #[trigger] f[i] < ps.len() && row_fits(ps[f[i] as int])
}

/// The line that the table shows when no project is listed.
pub open spec fn empty_table_text(query: Seq<char>) -> Seq<char> {
    if query.len() == 0 {
        "No cleanable projects discovered."@
    } else {
        "No projects match filter \""@ + query + "\". Press [c] or [Esc] to clear."@
    }
}

/// The title of the table: the number of projects, and with a filter query
/// also the query and how many projects it lists.
pub open spec fn table_title_text(query: Seq<char>, listed: nat, total: nat) -> Seq<char> {
    if query.len() == 0 {
        " Discovered Cleanable Projects ("@ + dec(total) + ") "@
    } else {
        " Discovered Cleanable Projects [Filter: \""@ + query + "\" ("@ + dec(listed) + "/"@ + dec(total)
            + ")] "@
    }
}

impl TuiApp {
    /// Whether every listed project can be shown as a row of the table.
    pub fn can_show_rows(&self) -> (r: bool)
        ensures
            r == rows_fit(self.projects@, self.filtered_indices@),
    {
        let mut i: usize = 0;
        while i < self.filtered_indices.len()
            invariant
                i <= self.filtered_indices@.len(),
                forall|k: int|
                    0 <= k < i ==> #[trigger] self.filtered_indices@[k] < self.projects@.len()
                        && row_fits(self.projects@[self.filtered_indices@[k] as int]),
            decreases self.filtered_indices.len() - i,
        {
            let idx = self.filtered_indices[i];
            if idx >= self.projects.len() || !fits_row(&self.projects[idx]) {
                assert(!(self.filtered_indices@[i as int] < self.projects@.len() && row_fits(
                    self.projects@[self.filtered_indices@[i as int] as int],
                )));
                return false;
            }
            i = i + 1;
        }
        true
    }

    /// The rows of the table: one per listed project, in the listed order,
    /// checked when the project is selected.
    pub fn table_rows(&self) -> (r: Vec<TableRow>)
        requires
            rows_fit(self.projects@, self.filtered_indices@),
        ensures
            r@.len() == self.filtered_indices@.len(),
            forall|i: int|
                #![trigger r@[i]]
                0 <= i < r@.len() ==> {
                    let p = self.projects@[self.filtered_indices@[i] as int];
                    &&& r@[i].checked == self.selected_indices@.contains(self.filtered_indices@[i])
                    &&& is_shortened(r@[i].path@, p.root@, 28, 25)
                    &&& r@[i].project_type@ == p.project_type.label()
                    &&& r@[i].type_colour == ecosystem_colour(p.project_type)
                    &&& r@[i].status@ == table_status_text(p.git_info)
                    &&& r@[i].tone == status_tone(p.git_info)
                    &&& r@[i].size@ == spec_format_bytes(p.reclaimable())
                    &&& r@[i].tier == size_tier(p.reclaimable())
                },
    {
        let mut rows: Vec<TableRow> = Vec::new();
        let mut i: usize = 0;
        while i < self.filtered_indices.len()
            invariant
                rows_fit(self.projects@, self.filtered_indices@),
                i <= self.filtered_indices@.len(),
                rows@.len() == i,
                forall|k: int|
                    #![trigger rows@[k]]
                    0 <= k < i ==> {
                        let p = self.projects@[self.filtered_indices@[k] as int];
                        &&& rows@[k].checked == self.selected_indices@.contains(self.filtered_indices@[k])
                        &&& is_shortened(rows@[k].path@, p.root@, 28, 25)
                        &&& rows@[k].project_type@ == p.project_type.label()
                        &&& rows@[k].type_colour == ecosystem_colour(p.project_type)
                        &&& rows@[k].status@ == table_status_text(p.git_info)
                        &&& rows@[k].tone == status_tone(p.git_info)
                        &&& rows@[k].size@ == spec_format_bytes(p.reclaimable())
                        &&& rows@[k].tier == size_tier(p.reclaimable())
                    },
            decreases self.filtered_indices.len() - i,
        {
            let idx = self.filtered_indices[i];
            assert(self.filtered_indices@[i as int] < self.projects@.len());
            let checked = self.selected_indices.contains(&idx);
            let row = table_row(&self.projects[idx], checked);
            rows.push(row);
            i = i + 1;
        }
        rows
    }

    /// The line that the table shows when no project is listed.
    pub fn empty_table_message(&self) -> (r: String)
        ensures
            r@ == empty_table_text(self.filter_query@),
    {
        if self.filter_query.as_str().is_empty() {
            owned("No cleanable projects discovered.")
        } else {
            let head = concat("No projects match filter \"", self.filter_query.as_str());
            concat(head.as_str(), "\". Press [c] or [Esc] to clear.")
        }
    }

    /// The title of the table.
    pub fn table_title(&self) -> (r: String)
        ensures
            r@ == table_title_text(
                self.filter_query@,
                self.filtered_indices@.len(),
                self.projects@.len(),
            ),
    {
        let total = decimal(self.projects.len() as u64);
        if self.filter_query.as_str().is_empty() {
            let head = concat(" Discovered Cleanable Projects (", total.as_str());
            concat(head.as_str(), ") ")
        } else {
            let listed = decimal(self.filtered_indices.len() as u64);
            let m1 = concat(" Discovered Cleanable Projects [Filter: \"", self.filter_query.as_str());
            let m2 = concat(m1.as_str(), "\" (");
            let m3 = concat(m2.as_str(), listed.as_str());
            let m4 = concat(m3.as_str(), "/");
            let m5 = concat(m4.as_str(), total.as_str());
            concat(m5.as_str(), ")] ")
        }
    }
}

/// The age of the last commit as the inspector words it.
pub open spec fn inspector_commit_text(days: Option<u64>) -> Seq<char> {
    match days {
        Some(0) => "Today"@,
        Some(1) => "1 day ago"@,
        Some(d) => dec(d as nat) + " days ago"@,
        None => "No commits found"@,
    }
}

/// The state of the work tree as the inspector words it.
pub open spec fn worktree_text(dirty: bool) -> Seq<char> {
    if dirty {
        "\u{2716} Uncommitted changes present (Dirty)"@
    } else {
        "\u{2713} Clean"@
    }
}

/// What the inspector shows of a project's repository.
#[derive(Debug)]
pub struct InspectorGit {
    pub last_commit: String,
    pub worktree: String,
    /// Uncommitted changes are present (drawn red rather than green).
    pub dirty: bool,
}

/// One artifact in the inspector: its name and size.
#[derive(Debug)]
pub struct InspectorArtifact {
    pub name: &'static str,
    pub size: String,
}

/// What the inspector shows of the project under the cursor.
#[derive(Debug)]
pub struct Inspector {
    pub root: String,
    /// The ecosystem behind a bullet.
    pub ecosystem: String,
    pub colour: (u8, u8, u8),
    /// `None` outside a git repository.
    pub git: Option<InspectorGit>,
    pub artifacts: Vec<InspectorArtifact>,
}

/// The inspector shows project `p`.
pub open spec fn shows_project(r: Inspector, p: DiscoveredProject) -> bool {
    &&& r.root@ == p.root@
    &&& r.ecosystem@ == "\u{25cf} "@ + p.project_type.label()
    &&& r.colour == ecosystem_colour(p.project_type)
    &&& match p.git_info {
        Some(g) => r.git matches Some(rg) && rg.last_commit@ == inspector_commit_text(g.last_commit_days)
            && rg.worktree@ == worktree_text(g.is_dirty) && rg.dirty == g.is_dirty,
        None => r.git is None,
    }
    &&& r.artifacts@.len() == p.artifacts@.len()
    &&& forall|i: int|
        #![trigger r.artifacts@[i]]
        0 <= i < r.artifacts@.len() ==> r.artifacts@[i].name@ == p.artifacts@[i].target.name@
            && r.artifacts@[i].size@ == spec_format_bytes(p.artifacts@[i].size_bytes as nat)
}

/// The age of the last commit as the inspector words it.
fn commit_age(days: Option<u64>) -> (r: String)
    ensures
        r@ == inspector_commit_text(days),
{
    match days {
        Some(0) => owned("Today"),
        Some(1) => owned("1 day ago"),
        Some(d) => {
            let n = decimal(d);
            concat(n.as_str(), " days ago")
        },
        None => owned("No commits found"),
    }
}

/// What the inspector shows of `p`.
fn inspect(p: &DiscoveredProject) -> (r: Inspector)
    ensures
        shows_project(r, *p),
{
    let label = p.project_type.display_name();
    let git = match &p.git_info {
        Some(g) => Some(
            InspectorGit {
                last_commit: commit_age(g.last_commit_days),
                worktree: if g.is_dirty {
                    owned("\u{2716} Uncommitted changes present (Dirty)")
                } else {
                    owned("\u{2713} Clean")
                },
                dirty: g.is_dirty,
            },
        ),
        None => None,
    };
    let mut artifacts: Vec<InspectorArtifact> = Vec::new();
    let mut i: usize = 0;
    while i < p.artifacts.len()
        invariant
            i <= p.artifacts@.len(),
            artifacts@.len() == i,
            forall|k: int|
                #![trigger artifacts@[k]]
                0 <= k < i ==> artifacts@[k].name@ == p.artifacts@[k].target.name@
                    && artifacts@[k].size@ == spec_format_bytes(p.artifacts@[k].size_bytes as nat),
        decreases p.artifacts.len() - i,
    {
        let a = &p.artifacts[i];
        artifacts.push(InspectorArtifact { name: a.target.name, size: format_bytes(a.size_bytes) });
        i = i + 1;
    }
    Inspector {
        root: owned(p.root.as_str()),
        ecosystem: concat("\u{25cf} ", label.as_str()),
        colour: colour_of(&p.project_type),
        git,
        artifacts,
    }
}

impl TuiApp {
    /// What the inspector shows: the project under the cursor, or `None`
    /// ("No project selected") when the cursor names none.
    pub fn inspector(&self) -> (r: Option<Inspector>)
        ensures
            match r {
                Some(view) => self.cursor_index < self.filtered_indices@.len()
                    && self.filtered_indices@[self.cursor_index as int] < self.projects@.len()
                    && shows_project(
                    view,
                    self.projects@[self.filtered_indices@[self.cursor_index as int] as int],
                ),
                None => !(self.cursor_index < self.filtered_indices@.len()
                    && self.filtered_indices@[self.cursor_index as int] < self.projects@.len()),
            },
    {
        match self.current_selected_project_index() {
            Some(idx) => if idx < self.projects.len() {
                Some(inspect(&self.projects[idx]))
            } else {
                None
            },
            None => None,
        }
    }
}

/// The groups in which the gauge breaks the selection down.
#[derive(Debug, Clone, Copy, PartialEq, Eq, Structural)]
pub enum Ecosystem {
    Rust,
    Node,
    Dotnet,
    Python,
    Java,
    /// Every other ecosystem.
    Other,
}

/// The group of an ecosystem.
pub open spec fn ecosystem_of(t: ProjectType) -> Ecosystem {
    match t {
        ProjectType::Rust => Ecosystem::Rust,
        ProjectType::Node => Ecosystem::Node,
        ProjectType::Dotnet => Ecosystem::Dotnet,
        ProjectType::Python => Ecosystem::Python,
        ProjectType::Java => Ecosystem::Java,
        _ => Ecosystem::Other,
    }
}

/// The groups in the order in which the gauge lists them.
pub open spec fn groups() -> Seq<Ecosystem> {
    seq![Ecosystem::Rust, Ecosystem::Node, Ecosystem::Dotnet, Ecosystem::Python, Ecosystem::Java, Ecosystem::Other]
}

/// Bytes of the selected projects of group `e`.
pub open spec fn group_bytes(ps: Seq<DiscoveredProject>, sel: Set<usize>, e: Ecosystem) -> nat
    decreases ps.len(),
{
    if ps.len() == 0 {
        0
    } else {
        group_bytes(ps.drop_last(), sel, e) + if sel.contains((ps.len() - 1) as usize) && ecosystem_of(
            ps.last().project_type,
        ) == e {
            ps.last().reclaimable()
        } else {
            0
        }
    }
}

/// Number of selected projects of group `e`.
pub open spec fn group_count(ps: Seq<DiscoveredProject>, sel: Set<usize>, e: Ecosystem) -> nat
    decreases ps.len(),
{
    if ps.len() == 0 {
        0
    } else {
        group_count(ps.drop_last(), sel, e) + if sel.contains((ps.len() - 1) as usize) && ecosystem_of(
            ps.last().project_type,
        ) == e {
            1nat
        } else {
            0nat
        }
    }
}

/// A project is safe to clean when it is outside git, or its repository is
/// stale and clean.
pub open spec fn is_safe(p: DiscoveredProject) -> bool {
    match p.git_info {
        Some(g) => g.status == GitStatus::Stale && !g.is_dirty,
        None => true,
    }
}

/// Bytes of the selected projects that are safe (`safe == true`) or not.
pub open spec fn safety_bytes(ps: Seq<DiscoveredProject>, sel: Set<usize>, safe: bool) -> nat
    decreases ps.len(),
{
    if ps.len() == 0 {
        0
    } else {
        safety_bytes(ps.drop_last(), sel, safe) + if sel.contains((ps.len() - 1) as usize) && is_safe(
            ps.last(),
        ) == safe {
            ps.last().reclaimable()
        } else {
            0
        }
    }
}

/// The groups among `gs` with selected projects, each with its bytes and
/// number of projects, in the order of `gs`.
pub open spec fn shares_of(ps: Seq<DiscoveredProject>, sel: Set<usize>, gs: Seq<Ecosystem>) -> Seq<
    (Ecosystem, nat, nat),
>
    decreases gs.len(),
{
    if gs.len() == 0 {
        Seq::empty()
    } else {
        let rest = shares_of(ps, sel, gs.drop_last());
        let e = gs.last();
        if group_count(ps, sel, e) > 0 {
            rest.push((e, group_bytes(ps, sel, e), group_count(ps, sel, e)))
        } else {
            rest
        }
    }
}

/// The groups split the selection: their bytes add up to the bytes of the
/// selected projects, and so do the bytes of the safe and the other ones.
pub proof fn lemma_breakdown_adds_up(ps: Seq<DiscoveredProject>, sel: Set<usize>)
    ensures
        group_bytes(ps, sel, Ecosystem::Rust) + group_bytes(ps, sel, Ecosystem::Node) + group_bytes(
            ps,
            sel,
            Ecosystem::Dotnet,
        ) + group_bytes(ps, sel, Ecosystem::Python) + group_bytes(ps, sel, Ecosystem::Java)
            + group_bytes(ps, sel, Ecosystem::Other) == selected_bytes(ps, sel),
        safety_bytes(ps, sel, true) + safety_bytes(ps, sel, false) == selected_bytes(ps, sel),
    decreases ps.len(),
{
    if ps.len() > 0 {
        lemma_breakdown_adds_up(ps.drop_last(), sel);
    }
}

proof fn lemma_group_count_bounded(ps: Seq<DiscoveredProject>, sel: Set<usize>, e: Ecosystem)
    ensures
        group_count(ps, sel, e) <= ps.len(),
    decreases ps.len(),
{
    if ps.len() > 0 {
        lemma_group_count_bounded(ps.drop_last(), sel, e);
    }
}

/// The bytes and number of projects of one group.
#[derive(Debug)]
pub struct EcosystemShare {
    pub ecosystem: Ecosystem,
    pub bytes: u64,
    pub projects: usize,
}

/// What the gauge shows of the selection.
#[derive(Debug)]
pub struct SelectionBreakdown {
    /// The groups with selected projects, in the order of `groups()`.
    pub shares: Vec<EcosystemShare>,
    /// Bytes of selected projects that are safe to clean.
    pub stale_bytes: u64,
    /// Bytes of the other selected projects.
    pub active_bytes: u64,
}

/// The view of a share: group, bytes and number of projects.
pub open spec fn share_view(s: EcosystemShare) -> (Ecosystem, nat, nat) {
    (s.ecosystem, s.bytes as nat, s.projects as nat)
}

impl TuiApp {
    /// What the gauge shows of the selection: the bytes and number of
    /// selected projects of each group that has any, and the bytes of the
    /// selected projects that are safe to clean and of the others.
    pub fn selection_breakdown(&self) -> (r: SelectionBreakdown)
        requires
            selected_bytes(self.projects@, self.selected_indices@) <= u64::MAX,
        ensures
            r.shares@.map_values(|s: EcosystemShare| share_view(s)) == shares_of(
                self.projects@,
                self.selected_indices@,
                groups(),
            ),
            r.stale_bytes == safety_bytes(self.projects@, self.selected_indices@, true),
            r.active_bytes == safety_bytes(self.projects@, self.selected_indices@, false),
    {
        let ghost ps = self.projects@;
        let ghost sel = self.selected_indices@;
        let mut rust_b: u64 = 0;
        let mut rust_n: usize = 0;
        let mut node_b: u64 = 0;
        let mut node_n: usize = 0;
        let mut dotnet_b: u64 = 0;
        let mut dotnet_n: usize = 0;
        let mut python_b: u64 = 0;
        let mut python_n: usize = 0;
        let mut java_b: u64 = 0;
        let mut java_n: usize = 0;
        let mut other_b: u64 = 0;
        let mut other_n: usize = 0;
        let mut stale: u64 = 0;
        let mut active: u64 = 0;
        let mut i: usize = 0;
        while i < self.projects.len()
            invariant
                ps == self.projects@,
                sel == self.selected_indices@,
                i <= ps.len(),
                selected_bytes(ps, sel) <= u64::MAX,
                rust_b == group_bytes(ps.take(i as int), sel, Ecosystem::Rust),
                rust_n == group_count(ps.take(i as int), sel, Ecosystem::Rust),
                node_b == group_bytes(ps.take(i as int), sel, Ecosystem::Node),
                node_n == group_count(ps.take(i as int), sel, Ecosystem::Node),
                dotnet_b == group_bytes(ps.take(i as int), sel, Ecosystem::Dotnet),
                dotnet_n == group_count(ps.take(i as int), sel, Ecosystem::Dotnet),
                python_b == group_bytes(ps.take(i as int), sel, Ecosystem::Python),
                python_n == group_count(ps.take(i as int), sel, Ecosystem::Python),
                java_b == group_bytes(ps.take(i as int), sel, Ecosystem::Java),
                java_n == group_count(ps.take(i as int), sel, Ecosystem::Java),
                other_b == group_bytes(ps.take(i as int), sel, Ecosystem::Other),
                other_n == group_count(ps.take(i as int), sel, Ecosystem::Other),
                stale == safety_bytes(ps.take(i as int), sel, true),
                active == safety_bytes(ps.take(i as int), sel, false),
            decreases self.projects.len() - i,
        {
            proof {
                let t = ps.take(i + 1);
                assert(t.drop_last() == ps.take(i as int));
                assert(t.last() == ps[i as int]);
                lemma_breakdown_adds_up(t, sel);
                lemma_selected_bytes_prefix(ps, sel, i + 1);
                lemma_selected_bytes_prefix(ps, sel, i as int);
                lemma_group_count_bounded(ps.take(i as int), sel, Ecosystem::Rust);
                lemma_group_count_bounded(ps.take(i as int), sel, Ecosystem::Node);
                lemma_group_count_bounded(ps.take(i as int), sel, Ecosystem::Dotnet);
                lemma_group_count_bounded(ps.take(i as int), sel, Ecosystem::Python);
                lemma_group_count_bounded(ps.take(i as int), sel, Ecosystem::Java);
                lemma_group_count_bounded(ps.take(i as int), sel, Ecosystem::Other);
            }
            if self.selected_indices.contains(&i) {
                let p = &self.projects[i];
                let b = p.total_reclaimable_bytes();
                match p.project_type {
                    ProjectType::Rust => {
                        rust_b = rust_b + b;
                        rust_n = rust_n + 1;
                    },
                    ProjectType::Node => {
                        node_b = node_b + b;
                        node_n = node_n + 1;
                    },
                    ProjectType::Dotnet => {
                        dotnet_b = dotnet_b + b;
                        dotnet_n = dotnet_n + 1;
                    },
                    ProjectType::Python => {
                        python_b = python_b + b;
                        python_n = python_n + 1;
                    },
                    ProjectType::Java => {
                        java_b = java_b + b;
                        java_n = java_n + 1;
                    },
                    _ => {
                        other_b = other_b + b;
                        other_n = other_n + 1;
                    },
                }
                let safe = match &p.git_info {
                    Some(g) => g.status == GitStatus::Stale && !g.is_dirty,
                    None => true,
                };
                if safe {
                    stale = stale + b;
                } else {
                    active = active + b;
                }
            }
            i = i + 1;
        }
        assert(ps.take(i as int) == ps);
        let mut shares: Vec<EcosystemShare> = Vec::new();
        if rust_n > 0 {
            shares.push(EcosystemShare { ecosystem: Ecosystem::Rust, bytes: rust_b, projects: rust_n });
        }
        if node_n > 0 {
            shares.push(EcosystemShare { ecosystem: Ecosystem::Node, bytes: node_b, projects: node_n });
        }
        if dotnet_n > 0 {
            shares.push(EcosystemShare { ecosystem: Ecosystem::Dotnet, bytes: dotnet_b, projects: dotnet_n });
        }
        if python_n > 0 {
            shares.push(EcosystemShare { ecosystem: Ecosystem::Python, bytes: python_b, projects: python_n });
        }
        if java_n > 0 {
            shares.push(EcosystemShare { ecosystem: Ecosystem::Java, bytes: java_b, projects: java_n });
        }
        if other_n > 0 {
            shares.push(EcosystemShare { ecosystem: Ecosystem::Other, bytes: other_b, projects: other_n });
        }
        proof {
            reveal_with_fuel(shares_of, 7);
            let g = groups();
            assert(g.drop_last() == seq![Ecosystem::Rust, Ecosystem::Node, Ecosystem::Dotnet, Ecosystem::Python, Ecosystem::Java]);
            assert(g.drop_last().drop_last() == seq![Ecosystem::Rust, Ecosystem::Node, Ecosystem::Dotnet, Ecosystem::Python]);
            assert(g.drop_last().drop_last().drop_last() == seq![Ecosystem::Rust, Ecosystem::Node, Ecosystem::Dotnet]);
            assert(g.drop_last().drop_last().drop_last().drop_last() == seq![Ecosystem::Rust, Ecosystem::Node]);
            assert(g.drop_last().drop_last().drop_last().drop_last().drop_last() == seq![Ecosystem::Rust]);
            assert(g.drop_last().drop_last().drop_last().drop_last().drop_last().drop_last() == Seq::<Ecosystem>::empty());
        }
        SelectionBreakdown { shares, stale_bytes: stale, active_bytes: active }
    }
}

/// The prompt of the filter line while the query is empty.
pub open spec fn filter_placeholder() -> Seq<char> {
    "Type to filter by name, path, ecosystem, or git status... "@
}

/// What the footer shows.
#[derive(Debug)]
pub enum Footer {
    /// The last notification.
    Notice { text: String, kind: NoticeKind },
    /// The filter line while the query is edited: the prompt (the
    /// placeholder, drawn muted, while the query is empty) and the count of
    /// listed projects.
    Filtering { prompt: String, placeholder: bool, matched: String },
    /// The key bindings while browsing; with a filter query set, the filter
    /// key is replaced by the key that clears it.
    Browsing { filter_set: bool },
}

/// `r` is what the footer shows in state `s`.
pub open spec fn footer_shows(r: Footer, s: TuiView) -> bool {
    match s.notice {
        Some((text, kind)) => r matches Footer::Notice { text: t, kind: k } && t@ == text && k == kind,
        None => if s.filtering {
            r matches Footer::Filtering { prompt, placeholder, matched } && placeholder == (s.query.len()
                == 0) && prompt@ == (if s.query.len() == 0 {
                filter_placeholder()
            } else {
                s.query + " "@
            }) && matched@ == "("@ + dec(s.filtered.len()) + "/"@ + dec(s.projects.len()) + " matched)"@
        } else {
            r matches Footer::Browsing { filter_set } && filter_set == (s.query.len() > 0)
        },
    }
}

impl TuiApp {
    /// What the footer shows: a notification when there is one, else the
    /// filter line while filtering, else the key bindings.
    pub fn footer(&self) -> (r: Footer)
        ensures
            footer_shows(r, self@),
    {
        match &self.notification_message {
            Some((msg, kind)) => Footer::Notice { text: msg.clone(), kind: *kind },
            None => if self.is_filtering {
                let empty = self.filter_query.as_str().is_empty();
                let prompt = if empty {
                    owned("Type to filter by name, path, ecosystem, or git status... ")
                } else {
                    concat(self.filter_query.as_str(), " ")
                };
                let listed = decimal(self.filtered_indices.len() as u64);
                let total = decimal(self.projects.len() as u64);
                let m1 = concat("(", listed.as_str());
                let m2 = concat(m1.as_str(), "/");
                let m3 = concat(m2.as_str(), total.as_str());
                let matched = concat(m3.as_str(), " matched)");
                Footer::Filtering { prompt, placeholder: empty, matched }
            } else {
                Footer::Browsing { filter_set: !self.filter_query.as_str().is_empty() }
            },
        }
    }
}

/// `n` followed by a space and `noun`, as in "3 artifact(s)".
pub fn counted(n: u64, noun: &str) -> (r: String)
    ensures
        r@ == dec(n as nat) + " "@ + noun@,
{
    let d = decimal(n);
    let head = concat(d.as_str(), " ");
    concat(head.as_str(), noun)
}

/// Whether the header has room for the large banner (a terminal of at
/// least 68 columns and 26 rows), and the height of the header.
pub fn header_layout(width: u16, height: u16) -> (r: (bool, u16))
    ensures
        r.0 == (height >= 26 && width >= 68),
        r.1 == (if r.0 {
            9u16
        } else {
            3u16
        }),
{
    let big = height >= 26 && width >= 68;
    (big, if big {
        9
    } else {
        3
    })
}

/// The width of the confirmation dialog in an area `width` columns wide.
pub open spec fn dialog_width(width: u16) -> u16 {
    if width < 4 {
        0
    } else if width - 4 < 58 {
        (width - 4) as u16
    } else {
        58
    }
}

/// The height of the confirmation dialog in an area `height` rows high.
pub open spec fn dialog_height(height: u16) -> u16 {
    if height < 2 {
        0
    } else if height - 2 < 11 {
        (height - 2) as u16
    } else {
        11
    }
}

/// Whether the confirmation dialog's position fits in 16 bits, as
/// `dialog_area` needs.
pub fn dialog_fits(x: u16, y: u16, width: u16, height: u16) -> (r: bool)
    ensures
        r == (x + (width - dialog_width(width)) / 2 <= u16::MAX && y + (height - dialog_height(height)) / 2
            <= u16::MAX),
{
    let w: u16 = if width.saturating_sub(4) < 58 {
        width.saturating_sub(4)
    } else {
        58
    };
    let h: u16 = if height.saturating_sub(2) < 11 {
        height.saturating_sub(2)
    } else {
        11
    };
    (x as u32) + ((width - w) / 2) as u32 <= 65535 && (y as u32) + ((height - h) / 2) as u32 <= 65535
}

/// The confirmation dialog centred in the area at (`x`, `y`) of the given
/// size: at most 58 columns and 11 rows, and 4 columns and 2 rows smaller
/// than the area. Its position, size as (`x`, `y`, width, height).
pub fn dialog_area(x: u16, y: u16, width: u16, height: u16) -> (r: (u16, u16, u16, u16))
    requires
        x + (width - dialog_width(width)) / 2 <= u16::MAX,
        y + (height - dialog_height(height)) / 2 <= u16::MAX,
    ensures
        r.2 == dialog_width(width),
        r.3 == dialog_height(height),
        r.0 == x + (width - r.2) / 2,
        r.1 == y + (height - r.3) / 2,
{
    let w: u16 = if width.saturating_sub(4) < 58 {
        width.saturating_sub(4)
    } else {
        58
    };
    let h: u16 = if height.saturating_sub(2) < 11 {
        height.saturating_sub(2)
    } else {
        11
    };
    (x + (width - w) / 2, y + (height - h) / 2, w, h)
}

} // verus!
