//! The state of the interactive dashboard: the project list, its filter,
//! the cursor, the selection, and how key presses change them.
use std::collections::HashSet;

use vstd::prelude::*;
use vstd::string::StringExecFns;

use crate::sweep_core::cleaner::CleanItem;
use crate::sweep_core::cleaner::CleanReport;
use crate::sweep_core::engine::ScanStats;
use crate::sweep_core::size::format_bytes;
use crate::sweep_core::size::spec_format_bytes;
use crate::sweep_core::traits::artifacts_bytes;
use crate::sweep_core::traits::DiscoveredArtifact;
use crate::sweep_core::traits::DiscoveredProject;
use crate::sweep_core::traits::GitInfo;
use crate::sweep_core::traits::GitStatus;
use crate::sweep_core::traits::ProjectType;
use crate::text::chars_of;
use crate::text::concat;
use crate::text::contains_chars;
use crate::text::contains_seq;
use crate::text::cuttable;
use crate::text::dec;
use crate::text::decimal;
use crate::text::lowercase;
use crate::text::owned;
use crate::text::pop_char;
use crate::text::push_char;
use crate::text::shorten_front;
use crate::text::is_shortened;
use crate::text::to_lowercase;
use crate::text::trim;
use crate::text::trimmed;

verus! {

broadcast use vstd::std_specs::hash::group_hash_axioms;

/// Colours of the dashboard, as 24-bit RGB triples.
pub struct Palette;

impl Palette {
    pub const CYAN: (u8, u8, u8) = (0, 215, 255);
    pub const BLUE: (u8, u8, u8) = (85, 170, 255);
    pub const PURPLE: (u8, u8, u8) = (190, 125, 255);
    pub const PINK: (u8, u8, u8) = (255, 140, 200);
    pub const TEAL: (u8, u8, u8) = (80, 235, 210);
    pub const SUCCESS_GREEN: (u8, u8, u8) = (75, 235, 130);
    pub const WARNING_YELLOW: (u8, u8, u8) = (255, 215, 75);
    pub const ORANGE: (u8, u8, u8) = (255, 145, 75);
    pub const DANGER_RED: (u8, u8, u8) = (255, 85, 95);
    pub const TEXT_MAIN: (u8, u8, u8) = (255, 255, 255);
    pub const TEXT_MUTED: (u8, u8, u8) = (170, 185, 215);
    pub const TEXT_DIM: (u8, u8, u8) = (110, 125, 155);
    pub const TEXT_DARK: (u8, u8, u8) = (10, 15, 25);
    pub const BORDER_CYAN: (u8, u8, u8) = (0, 215, 255);
    pub const BORDER_PRIMARY: (u8, u8, u8) = (70, 130, 220);
    pub const BORDER_ALERT: (u8, u8, u8) = (255, 85, 95);
    pub const BG_HIGHLIGHT: (u8, u8, u8) = (25, 45, 75);
    pub const BG_DARK: (u8, u8, u8) = (17, 17, 27);
}

/// How a notification is shown.
#[derive(Debug, Clone, Copy, PartialEq, Eq, Structural)]
pub enum NoticeKind {
    /// Cyan and bold: nothing was changed.
    Info,
    /// Red: an artifact could not be cleaned.
    Error,
    /// Green and bold: artifacts were cleaned.
    Success,
}

/// A key press, as far as the dashboard tells keys apart.
#[derive(Debug, Clone, Copy, PartialEq, Eq, Structural)]
pub enum KeyInput {
    Char(char),
    Enter,
    Esc,
    Backspace,
    Up,
    Down,
    Other,
}

/// What the caller has to do after a key press.
#[derive(Debug, Clone, Copy, PartialEq, Eq, Structural)]
pub enum KeyOutcome {
    Continue,
    /// The clean-up was confirmed: clean the selected projects now.
    Clean,
}

/// One artifact offered in the selection prompt.
#[derive(Debug, Clone)]
pub struct SelectableArtifact {
    pub project_root: String,
    pub project_type: ProjectType,
    pub artifact_path: String,
    pub artifact_name: &'static str,
    pub size_bytes: u64,
    pub git_info: Option<GitInfo>,
}

/// The view of an offered artifact: project root, ecosystem, artifact
/// path, artifact name, size and git information.
pub open spec fn selectable_view(a: SelectableArtifact) -> (Seq<char>, ProjectType, Seq<char>, Seq<char>, u64, Option<GitInfo>) {
    (a.project_root@, a.project_type, a.artifact_path@, a.artifact_name@, a.size_bytes, a.git_info)
}

/// The offered artifacts of one project.
pub open spec fn project_items(p: DiscoveredProject) -> Seq<(Seq<char>, ProjectType, Seq<char>, Seq<char>, u64, Option<GitInfo>)> {
    p.artifacts@.map_values(|a: DiscoveredArtifact| (p.root@, p.project_type, a.abs_path@, a.target.name@, a.size_bytes, p.git_info))
}

/// The offered artifacts of all projects, project by project.
pub open spec fn prompt_items(ps: Seq<DiscoveredProject>) -> Seq<(Seq<char>, ProjectType, Seq<char>, Seq<char>, u64, Option<GitInfo>)>
    decreases ps.len(),
{
    if ps.len() == 0 {
        Seq::empty()
    } else {
        prompt_items(ps.drop_last()) + project_items(ps.last())
    }
}

/// Positions among the offered artifacts of those whose project is preselected.
pub open spec fn prompt_defaults(ps: Seq<DiscoveredProject>) -> Seq<usize>
    decreases ps.len(),
{
    if ps.len() == 0 {
        Seq::empty()
    } else {
        let before = prompt_items(ps.drop_last()).len();
        prompt_defaults(ps.drop_last()) + if is_preselected(ps.last()) {
            Seq::new(ps.last().artifacts@.len(), |k: int| (before + k) as usize)
        } else {
            Seq::empty()
        }
    }
}

/// The status shown beside an offered artifact.
pub open spec fn prompt_status(git_info: Option<GitInfo>) -> Seq<char> {
    match git_info {
        Some(info) => if info.is_dirty {
            info.status.label() + " (Dirty)"@
        } else {
            info.status.label()
        },
        None => "No Git"@,
    }
}

impl SelectableArtifact {
    /// The line of the prompt: the project path (cut to its last 27 bytes
    /// behind `...` when longer than 30 bytes), ecosystem, artifact, size
    /// and status.
    pub fn label(&self) -> (r: String)
        requires
            cuttable(self.project_root@, 30, 27),
        ensures
            exists|shown: Seq<char>|
                #[trigger] is_shortened(shown, self.project_root@, 30, 27) && r@ == shown + " ("@
                    + self.project_type.label() + ": "@ + self.artifact_name@ + ") - "@ + spec_format_bytes(
                    self.size_bytes as nat,
                ) + " ["@ + prompt_status(self.git_info) + "]"@,
    {
        let shown = shorten_front(self.project_root.as_str(), 30, 27);
        let status = match &self.git_info {
            Some(info) => {
                let l = info.status.display_name();
                if info.is_dirty {
                    concat(l.as_str(), " (Dirty)")
                } else {
                    l
                }
            },
            None => owned("No Git"),
        };
        let t = self.project_type.display_name();
        let size = format_bytes(self.size_bytes);
        let mut r = concat(shown.as_str(), " (");
        r.append(t.as_str());
        r.append(": ");
        r.append(self.artifact_name);
        r.append(") - ");
        r.append(size.as_str());
        r.append(" [");
        r.append(status.as_str());
        r.append("]");
        assert(r@ == shown@ + " ("@ + self.project_type.label() + ": "@ + self.artifact_name@
            + ") - "@ + spec_format_bytes(self.size_bytes as nat) + " ["@ + prompt_status(self.git_info) + "]"@);
        assert(is_shortened(shown@, self.project_root@, 30, 27));
        r
    }
}

/// The artifacts that the selection prompt offers, and the positions of
/// those that start checked (the ones of stale, clean projects).
pub fn selectable_items(projects: &Vec<DiscoveredProject>) -> (r: (Vec<SelectableArtifact>, Vec<usize>))
    ensures
        r.0@.map_values(|a: SelectableArtifact| selectable_view(a)) == prompt_items(projects@),
        r.1@ == prompt_defaults(projects@),
{
    let mut items: Vec<SelectableArtifact> = Vec::new();
    let mut defaults: Vec<usize> = Vec::new();
    let mut i: usize = 0;
    while i < projects.len()
        invariant
            i <= projects@.len(),
            items@.map_values(|a: SelectableArtifact| selectable_view(a)) == prompt_items(projects@.take(i as int)),
            defaults@ == prompt_defaults(projects@.take(i as int)),
        decreases projects.len() - i,
    {
        let project = &projects[i];
        proof {
            assert(projects@.take(i + 1).drop_last() == projects@.take(i as int));
            assert(projects@.take(i + 1).last() == projects@[i as int]);
        }
        let is_stale = match &project.git_info {
            Some(info) => info.status == GitStatus::Stale && !info.is_dirty,
            None => false,
        };
        let ghost items0 = items@;
        let ghost defaults0 = defaults@;
        let ghost before = prompt_items(projects@.take(i as int)).len();
        let mut k: usize = 0;
        while k < project.artifacts.len()
            invariant
                k <= project.artifacts@.len(),
                items@.len() == items0.len() + k,
                items@.map_values(|a: SelectableArtifact| selectable_view(a)) == items0.map_values(|a: SelectableArtifact| selectable_view(a))
                    + project_items(*project).take(k as int),
                items0.len() == before,
                is_stale == is_preselected(*project),
                is_stale ==> defaults@ == defaults0 + Seq::new(k as nat, |j: int| (before + j) as usize),
                !is_stale ==> defaults@ == defaults0,
            decreases project.artifacts.len() - k,
        {
            let artifact = &project.artifacts[k];
            if is_stale {
                let pos = items.len();
                defaults.push(pos);
                assert(defaults@ == defaults0 + Seq::new((k + 1) as nat, |j: int| (before + j) as usize));
            }
            let ghost old_items = items@;
            items.push(SelectableArtifact {
                project_root: project.root.clone(),
                project_type: project.project_type.clone(),
                artifact_path: artifact.abs_path.clone(),
                artifact_name: artifact.target.name,
                size_bytes: artifact.size_bytes,
                git_info: project.git_info,
            });
            assert(items@.map_values(|a: SelectableArtifact| selectable_view(a)) == old_items.map_values(|a: SelectableArtifact| selectable_view(a)).push(selectable_view(items@.last())));
            assert(project_items(*project).take(k + 1) == project_items(*project).take(k as int).push(project_items(*project)[k as int]));
            k = k + 1;
        }
        assert(project_items(*project).take(k as int) == project_items(*project));
        i = i + 1;
    }
    assert(projects@.take(i as int) == projects@);
    (items, defaults)
}

/// The dashboard.
#[derive(Debug)]
pub struct TuiApp {
    pub projects: Vec<DiscoveredProject>,
    pub selected_indices: HashSet<usize>,
    pub cursor_index: usize,
    pub show_confirm_dialog: bool,
    pub notification_message: Option<(String, NoticeKind)>,
    pub stats: ScanStats,
    pub dry_run: bool,
    pub should_quit: bool,
    /// The row that the table highlights.
    pub table_selection: Option<usize>,
    pub filter_query: String,
    pub is_filtering: bool,
    pub filtered_indices: Vec<usize>,
}

/// The dashboard's state as values.
pub struct TuiView {
    pub projects: Seq<DiscoveredProject>,
    pub selected: Set<usize>,
    pub cursor: usize,
    pub confirm: bool,
    pub notice: Option<(Seq<char>, NoticeKind)>,
    pub dry_run: bool,
    pub should_quit: bool,
    pub table: Option<usize>,
    pub query: Seq<char>,
    pub filtering: bool,
    pub filtered: Seq<usize>,
}

pub open spec fn notice_view(n: Option<(String, NoticeKind)>) -> Option<(Seq<char>, NoticeKind)> {
    match n {
        Some((s, k)) => Some((s@, k)),
        None => None,
    }
}

impl View for TuiApp {
    type V = TuiView;

    open spec fn view(&self) -> TuiView {
        TuiView {
            projects: self.projects@,
            selected: self.selected_indices@,
            cursor: self.cursor_index,
            confirm: self.show_confirm_dialog,
            notice: notice_view(self.notification_message),
            dry_run: self.dry_run,
            should_quit: self.should_quit,
            table: self.table_selection,
            query: self.filter_query@,
            filtering: self.is_filtering,
            filtered: self.filtered_indices@,
        }
    }
}

/// The git part of the text that the filter searches.
pub open spec fn status_key(git_info: Option<GitInfo>) -> Seq<char> {
    match git_info {
        Some(info) => if info.is_dirty {
            lowercase(info.status.label()) + " dirty"@
        } else {
            lowercase(info.status.label())
        },
        None => "no git"@,
    }
}

/// A project matches the lower-case query `q` when its path, its
/// ecosystem or its git status (all lower-cased) contain `q`.
pub open spec fn project_matches(p: DiscoveredProject, q: Seq<char>) -> bool {
    ||| contains_seq(lowercase(p.root@), q)
    ||| contains_seq(lowercase(p.project_type.label()), q)
    ||| contains_seq(status_key(p.git_info), q)
}

/// Positions of the projects that match `q`, in order.
pub open spec fn matching_positions(ps: Seq<DiscoveredProject>, q: Seq<char>) -> Seq<usize>
    decreases ps.len(),
{
    if ps.len() == 0 {
        Seq::empty()
    } else {
        let rest = matching_positions(ps.drop_last(), q);
        if project_matches(ps.last(), q) {
            rest.push((ps.len() - 1) as usize)
        } else {
            rest
        }
    }
}

/// The positions `0..n`.
pub open spec fn all_positions(n: nat) -> Seq<usize> {
    Seq::new(n, |i: int| i as usize)
}

/// The positions that the filter `query` lets through: all of them for a
/// query that is blank, else those matching its trimmed lower-case form.
pub open spec fn filter_positions(ps: Seq<DiscoveredProject>, query: Seq<char>) -> Seq<usize> {
    let q = lowercase(trimmed(query));
    if q.len() == 0 {
        all_positions(ps.len())
    } else {
        matching_positions(ps, q)
    }
}

/// The state after the filter has been applied: the list of positions is
/// recomputed, the cursor is kept within it, and the table row follows it.
pub open spec fn after_filter(s: TuiView) -> TuiView {
    let f = filter_positions(s.projects, s.query);
    let c: usize = if f.len() == 0 {
        0
    } else if s.cursor >= f.len() {
        (f.len() - 1) as usize
    } else {
        s.cursor
    };
    TuiView { filtered: f, cursor: c, table: if f.len() == 0 { None } else { Some(c) }, ..s }
}

/// The state after moving the cursor up, wrapping from the top to the bottom.
pub open spec fn after_move_up(s: TuiView) -> TuiView {
    if s.filtered.len() == 0 {
        s
    } else {
        let c: usize = if s.cursor > 0 {
            (s.cursor - 1) as usize
        } else {
            (s.filtered.len() - 1) as usize
        };
        TuiView { cursor: c, table: Some(c), ..s }
    }
}

/// The state after moving the cursor down, wrapping from the bottom to the top.
pub open spec fn after_move_down(s: TuiView) -> TuiView {
    if s.filtered.len() == 0 {
        s
    } else {
        let c: usize = if s.cursor + 1 < s.filtered.len() {
            (s.cursor + 1) as usize
        } else {
            0
        };
        TuiView { cursor: c, table: Some(c), ..s }
    }
}

/// The state after toggling the project under the cursor.
pub open spec fn after_toggle_selection(s: TuiView) -> TuiView {
    if s.cursor < s.filtered.len() {
        let idx = s.filtered[s.cursor as int];
        TuiView {
            selected: if s.selected.contains(idx) {
                s.selected.remove(idx)
            } else {
                s.selected.insert(idx)
            },
            ..s
        }
    } else {
        s
    }
}

/// Every position in the filtered list is selected.
pub open spec fn all_filtered_selected(s: TuiView) -> bool {
    forall|i: int| 0 <= i < s.filtered.len() ==> s.selected.contains(#[trigger] s.filtered[i])
}

/// The state after toggling all filtered projects: when all of them are
/// selected they are all unselected, otherwise they are all selected.
pub open spec fn after_toggle_all(s: TuiView) -> TuiView {
    if s.filtered.len() == 0 {
        s
    } else if all_filtered_selected(s) {
        TuiView { selected: s.selected.difference(s.filtered.to_set()), ..s }
    } else {
        TuiView { selected: s.selected.union(s.filtered.to_set()), ..s }
    }
}

/// The state after unselecting: everything without a filter query, the
/// filtered projects with one.
pub open spec fn after_unselect_all(s: TuiView) -> TuiView {
    if s.query.len() == 0 {
        TuiView { selected: Set::empty(), ..s }
    } else {
        TuiView { selected: s.selected.difference(s.filtered.to_set()), ..s }
    }
}

/// The state after clearing the filter query and applying the filter.
pub open spec fn after_clear_filter(s: TuiView) -> TuiView {
    after_filter(TuiView { query: Seq::empty(), ..s })
}

/// A key press while the confirmation dialog is open: `y` or Enter confirms
/// the clean-up, `n` or Esc cancels it.
pub open spec fn after_confirm_key(s: TuiView, key: KeyInput) -> (TuiView, KeyOutcome) {
    match key {
        KeyInput::Char('y') | KeyInput::Enter => (TuiView { confirm: false, ..s }, KeyOutcome::Clean),
        KeyInput::Char('n') | KeyInput::Esc => (TuiView { confirm: false, ..s }, KeyOutcome::Continue),
        _ => (s, KeyOutcome::Continue),
    }
}

/// A key press while the filter query is edited.
pub open spec fn after_filter_key(s: TuiView, key: KeyInput) -> TuiView {
    match key {
        KeyInput::Enter => TuiView { filtering: false, ..s },
        KeyInput::Esc => TuiView { filtering: false, ..after_clear_filter(s) },
        KeyInput::Backspace => after_filter(
            TuiView { query: if s.query.len() > 0 { s.query.drop_last() } else { s.query }, ..s },
        ),
        KeyInput::Char(c) => after_filter(TuiView { query: s.query.push(c), ..s }),
        _ => s,
    }
}

/// A key press while browsing the list.
pub open spec fn after_browse_key(s: TuiView, key: KeyInput) -> TuiView {
    match key {
        KeyInput::Char('q') => TuiView { should_quit: true, ..s },
        KeyInput::Esc => if s.query.len() > 0 {
            after_clear_filter(s)
        } else {
            TuiView { should_quit: true, ..s }
        },
        KeyInput::Char('/') | KeyInput::Char('f') => TuiView { filtering: true, ..s },
        KeyInput::Char('c') if s.query.len() > 0 => after_clear_filter(s),
        KeyInput::Up | KeyInput::Char('k') => after_move_up(s),
        KeyInput::Down | KeyInput::Char('j') => after_move_down(s),
        KeyInput::Char(' ') => after_toggle_selection(s),
        KeyInput::Char('a') => after_toggle_all(s),
        KeyInput::Char('u') => after_unselect_all(s),
        KeyInput::Char('d') if !s.selected.is_empty() => TuiView { confirm: true, ..s },
        _ => s,
    }
}

/// The effect of a key press: the new state and what the caller must do.
pub open spec fn after_key(s: TuiView, key: KeyInput) -> (TuiView, KeyOutcome) {
    if s.confirm {
        after_confirm_key(s, key)
    } else if s.filtering {
        (after_filter_key(s, key), KeyOutcome::Continue)
    } else {
        (after_browse_key(s, key), KeyOutcome::Continue)
    }
}

/// A project is preselected when its repository is stale and clean.
pub open spec fn is_preselected(p: DiscoveredProject) -> bool {
    p.git_info matches Some(g) && g.status == GitStatus::Stale && !g.is_dirty
}

/// Positions of the preselected projects.
pub open spec fn preselected(ps: Seq<DiscoveredProject>) -> Set<usize> {
    Set::new(|i: usize| i < ps.len() && is_preselected(ps[i as int]))
}

/// The dashboard as it opens on `projects`.
pub open spec fn initial_view(projects: Seq<DiscoveredProject>, dry_run: bool) -> TuiView {
    TuiView {
        projects,
        selected: preselected(projects),
        cursor: 0,
        confirm: false,
        notice: None,
        dry_run,
        should_quit: false,
        table: if projects.len() == 0 { None } else { Some(0) },
        query: Seq::empty(),
        filtering: false,
        filtered: all_positions(projects.len()),
    }
}

/// Bytes of all projects.
pub open spec fn projects_bytes(ps: Seq<DiscoveredProject>) -> nat
    decreases ps.len(),
{
    if ps.len() == 0 {
        0
    } else {
        projects_bytes(ps.drop_last()) + ps.last().reclaimable()
    }
}

/// Bytes of the projects at selected positions.
pub open spec fn selected_bytes(ps: Seq<DiscoveredProject>, sel: Set<usize>) -> nat
    decreases ps.len(),
{
    if ps.len() == 0 {
        0
    } else {
        selected_bytes(ps.drop_last(), sel) + if sel.contains((ps.len() - 1) as usize) {
            ps.last().reclaimable()
        } else {
            0
        }
    }
}

/// Artifacts of the projects at selected positions.
pub open spec fn selected_artifacts(ps: Seq<DiscoveredProject>, sel: Set<usize>) -> nat
    decreases ps.len(),
{
    if ps.len() == 0 {
        0
    } else {
        selected_artifacts(ps.drop_last(), sel) + if sel.contains((ps.len() - 1) as usize) {
            ps.last().artifacts@.len()
        } else {
            0
        }
    }
}

/// The artifacts of the selected projects, project by project in order of position.
pub open spec fn clean_plan_of(ps: Seq<DiscoveredProject>, sel: Set<usize>) -> Seq<DiscoveredArtifact>
    decreases ps.len(),
{
    if ps.len() == 0 {
        Seq::empty()
    } else {
        clean_plan_of(ps.drop_last(), sel) + if sel.contains((ps.len() - 1) as usize) {
            ps.last().artifacts@
        } else {
            Seq::empty()
        }
    }
}

/// The projects at positions that are not selected, in order.
pub open spec fn unselected_projects(ps: Seq<DiscoveredProject>, sel: Set<usize>) -> Seq<DiscoveredProject>
    decreases ps.len(),
{
    if ps.len() == 0 {
        Seq::empty()
    } else {
        let rest = unselected_projects(ps.drop_last(), sel);
        if sel.contains((ps.len() - 1) as usize) {
            rest
        } else {
            rest.push(ps.last())
        }
    }
}

/// The message after a successful clean-up.
pub open spec fn cleaned_message(report_items: nat, report_bytes: nat) -> Seq<char> {
    "\u{2714} Cleaned "@ + dec(report_items) + " artifact(s) successfully! Reclaimed "@ + spec_format_bytes(report_bytes)
}

/// The message for an artifact that could not be cleaned.
pub open spec fn clean_error_message(name: Seq<char>, error: Seq<char>) -> Seq<char> {
    "Error cleaning "@ + name + ": "@ + error
}

/// The message after a successful clean-up of `items` artifacts that freed `bytes`.
pub fn cleaned_text(items: u64, bytes: u64) -> (r: String)
    ensures
        r@ == cleaned_message(items as nat, bytes as nat),
{
    let count = decimal(items);
    let size = format_bytes(bytes);
    let m1 = concat("\u{2714} Cleaned ", count.as_str());
    let m2 = concat(m1.as_str(), " artifact(s) successfully! Reclaimed ");
    concat(m2.as_str(), size.as_str())
}

/// What a clean-up outside the dashboard reports once the chosen artifacts
/// were moved to the trash (those in `renamed`) and the trash was purged
/// (`report`): nothing when no artifact was moved, else the cleaned message.
pub fn clean_outcome_text(renamed: &Vec<CleanItem>, report: &CleanReport) -> (r: Option<String>)
    ensures
        r is None <==> renamed@.len() == 0,
        r matches Some(t) ==> t@ == cleaned_message(report.items_cleaned as nat, report.total_bytes_reclaimed as nat),
{
    if renamed.len() > 0 {
        Some(cleaned_text(report.items_cleaned as u64, report.total_bytes_reclaimed))
    } else {
        None
    }
}

/// The message for the artifact called `name` that could not be cleaned.
pub fn clean_error_text(name: &str, error: &str) -> (r: String)
    ensures
        r@ == clean_error_message(name@, error@),
{
    let head = concat("Error cleaning ", name);
    let head2 = concat(head.as_str(), ": ");
    concat(head2.as_str(), error)
}

/// The state after a clean-up whose purge cleaned `items` artifacts and
/// freed `bytes`: the selected projects leave the list, nothing stays
/// selected, the filter is applied again, and the report is announced.
pub open spec fn after_clean(s: TuiView, items: nat, bytes: nat) -> TuiView {
    TuiView {
        notice: Some((cleaned_message(items, bytes), NoticeKind::Success)),
        ..after_filter(TuiView { projects: unselected_projects(s.projects, s.selected), selected: Set::empty(), ..s })
    }
}

/// The message of a simulated clean-up.
pub open spec fn dry_run_message() -> Seq<char> {
    "[DRY-RUN] Clean simulated: No files were touched."@
}

/// The selected bytes of a prefix never exceed those of the whole list, nor
/// does a selected project's size.
pub proof fn lemma_selected_bytes_prefix(ps: Seq<DiscoveredProject>, sel: Set<usize>, k: int)
    requires
        0 <= k <= ps.len(),
    ensures
        selected_bytes(ps.take(k), sel) <= selected_bytes(ps, sel),
        k < ps.len() && sel.contains(k as usize) ==> ps[k].reclaimable() <= selected_bytes(ps, sel),
    decreases ps.len() - k,
{
    if k < ps.len() {
        lemma_selected_bytes_prefix(ps, sel, k + 1);
        assert(ps.take(k + 1).drop_last() == ps.take(k));
        assert(ps.take(k + 1).last() == ps[k]);
    } else {
        assert(ps.take(k) == ps);
    }
}

proof fn lemma_selected_artifacts_prefix(ps: Seq<DiscoveredProject>, sel: Set<usize>, k: int)
    requires
        0 <= k <= ps.len(),
    ensures
        selected_artifacts(ps.take(k), sel) <= selected_artifacts(ps, sel),
    decreases ps.len() - k,
{
    if k < ps.len() {
        lemma_selected_artifacts_prefix(ps, sel, k + 1);
        assert(ps.take(k + 1).drop_last() == ps.take(k));
    } else {
        assert(ps.take(k) == ps);
    }
}

proof fn lemma_projects_bytes_prefix(ps: Seq<DiscoveredProject>, k: int)
    requires
        0 <= k <= ps.len(),
    ensures
        projects_bytes(ps.take(k)) <= projects_bytes(ps),
        k < ps.len() ==> ps[k].reclaimable() <= projects_bytes(ps),
    decreases ps.len() - k,
{
    if k < ps.len() {
        lemma_projects_bytes_prefix(ps, k + 1);
        assert(ps.take(k + 1).drop_last() == ps.take(k));
        assert(ps.take(k + 1).last() == ps[k]);
    } else {
        assert(ps.take(k) == ps);
    }
}

/// The selected bytes never exceed the bytes of all projects.
pub proof fn lemma_selected_within_total(ps: Seq<DiscoveredProject>, sel: Set<usize>)
    ensures
        selected_bytes(ps, sel) <= projects_bytes(ps),
    decreases ps.len(),
{
    if ps.len() > 0 {
        lemma_selected_within_total(ps.drop_last(), sel);
    }
}

/// The bytes of all projects, or `None` when they add up to more than 64
/// bits hold.
pub fn checked_projects_bytes(projects: &Vec<DiscoveredProject>) -> (r: Option<u64>)
    ensures
        r matches Some(b) ==> b == projects_bytes(projects@),
        r is None <==> projects_bytes(projects@) > u64::MAX,
{
    let ghost ps = projects@;
    let mut total: u64 = 0;
    let mut i: usize = 0;
    while i < projects.len()
        invariant
            ps == projects@,
            i <= ps.len(),
            total == projects_bytes(ps.take(i as int)),
        decreases projects.len() - i,
    {
        proof {
            assert(ps.take(i + 1).drop_last() == ps.take(i as int));
            assert(ps.take(i + 1).last() == ps[i as int]);
        }
        match projects[i].checked_reclaimable_bytes() {
            Some(b) => match total.checked_add(b) {
                Some(t) => {
                    total = t;
                },
                None => {
                    proof {
                        lemma_projects_bytes_prefix(ps, i + 1);
                    }
                    return None;
                },
            },
            None => {
                proof {
                    lemma_projects_bytes_prefix(ps, i + 1);
                }
                return None;
            },
        }
        i = i + 1;
    }
    assert(ps.take(i as int) == ps);
    Some(total)
}

/// The git part of the text that the filter searches.
fn status_key_text(git_info: &Option<GitInfo>) -> (r: String)
    ensures
        r@ == status_key(*git_info),
{
    match git_info {
        Some(info) => {
            let label = info.status.display_name();
            let lower = to_lowercase(label.as_str());
            if info.is_dirty {
                concat(lower.as_str(), " dirty")
            } else {
                lower
            }
        },
        None => owned("no git"),
    }
}

/// Whether one of the search keys of a project (its lower-cased path,
/// ecosystem and git status) contains the query `q`.
pub fn keys_match(path_key: &str, ecosystem_key: &str, git_key: &str, q: &Vec<char>) -> (r: bool)
    ensures
        r == (contains_seq(path_key@, q@) || contains_seq(ecosystem_key@, q@) || contains_seq(
            git_key@,
            q@,
        )),
{
    let in_path = contains_chars(&chars_of(path_key), q);
    let in_eco = contains_chars(&chars_of(ecosystem_key), q);
    let in_git = contains_chars(&chars_of(git_key), q);
    in_path || in_eco || in_git
}

/// Whether a project matches the lower-case query `q`.
fn matches_query(p: &DiscoveredProject, q: &Vec<char>) -> (r: bool)
    ensures
        r == project_matches(*p, q@),
{
    let path = to_lowercase(p.root.as_str());
    let label = p.project_type.display_name();
    let eco = to_lowercase(label.as_str());
    let git = status_key_text(&p.git_info);
    keys_match(path.as_str(), eco.as_str(), git.as_str(), q)
}

/// The positions `0..n` as a vector.
fn positions(n: usize) -> (r: Vec<usize>)
    ensures
        r@ == all_positions(n as nat),
{
    let mut v: Vec<usize> = Vec::new();
    let mut i: usize = 0;
    while i < n
        invariant
            i <= n,
            v@ == all_positions(i as nat),
        decreases n - i,
    {
        v.push(i);
        assert(v@ == all_positions((i + 1) as nat));
        i = i + 1;
    }
    v
}

impl TuiApp {
    /// The dashboard over `projects`, with the stale and clean ones preselected.
    pub fn new(projects: Vec<DiscoveredProject>, stats: ScanStats, dry_run: bool) -> (r: Self)
        ensures
            r@ == initial_view(projects@, dry_run),
            r.stats == stats,
    {
        let mut selected: HashSet<usize> = HashSet::new();
        let mut i: usize = 0;
        while i < projects.len()
            invariant
                i <= projects@.len(),
                selected@ == Set::new(|k: usize| k < i && is_preselected(projects@[k as int])),
            decreases projects.len() - i,
        {
            let is_stale = match &projects[i].git_info {
                Some(git) => git.status == GitStatus::Stale && !git.is_dirty,
                None => false,
            };
            if is_stale {
                selected.insert(i);
            }
            assert(selected@ == Set::new(|k: usize| k < i + 1 && is_preselected(projects@[k as int])));
            i = i + 1;
        }
        let filtered_indices = positions(projects.len());
        let table_selection = if filtered_indices.len() > 0 {
            Some(0)
        } else {
            None
        };
        TuiApp {
            projects,
            selected_indices: selected,
            cursor_index: 0,
            show_confirm_dialog: false,
            notification_message: None,
            stats,
            dry_run,
            should_quit: false,
            table_selection,
            filter_query: String::new(),
            is_filtering: false,
            filtered_indices,
        }
    }

    /// Recomputes the filtered list from the query and keeps the cursor within it.
    pub fn apply_filter(&mut self)
        ensures
            final(self)@ == after_filter(old(self)@),
            final(self).stats == old(self).stats,
    {
        let t = trim(self.filter_query.as_str());
        let q = to_lowercase(t.as_str());
        let qc = chars_of(q.as_str());
        let ghost ps = self.projects@;
        if qc.len() == 0 {
            self.filtered_indices = positions(self.projects.len());
        } else {
            let mut out: Vec<usize> = Vec::new();
            let mut i: usize = 0;
            while i < self.projects.len()
                invariant
                    ps == self.projects@,
                    i <= ps.len(),
                    out@ == matching_positions(ps.take(i as int), qc@),
                decreases ps.len() - i,
            {
                assert(ps.take(i + 1).drop_last() == ps.take(i as int));
                assert(ps.take(i + 1).last() == ps[i as int]);
                if matches_query(&self.projects[i], &qc) {
                    out.push(i);
                }
                i = i + 1;
            }
            assert(ps.take(i as int) == ps);
            self.filtered_indices = out;
        }
        if self.filtered_indices.len() == 0 {
            self.cursor_index = 0;
            self.table_selection = None;
        } else {
            if self.cursor_index >= self.filtered_indices.len() {
                self.cursor_index = self.filtered_indices.len() - 1;
            }
            self.table_selection = Some(self.cursor_index);
        }
    }

    /// The position of the project under the cursor.
    pub fn current_selected_project_index(&self) -> (r: Option<usize>)
        ensures
            r == (if self.cursor_index < self.filtered_indices@.len() {
                Some(self.filtered_indices@[self.cursor_index as int])
            } else {
                None
            }),
    {
        if self.cursor_index < self.filtered_indices.len() {
            Some(self.filtered_indices[self.cursor_index])
        } else {
            None
        }
    }

    /// Moves the cursor up, wrapping from the top to the bottom.
    pub fn move_up(&mut self)
        ensures
            final(self)@ == after_move_up(old(self)@),
            final(self).stats == old(self).stats,
    {
        if self.filtered_indices.len() == 0 {
            return;
        }
        if self.cursor_index > 0 {
            self.cursor_index = self.cursor_index - 1;
        } else {
            self.cursor_index = self.filtered_indices.len() - 1;
        }
        self.table_selection = Some(self.cursor_index);
    }

    /// Moves the cursor down, wrapping from the bottom to the top.
    pub fn move_down(&mut self)
        ensures
            final(self)@ == after_move_down(old(self)@),
            final(self).stats == old(self).stats,
    {
        if self.filtered_indices.len() == 0 {
            return;
        }
        if self.cursor_index < self.filtered_indices.len() - 1 {
            self.cursor_index = self.cursor_index + 1;
        } else {
            self.cursor_index = 0;
        }
        self.table_selection = Some(self.cursor_index);
    }

    /// Selects or unselects the project under the cursor.
    pub fn toggle_selection(&mut self)
        ensures
            final(self)@ == after_toggle_selection(old(self)@),
            final(self).stats == old(self).stats,
    {
        if self.cursor_index < self.filtered_indices.len() {
            let actual_idx = self.filtered_indices[self.cursor_index];
            if self.selected_indices.contains(&actual_idx) {
                self.selected_indices.remove(&actual_idx);
            } else {
                self.selected_indices.insert(actual_idx);
            }
        }
    }

    /// Unselects all filtered projects when all of them are selected, and
    /// selects them all otherwise.
    pub fn toggle_all(&mut self)
        ensures
            final(self)@ == after_toggle_all(old(self)@),
            final(self).stats == old(self).stats,
    {
        if self.filtered_indices.len() == 0 {
            return;
        }
        let ghost s = self@;
        let mut all_selected = true;
        let mut i: usize = 0;
        while i < self.filtered_indices.len()
            invariant
                self@ == s,
                i <= s.filtered.len(),
                all_selected == forall|k: int| 0 <= k < i ==> s.selected.contains(#[trigger] s.filtered[k]),
            decreases self.filtered_indices.len() - i,
        {
            let idx = self.filtered_indices[i];
            if !self.selected_indices.contains(&idx) {
                all_selected = false;
            }
            i = i + 1;
        }
        let ghost st = self.stats;
        let mut j: usize = 0;
        while j < self.filtered_indices.len()
            invariant
                self@ == (TuiView { selected: self.selected_indices@, ..s }),
                self.stats == st,
                j <= s.filtered.len(),
                all_selected ==> self.selected_indices@ == s.selected.difference(s.filtered.take(j as int).to_set()),
                !all_selected ==> self.selected_indices@ == s.selected.union(s.filtered.take(j as int).to_set()),
            decreases self.filtered_indices.len() - j,
        {
            let idx = self.filtered_indices[j];
            proof {
                assert(s.filtered.take(j + 1) == s.filtered.take(j as int).push(idx));
                assert(s.filtered.take(j as int).push(idx).to_set() == s.filtered.take(j as int).to_set().insert(idx)) by {
                    s.filtered.take(j as int).lemma_push_to_set_commute(idx);
                }
            }
            if all_selected {
                self.selected_indices.remove(&idx);
                assert(self.selected_indices@ =~= s.selected.difference(s.filtered.take(j + 1).to_set()));
            } else {
                self.selected_indices.insert(idx);
                assert(self.selected_indices@ =~= s.selected.union(s.filtered.take(j + 1).to_set()));
            }
            j = j + 1;
        }
        assert(s.filtered.take(j as int) == s.filtered);
    }

    /// Unselects everything when no filter query is set, else the filtered projects.
    pub fn unselect_all(&mut self)
        ensures
            final(self)@ == after_unselect_all(old(self)@),
            final(self).stats == old(self).stats,
    {
        if self.filter_query.as_str().is_empty() {
            self.selected_indices.clear();
        } else {
            let ghost s = self@;
            let ghost st = self.stats;
            let mut j: usize = 0;
            while j < self.filtered_indices.len()
                invariant
                    self@ == (TuiView { selected: self.selected_indices@, ..s }),
                    self.stats == st,
                    j <= s.filtered.len(),
                    self.selected_indices@ == s.selected.difference(s.filtered.take(j as int).to_set()),
                decreases self.filtered_indices.len() - j,
            {
                let idx = self.filtered_indices[j];
                proof {
                    assert(s.filtered.take(j + 1) == s.filtered.take(j as int).push(idx));
                    s.filtered.take(j as int).lemma_push_to_set_commute(idx);
                }
                self.selected_indices.remove(&idx);
                assert(self.selected_indices@ =~= s.selected.difference(s.filtered.take(j + 1).to_set()));
                j = j + 1;
            }
            assert(s.filtered.take(j as int) == s.filtered);
        }
    }

    /// Whether the byte and artifact totals of the dashboard fit their
    /// integer types, as `total_reclaimable_bytes`,
    /// `selected_reclaimable_bytes` and `selected_artifacts_count` need.
    pub fn totals_fit(&self) -> (r: bool)
        ensures
            r == (projects_bytes(self.projects@) <= u64::MAX && selected_artifacts(
                self.projects@,
                self.selected_indices@,
            ) <= usize::MAX),
            r ==> selected_bytes(self.projects@, self.selected_indices@) <= u64::MAX,
    {
        proof {
            lemma_selected_within_total(self.projects@, self.selected_indices@);
        }
        if checked_projects_bytes(&self.projects).is_none() {
            return false;
        }
        let ghost sel = self.selected_indices@;
        let mut total: usize = 0;
        let mut i: usize = 0;
        while i < self.projects.len()
            invariant
                sel == self.selected_indices@,
                i <= self.projects@.len(),
                total == selected_artifacts(self.projects@.take(i as int), sel),
            decreases self.projects.len() - i,
        {
            proof {
                assert(self.projects@.take(i + 1).drop_last() == self.projects@.take(i as int));
                assert(self.projects@.take(i + 1).last() == self.projects@[i as int]);
            }
            if self.selected_indices.contains(&i) {
                match total.checked_add(self.projects[i].artifacts.len()) {
                    Some(t) => {
                        total = t;
                    },
                    None => {
                        proof {
                            lemma_selected_artifacts_prefix(self.projects@, sel, i + 1);
                        }
                        return false;
                    },
                }
            }
            i = i + 1;
        }
        assert(self.projects@.take(i as int) == self.projects@);
        true
    }

    /// Bytes that cleaning every project would free.
    pub fn total_reclaimable_bytes(&self) -> (r: u64)
        requires
            projects_bytes(self.projects@) <= u64::MAX,
        ensures
            r == projects_bytes(self.projects@),
    {
        let mut total: u64 = 0;
        let mut i: usize = 0;
        while i < self.projects.len()
            invariant
                i <= self.projects@.len(),
                total == projects_bytes(self.projects@.take(i as int)),
                projects_bytes(self.projects@) <= u64::MAX,
            decreases self.projects.len() - i,
        {
            proof {
                assert(self.projects@.take(i + 1).drop_last() == self.projects@.take(i as int));
                assert(self.projects@.take(i + 1).last() == self.projects@[i as int]);
                lemma_projects_bytes_prefix(self.projects@, i + 1);
                lemma_projects_bytes_prefix(self.projects@, i as int);
            }
            let b = self.projects[i].total_reclaimable_bytes();
            total = total + b;
            i = i + 1;
        }
        assert(self.projects@.take(i as int) == self.projects@);
        total
    }

    /// Bytes that cleaning the selected projects would free.
    pub fn selected_reclaimable_bytes(&self) -> (r: u64)
        requires
            selected_bytes(self.projects@, self.selected_indices@) <= u64::MAX,
        ensures
            r == selected_bytes(self.projects@, self.selected_indices@),
    {
        let ghost sel = self.selected_indices@;
        let mut total: u64 = 0;
        let mut i: usize = 0;
        while i < self.projects.len()
            invariant
                sel == self.selected_indices@,
                i <= self.projects@.len(),
                total == selected_bytes(self.projects@.take(i as int), sel),
                selected_bytes(self.projects@, sel) <= u64::MAX,
            decreases self.projects.len() - i,
        {
            proof {
                assert(self.projects@.take(i + 1).drop_last() == self.projects@.take(i as int));
                assert(self.projects@.take(i + 1).last() == self.projects@[i as int]);
                lemma_selected_bytes_prefix(self.projects@, sel, i + 1);
                lemma_selected_bytes_prefix(self.projects@, sel, i as int);
            }
            if self.selected_indices.contains(&i) {
                let b = self.projects[i].total_reclaimable_bytes();
                total = total + b;
            }
            i = i + 1;
        }
        assert(self.projects@.take(i as int) == self.projects@);
        total
    }

    /// Number of artifacts of the selected projects.
    pub fn selected_artifacts_count(&self) -> (r: usize)
        requires
            selected_artifacts(self.projects@, self.selected_indices@) <= usize::MAX,
        ensures
            r == selected_artifacts(self.projects@, self.selected_indices@),
    {
        let ghost sel = self.selected_indices@;
        let mut total: usize = 0;
        let mut i: usize = 0;
        while i < self.projects.len()
            invariant
                sel == self.selected_indices@,
                i <= self.projects@.len(),
                total == selected_artifacts(self.projects@.take(i as int), sel),
                selected_artifacts(self.projects@, sel) <= usize::MAX,
            decreases self.projects.len() - i,
        {
            proof {
                assert(self.projects@.take(i + 1).drop_last() == self.projects@.take(i as int));
                assert(self.projects@.take(i + 1).last() == self.projects@[i as int]);
                lemma_selected_artifacts_prefix(self.projects@, sel, i + 1);
            }
            if self.selected_indices.contains(&i) {
                total = total + self.projects[i].artifacts.len();
            }
            i = i + 1;
        }
        assert(self.projects@.take(i as int) == self.projects@);
        total
    }

    /// The artifacts that a clean-up moves to the trash, in the order in
    /// which it handles them: project by project, in order of position.
    pub fn clean_plan(&self) -> (r: Vec<DiscoveredArtifact>)
        ensures
            r@ == clean_plan_of(self.projects@, self.selected_indices@),
    {
        let ghost sel = self.selected_indices@;
        let mut out: Vec<DiscoveredArtifact> = Vec::new();
        let mut i: usize = 0;
        while i < self.projects.len()
            invariant
                sel == self.selected_indices@,
                i <= self.projects@.len(),
                out@ == clean_plan_of(self.projects@.take(i as int), sel),
            decreases self.projects.len() - i,
        {
            assert(self.projects@.take(i + 1).drop_last() == self.projects@.take(i as int));
            assert(self.projects@.take(i + 1).last() == self.projects@[i as int]);
            if self.selected_indices.contains(&i) {
                let p = &self.projects[i];
                let ghost before = out@;
                let mut k: usize = 0;
                while k < p.artifacts.len()
                    invariant
                        k <= p.artifacts@.len(),
                        out@ == before + p.artifacts@.take(k as int),
                    decreases p.artifacts.len() - k,
                {
                    out.push(p.artifacts[k].clone());
                    assert(p.artifacts@.take(k + 1) == p.artifacts@.take(k as int).push(p.artifacts@[k as int]));
                    k = k + 1;
                }
                assert(p.artifacts@.take(k as int) == p.artifacts@);
            } else {
                assert(out@ == out@ + Seq::<DiscoveredArtifact>::empty());
            }
            i = i + 1;
        }
        assert(self.projects@.take(i as int) == self.projects@);
        out
    }

    /// Starts a confirmed clean-up. In a dry run nothing is to be touched:
    /// only the notice says so, and there is nothing to clean. Otherwise the
    /// state stays as it is and the artifacts to move to the trash come back.
    pub fn begin_clean(&mut self) -> (r: Option<Vec<DiscoveredArtifact>>)
        ensures
            old(self).dry_run ==> r is None && final(self)@ == (TuiView {
                notice: Some((dry_run_message(), NoticeKind::Info)),
                ..old(self)@
            }),
            !old(self).dry_run ==> final(self)@ == old(self)@ && (r matches Some(plan) && plan@
                == clean_plan_of(old(self)@.projects, old(self)@.selected)),
            final(self).stats == old(self).stats,
    {
        if self.dry_run {
            self.note_dry_run();
            None
        } else {
            Some(self.clean_plan())
        }
    }

    /// Records that a clean-up was only simulated.
    pub fn note_dry_run(&mut self)
        ensures
            final(self)@ == (TuiView { notice: Some((dry_run_message(), NoticeKind::Info)), ..old(self)@ }),
            final(self).stats == old(self).stats,
    {
        self.notification_message = Some((owned("[DRY-RUN] Clean simulated: No files were touched."), NoticeKind::Info));
    }

    /// Records that the artifact called `name` could not be cleaned.
    pub fn note_clean_error(&mut self, name: &str, error: &str)
        ensures
            final(self)@ == (TuiView { notice: Some((clean_error_message(name@, error@), NoticeKind::Error)), ..old(self)@ }),
            final(self).stats == old(self).stats,
    {
        self.notification_message = Some((clean_error_text(name, error), NoticeKind::Error));
    }

    /// Takes in the report of a clean-up that moved some artifacts to the
    /// trash: the selected projects leave the list, nothing stays selected,
    /// the filter is applied again, and the report is announced.
    pub fn finish_clean(&mut self, report: &CleanReport)
        ensures
            final(self)@ == after_clean(old(self)@, report.items_cleaned as nat, report.total_bytes_reclaimed as nat),
            final(self).stats == old(self).stats,
    {
        let ghost sel = self.selected_indices@;
        let mut old_projects: Vec<DiscoveredProject> = Vec::new();
        std::mem::swap(&mut old_projects, &mut self.projects);
        let ghost ps = old_projects@;
        let total_count: usize = old_projects.len();
        let mut remaining: Vec<DiscoveredProject> = Vec::new();
        let mut i: usize = 0;
        while old_projects.len() > 0
            invariant
                sel == self.selected_indices@,
                i + old_projects@.len() == ps.len(),
                ps.len() == total_count,
                old_projects@ == ps.skip(i as int),
                remaining@ == unselected_projects(ps.take(i as int), sel),
            decreases old_projects.len(),
        {
            let p = old_projects.remove(0);
            proof {
                assert(ps.take(i + 1).drop_last() == ps.take(i as int));
                assert(ps.take(i + 1).last() == ps[i as int]);
                assert(ps.skip(i as int)[0] == ps[i as int]);
                assert(ps.skip(i as int).remove(0) == ps.skip(i + 1));
            }
            if !self.selected_indices.contains(&i) {
                remaining.push(p);
            }
            i = i + 1;
        }
        assert(ps.take(i as int) == ps);
        self.projects = remaining;
        self.selected_indices.clear();
        self.apply_filter();
        let msg = cleaned_text(report.items_cleaned as u64, report.total_bytes_reclaimed);
        self.notification_message = Some((msg, NoticeKind::Success));
    }

    /// Ends a clean-up once the plan's artifacts were moved to the trash
    /// (those in `renamed`) and the trash was purged (`report`): when nothing
    /// was moved, nothing changes, and a noted error stays shown; otherwise
    /// the report is taken in as `finish_clean` does.
    pub fn end_clean(&mut self, renamed: &Vec<CleanItem>, report: &CleanReport)
        ensures
            renamed@.len() == 0 ==> final(self)@ == old(self)@,
            renamed@.len() > 0 ==> final(self)@ == after_clean(
                old(self)@,
                report.items_cleaned as nat,
                report.total_bytes_reclaimed as nat,
            ),
            final(self).stats == old(self).stats,
    {
        if renamed.len() > 0 {
            self.finish_clean(report);
        }
    }

    /// Handles one key press (see `after_key`).
    pub fn handle_key(&mut self, key: KeyInput) -> (r: KeyOutcome)
        ensures
            (final(self)@, r) == after_key(old(self)@, key),
            final(self).stats == old(self).stats,
    {
        if self.show_confirm_dialog {
            match key {
                KeyInput::Char('y') | KeyInput::Enter => {
                    self.show_confirm_dialog = false;
                    KeyOutcome::Clean
                },
                KeyInput::Char('n') | KeyInput::Esc => {
                    self.show_confirm_dialog = false;
                    KeyOutcome::Continue
                },
                _ => KeyOutcome::Continue,
            }
        } else if self.is_filtering {
            self.handle_filter_key(key);
            KeyOutcome::Continue
        } else {
            self.handle_browse_key(key);
            KeyOutcome::Continue
        }
    }

    fn clear_filter(&mut self)
        ensures
            final(self)@ == after_clear_filter(old(self)@),
            final(self).stats == old(self).stats,
    {
        self.filter_query = String::new();
        self.apply_filter();
    }

    fn handle_filter_key(&mut self, key: KeyInput)
        ensures
            final(self)@ == after_filter_key(old(self)@, key),
            final(self).stats == old(self).stats,
    {
        match key {
            KeyInput::Enter => {
                self.is_filtering = false;
            },
            KeyInput::Esc => {
                self.clear_filter();
                self.is_filtering = false;
            },
            KeyInput::Backspace => {
                pop_char(&mut self.filter_query);
                self.apply_filter();
            },
            KeyInput::Char(c) => {
                push_char(&mut self.filter_query, c);
                self.apply_filter();
            },
            _ => {},
        }
    }

    fn handle_browse_key(&mut self, key: KeyInput)
        ensures
            final(self)@ == after_browse_key(old(self)@, key),
            final(self).stats == old(self).stats,
    {
        match key {
            KeyInput::Esc => {
                if !self.filter_query.as_str().is_empty() {
                    self.clear_filter();
                } else {
                    self.should_quit = true;
                }
            },
            KeyInput::Up => {
                self.move_up();
            },
            KeyInput::Down => {
                self.move_down();
            },
            KeyInput::Char(c) => {
                if c == 'q' {
                    self.should_quit = true;
                } else if c == '/' || c == 'f' {
                    self.is_filtering = true;
                } else if c == 'c' && !self.filter_query.as_str().is_empty() {
                    self.clear_filter();
                } else if c == 'k' {
                    self.move_up();
                } else if c == 'j' {
                    self.move_down();
                } else if c == ' ' {
                    self.toggle_selection();
                } else if c == 'a' {
                    self.toggle_all();
                } else if c == 'u' {
                    self.unselect_all();
                } else if c == 'd' && !self.selected_indices.is_empty() {
                    self.show_confirm_dialog = true;
                }
            },
            _ => {},
        }
    }
}

} // verus!
