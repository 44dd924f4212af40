//! What every state of the dashboard keeps, and how its operations undo
//! one another.
use vstd::prelude::*;

use crate::sweep_core::traits::DiscoveredProject;
use crate::sweep_core::traits::GitStatus;
use crate::ui::tui::is_preselected;
use crate::ui::tui::project_items;
use crate::ui::tui::prompt_defaults;
use crate::ui::tui::prompt_items;
use crate::ui::tui::after_browse_key;
use crate::ui::tui::after_filter;
use crate::ui::tui::after_filter_key;
use crate::ui::tui::after_key;
use crate::ui::tui::after_move_down;
use crate::ui::tui::after_move_up;
use crate::ui::tui::after_toggle_all;
use crate::ui::tui::after_toggle_selection;
use crate::ui::tui::after_unselect_all;
use crate::ui::tui::all_filtered_selected;
use crate::ui::tui::all_positions;
use crate::ui::tui::filter_positions;
use crate::ui::tui::initial_view;
use crate::ui::tui::KeyInput;
use crate::ui::tui::matching_positions;
use crate::ui::tui::preselected;
use crate::ui::tui::unselected_projects;
use crate::ui::tui::TuiView;

verus! {

/// The listed positions rise strictly and name existing projects.
pub open spec fn positions_ok(f: Seq<usize>, n: nat) -> bool {
    &&& forall|i: int, j: int| 0 <= i < j < f.len() ==> f[i] < f[j]
    &&& forall|i: int| 0 <= i < f.len() ==> f[i] < n
}

/// The invariant of the dashboard: the filtered list is ordered and in
/// range, only existing projects are selected, and the cursor stands on a
/// listed row that the table highlights (or at 0 with no row when the list
/// is empty).
pub open spec fn well_formed(s: TuiView) -> bool {
    &&& positions_ok(s.filtered, s.projects.len())
    &&& forall|k: usize| s.selected.contains(k) ==> k < s.projects.len()
    &&& if s.filtered.len() == 0 {
        s.cursor == 0 && s.table is None
    } else {
        s.cursor < s.filtered.len() && s.table == Some(s.cursor)
    }
}

proof fn lemma_matching_positions_ok(ps: Seq<DiscoveredProject>, q: Seq<char>)
    requires
        ps.len() <= usize::MAX,
    ensures
        positions_ok(matching_positions(ps, q), ps.len()),
    decreases ps.len(),
{
    if ps.len() > 0 {
        lemma_matching_positions_ok(ps.drop_last(), q);
    }
}

/// The filter lists ordered, existing positions.
pub proof fn lemma_filter_positions_ok(ps: Seq<DiscoveredProject>, query: Seq<char>)
    requires
        ps.len() <= usize::MAX,
    ensures
        positions_ok(filter_positions(ps, query), ps.len()),
{
    lemma_matching_positions_ok(ps, crate::text::lowercase(crate::text::trimmed(query)));
}

/// Applying the filter restores the invariant whenever only existing
/// projects are selected.
pub proof fn lemma_filter_well_formed(s: TuiView)
    requires
        s.projects.len() <= usize::MAX,
        forall|k: usize| s.selected.contains(k) ==> k < s.projects.len(),
    ensures
        well_formed(after_filter(s)),
{
    lemma_filter_positions_ok(s.projects, s.query);
}

/// The dashboard opens in a well-formed state.
pub proof fn lemma_initial_well_formed(projects: Seq<DiscoveredProject>, dry_run: bool)
    requires
        projects.len() <= usize::MAX,
    ensures
        well_formed(initial_view(projects, dry_run)),
{
    let s = initial_view(projects, dry_run);
    assert forall|k: usize| s.selected.contains(k) implies k < s.projects.len() by {
        assert(preselected(projects).contains(k));
    }
}

/// Every key press keeps the dashboard well-formed.
pub proof fn lemma_key_keeps_well_formed(s: TuiView, key: KeyInput)
    requires
        well_formed(s),
        s.projects.len() <= usize::MAX,
    ensures
        well_formed(after_key(s, key).0),
{
    lemma_filter_well_formed(s);
    lemma_filter_well_formed(TuiView { query: Seq::empty(), ..s });
    lemma_filter_well_formed(TuiView { query: if s.query.len() > 0 { s.query.drop_last() } else { s.query }, ..s });
    match key {
        KeyInput::Char(c) => {
            lemma_filter_well_formed(TuiView { query: s.query.push(c), ..s });
        },
        _ => {},
    }
    if !s.confirm && !s.filtering {
        lemma_toggles_keep_range(s);
    }
}

proof fn lemma_toggles_keep_range(s: TuiView)
    requires
        well_formed(s),
    ensures
        well_formed(after_toggle_selection(s)),
        well_formed(after_toggle_all(s)),
        well_formed(after_unselect_all(s)),
        well_formed(after_move_up(s)),
        well_formed(after_move_down(s)),
{
    let t = after_toggle_all(s);
    assert forall|k: usize| t.selected.contains(k) implies k < t.projects.len() by {
        if s.filtered.len() > 0 && !all_filtered_selected(s) && !s.selected.contains(k) {
            assert(s.filtered.to_set().contains(k));
            let i = choose|i: int| 0 <= i < s.filtered.len() && s.filtered[i] == k;
            assert(s.filtered[i] < s.projects.len());
        }
    }
}

/// After a clean-up the dashboard is well-formed again.
pub proof fn lemma_finish_clean_well_formed(s: TuiView)
    requires
        s.projects.len() <= usize::MAX,
    ensures
        well_formed(after_filter(TuiView {
            projects: unselected_projects(s.projects, s.selected),
            selected: Set::empty(),
            ..s
        })),
{
    lemma_unselected_len(s.projects, s.selected);
    lemma_filter_well_formed(TuiView {
        projects: unselected_projects(s.projects, s.selected),
        selected: Set::empty(),
        ..s
    });
}

proof fn lemma_unselected_len(ps: Seq<DiscoveredProject>, sel: Set<usize>)
    ensures
        unselected_projects(ps, sel).len() <= ps.len(),
    decreases ps.len(),
{
    if ps.len() > 0 {
        lemma_unselected_len(ps.drop_last(), sel);
    }
}

/// Moving down and then up puts the cursor back where it was.
pub proof fn lemma_down_then_up(s: TuiView)
    requires
        well_formed(s),
        s.filtered.len() <= usize::MAX,
    ensures
        after_move_up(after_move_down(s)) == s,
{
}

/// Moving up and then down puts the cursor back where it was.
pub proof fn lemma_up_then_down(s: TuiView)
    requires
        well_formed(s),
        s.filtered.len() <= usize::MAX,
    ensures
        after_move_down(after_move_up(s)) == s,
{
}

/// Toggling the project under the cursor twice changes nothing.
pub proof fn lemma_toggle_twice(s: TuiView)
    ensures
        after_toggle_selection(after_toggle_selection(s)) == s,
{
    if s.cursor < s.filtered.len() {
        let idx = s.filtered[s.cursor as int];
        if s.selected.contains(idx) {
            assert(s.selected.remove(idx).insert(idx) =~= s.selected);
        } else {
            assert(s.selected.insert(idx).remove(idx) =~= s.selected);
        }
    }
}

/// When no listed project is selected, toggling all selects exactly the
/// listed ones in addition, and toggling all again restores the selection.
pub proof fn lemma_toggle_all_twice(s: TuiView)
    requires
        forall|i: int| 0 <= i < s.filtered.len() ==> !s.selected.contains(#[trigger] s.filtered[i]),
    ensures
        after_toggle_all(s).selected == s.selected.union(s.filtered.to_set()),
        after_toggle_all(after_toggle_all(s)) == s,
{
    if s.filtered.len() > 0 {
        assert(!s.selected.contains(s.filtered[0]));
        assert(!all_filtered_selected(s));
        let t = after_toggle_all(s);
        assert(all_filtered_selected(t)) by {
            assert forall|i: int| 0 <= i < t.filtered.len() implies t.selected.contains(#[trigger] t.filtered[i]) by {
                assert(s.filtered.to_set().contains(s.filtered[i]));
            }
        }
        assert(t.selected.difference(s.filtered.to_set()) =~= s.selected) by {
            assert forall|k: usize| s.selected.contains(k) implies !s.filtered.to_set().contains(k) by {
                if s.filtered.to_set().contains(k) {
                    let i = choose|i: int| 0 <= i < s.filtered.len() && s.filtered[i] == k;
                    assert(!s.selected.contains(s.filtered[i]));
                }
            }
        }
    } else {
        assert(s.selected.union(s.filtered.to_set()) =~= s.selected);
    }
}

/// Toggling all leaves the projects outside the list as they were, and
/// afterwards the listed projects are either all selected or all unselected.
pub proof fn lemma_toggle_all_only_listed(s: TuiView)
    ensures
        forall|k: usize| !s.filtered.contains(k) ==> (after_toggle_all(s).selected.contains(k) == s.selected.contains(k)),
        s.filtered.len() > 0 ==> (
            (forall|i: int| 0 <= i < s.filtered.len() ==> after_toggle_all(s).selected.contains(#[trigger] s.filtered[i]))
            || (forall|i: int| 0 <= i < s.filtered.len() ==> !after_toggle_all(s).selected.contains(#[trigger] s.filtered[i]))
        ),
{
    assert forall|i: int| 0 <= i < s.filtered.len() implies s.filtered.to_set().contains(#[trigger] s.filtered[i]) by {}
}

/// Unselecting leaves no listed project selected, and nothing at all when
/// no filter query is set.
pub proof fn lemma_unselect_all_clears(s: TuiView)
    ensures
        forall|i: int| 0 <= i < s.filtered.len() ==> !after_unselect_all(s).selected.contains(#[trigger] s.filtered[i]),
        s.query.len() == 0 ==> after_unselect_all(s).selected.is_empty(),
{
    assert forall|i: int| 0 <= i < s.filtered.len() implies s.filtered.to_set().contains(#[trigger] s.filtered[i]) by {}
}

/// Applying the filter twice is the same as applying it once.
pub proof fn lemma_filter_idempotent(s: TuiView)
    ensures
        after_filter(after_filter(s)) == after_filter(s),
{
}

/// With a blank query every project is listed.
pub proof fn lemma_blank_query_lists_all(s: TuiView)
    requires
        crate::text::lowercase(crate::text::trimmed(s.query)).len() == 0,
    ensures
        after_filter(s).filtered == all_positions(s.projects.len()),
{
}


/// The dashboard opens with exactly the projects selected whose repository
/// is stale and whose work tree is clean.
pub proof fn lemma_preselection(projects: Seq<DiscoveredProject>, dry_run: bool)
    ensures
        forall|i: usize|
            #[trigger] initial_view(projects, dry_run).selected.contains(i) <==> (i < projects.len() && (
            projects[i as int].git_info matches Some(g) && g.status == GitStatus::Stale && !g.is_dirty)),
{
}

/// The selection prompt checks exactly the offered artifacts whose project's
/// repository is stale and whose work tree is clean.
pub proof fn lemma_prompt_defaults(ps: Seq<DiscoveredProject>)
    requires
        prompt_items(ps).len() <= usize::MAX,
    ensures
        forall|j: int|
            0 <= j < prompt_items(ps).len() ==> (prompt_defaults(ps).contains(j as usize) <==> ((
            #[trigger] prompt_items(ps)[j]).5 matches Some(g) && g.status == GitStatus::Stale && !g.is_dirty)),
        forall|k: int| 0 <= k < prompt_defaults(ps).len() ==> #[trigger] prompt_defaults(ps)[k] < prompt_items(ps).len(),
    decreases ps.len(),
{
    if ps.len() > 0 {
        let p = ps.drop_last();
        let last = ps.last();
        let items = prompt_items(p);
        let d = prompt_defaults(p);
        let l = project_items(last);
        let before = items.len();
        assert(prompt_items(ps) == items + l);
        lemma_prompt_defaults(p);
        let r = if is_preselected(last) {
            Seq::new(last.artifacts@.len(), |k: int| (before + k) as usize)
        } else {
            Seq::<usize>::empty()
        };
        assert(prompt_defaults(ps) == d + r);
        assert forall|k: int| 0 <= k < prompt_defaults(ps).len() implies #[trigger] prompt_defaults(ps)[k]
            < prompt_items(ps).len() by {
            if k >= d.len() {
                assert(prompt_defaults(ps)[k] == r[k - d.len()]);
            } else {
                assert(prompt_defaults(ps)[k] == d[k]);
            }
        }
        assert forall|j: int| 0 <= j < prompt_items(ps).len() implies (prompt_defaults(ps).contains(j as usize)
            <==> ((#[trigger] prompt_items(ps)[j]).5 matches Some(g) && g.status == GitStatus::Stale
            && !g.is_dirty)) by {
            let all = prompt_defaults(ps);
            if j < before {
                assert(prompt_items(ps)[j] == items[j]);
                if all.contains(j as usize) {
                    let k = choose|k: int| 0 <= k < all.len() && all[k] == j as usize;
                    if k >= d.len() {
                        assert(all[k] == r[k - d.len()]);
                        assert(false);
                    } else {
                        assert(d[k] == all[k]);
                        assert(d.contains(j as usize));
                    }
                }
                if d.contains(j as usize) {
                    let k = choose|k: int| 0 <= k < d.len() && d[k] == j as usize;
                    assert(all[k] == d[k]);
                }
            } else {
                assert(prompt_items(ps)[j] == l[j - before]);
                assert(l[j - before].5 == last.git_info);
                if all.contains(j as usize) {
                    let k = choose|k: int| 0 <= k < all.len() && all[k] == j as usize;
                    if k < d.len() {
                        assert(all[k] == d[k]);
                        assert(false);
                    } else {
                        assert(all[k] == r[k - d.len()]);
                    }
                }
                if is_preselected(last) {
                    let k = d.len() + (j - before);
                    assert(r[j - before] == (before + (j - before)) as usize);
                    assert(all[k] == r[j - before]);
                }
            }
        }
    }
}

} // verus!
