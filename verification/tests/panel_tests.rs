use std::time::Duration;

use sweep_rs::cli::args::Args;
use sweep_rs::cli::args::RunMode;
use sweep_rs::ui::tui::clean_error_text;
use sweep_rs::ui::tui::cleaned_text;
use sweep_rs::sweep_core::engine::ScanStats;
use sweep_rs::sweep_core::traits::ArtifactTarget;
use sweep_rs::sweep_core::traits::DiscoveredArtifact;
use sweep_rs::sweep_core::traits::DiscoveredProject;
use sweep_rs::sweep_core::traits::GitInfo;
use sweep_rs::sweep_core::traits::GitStatus;
use sweep_rs::sweep_core::traits::ProjectType;
use sweep_rs::text::can_cut;
use sweep_rs::ui::panels::counted;
use sweep_rs::ui::panels::dialog_area;
use sweep_rs::ui::panels::fits_row;
use sweep_rs::ui::panels::header_layout;
use sweep_rs::ui::panels::table_row;
use sweep_rs::ui::panels::table_status;
use sweep_rs::ui::panels::tier_of;
use sweep_rs::ui::panels::colour_of;
use sweep_rs::ui::panels::Ecosystem;
use sweep_rs::ui::panels::Footer;
use sweep_rs::ui::panels::SizeTier;
use sweep_rs::ui::terminal::StatusTone;
use sweep_rs::ui::tui::checked_projects_bytes;
use sweep_rs::ui::tui::KeyInput;
use sweep_rs::ui::tui::NoticeKind;
use sweep_rs::ui::tui::Palette;
use sweep_rs::ui::tui::TuiApp;

fn artifact(name: &'static str, root: &str, size: u64) -> DiscoveredArtifact {
    DiscoveredArtifact {
        target: ArtifactTarget { name, rel_path: name.to_string(), is_reconstructible: true },
        abs_path: format!("{}/{}", root, name),
        size_bytes: size,
    }
}

fn project(root: &str, t: ProjectType, arts: Vec<DiscoveredArtifact>, git: Option<GitInfo>) -> DiscoveredProject {
    DiscoveredProject { root: root.to_string(), project_type: t, artifacts: arts, git_info: git }
}

fn git(days: Option<u64>, dirty: bool, status: GitStatus) -> Option<GitInfo> {
    Some(GitInfo { last_commit_days: days, is_dirty: dirty, status })
}

fn stats() -> ScanStats {
    ScanStats { dirs_inspected: 7, duration: Duration::from_millis(20) }
}

fn workspace() -> Vec<DiscoveredProject> {
    vec![
        project(
            "/w/api",
            ProjectType::Rust,
            vec![artifact("target", "/w/api", 3 * 1024 * 1024 * 1024)],
            git(Some(60), false, GitStatus::Stale),
        ),
        project(
            "/w/web",
            ProjectType::Node,
            vec![artifact("node_modules", "/w/web", 200 * 1024 * 1024), artifact("dist", "/w/web", 1024)],
            git(Some(2), true, GitStatus::Active),
        ),
        project("/w/tool", ProjectType::Go, vec![artifact("bin", "/w/tool", 4096)], None),
        project(
            "/w/svc",
            ProjectType::Rust,
            vec![artifact("target", "/w/svc", 12 * 1024 * 1024)],
            git(Some(10), false, GitStatus::Moderate),
        ),
    ]
}

#[test]
fn size_tiers_change_at_ten_hundred_and_thousand_mib() {
    assert_eq!(tier_of(0), SizeTier::Small);
    assert_eq!(tier_of(10 * 1024 * 1024 - 1), SizeTier::Small);
    assert_eq!(tier_of(10 * 1024 * 1024), SizeTier::Medium);
    assert_eq!(tier_of(100 * 1024 * 1024 - 1), SizeTier::Medium);
    assert_eq!(tier_of(100 * 1024 * 1024), SizeTier::Large);
    assert_eq!(tier_of(1024 * 1024 * 1024 - 1), SizeTier::Large);
    assert_eq!(tier_of(1024 * 1024 * 1024), SizeTier::Huge);
}

#[test]
fn ecosystem_colours() {
    assert_eq!(colour_of(&ProjectType::Rust), Palette::ORANGE);
    assert_eq!(colour_of(&ProjectType::Node), Palette::SUCCESS_GREEN);
    assert_eq!(colour_of(&ProjectType::Python), Palette::CYAN);
    assert_eq!(colour_of(&ProjectType::Dotnet), Palette::PURPLE);
    assert_eq!(colour_of(&ProjectType::Java), Palette::WARNING_YELLOW);
    assert_eq!(colour_of(&ProjectType::Swift), Palette::WARNING_YELLOW);
}

#[test]
fn table_status_cells() {
    assert_eq!(table_status(&git(Some(1), true, GitStatus::Active)), "\u{2716} Active (Dirty)");
    assert_eq!(table_status(&git(None, true, GitStatus::Unknown)), "\u{2716} Unknown (Dirty)");
    assert_eq!(table_status(&git(Some(40), false, GitStatus::Stale)), "\u{25cf} Stale");
    assert_eq!(table_status(&git(Some(1), false, GitStatus::Active)), "\u{25b2} Active");
    assert_eq!(table_status(&git(Some(9), false, GitStatus::Moderate)), "\u{25c6} Moderate");
    assert_eq!(table_status(&git(None, false, GitStatus::Unknown)), "? Unknown");
    assert_eq!(table_status(&None), "- No Git");
}

#[test]
fn table_row_cuts_long_paths_to_their_last_25_bytes() {
    let p = project(
        "/home/someone/projects/a-rather-long-name",
        ProjectType::Node,
        vec![artifact("node_modules", "/x", 150 * 1024 * 1024)],
        git(Some(2), true, GitStatus::Active),
    );
    assert!(fits_row(&p));
    let row = table_row(&p, true);
    assert!(row.checked);
    assert_eq!(row.path, "...ojects/a-rather-long-name");
    assert_eq!(row.project_type, "Node");
    assert_eq!(row.type_colour, Palette::SUCCESS_GREEN);
    assert_eq!(row.status, "\u{2716} Active (Dirty)");
    assert_eq!(row.tone, StatusTone::Dirty);
    assert_eq!(row.size, "150.0 MB");
    assert_eq!(row.tier, SizeTier::Large);
    let short = project("/w/a", ProjectType::Rust, vec![], None);
    assert_eq!(table_row(&short, false).path, "/w/a");
}

#[test]
fn rows_that_cannot_be_shown() {
    let wide = project("/ééééééééééééééééééééé", ProjectType::Rust, vec![], None);
    assert!(!can_cut(&wide.root, 28, 25));
    assert!(!fits_row(&wide));
    let huge = project(
        "/w/a",
        ProjectType::Rust,
        vec![artifact("target", "/w/a", u64::MAX), artifact("debug", "/w/a", 1)],
        None,
    );
    assert!(!fits_row(&huge));
    assert_eq!(huge.checked_reclaimable_bytes(), None);
    assert_eq!(checked_projects_bytes(&vec![huge]), None);
}

#[test]
fn table_rows_follow_the_filter_and_the_selection() {
    let mut app = TuiApp::new(workspace(), stats(), false);
    assert!(app.can_show_rows());
    let rows = app.table_rows();
    assert_eq!(rows.len(), 4);
    assert!(rows[0].checked);
    assert!(!rows[1].checked);
    assert_eq!(rows[0].tier, SizeTier::Huge);
    assert_eq!(rows[2].status, "- No Git");
    assert_eq!(rows[3].tier, SizeTier::Medium);
    assert_eq!(app.table_title(), " Discovered Cleanable Projects (4) ");
    assert_eq!(app.empty_table_message(), "No cleanable projects discovered.");

    for c in "rust".chars() {
        app.filter_query.push(c);
    }
    app.apply_filter();
    let rows = app.table_rows();
    assert_eq!(rows.len(), 2);
    assert_eq!(rows[1].path, "/w/svc");
    assert_eq!(app.table_title(), " Discovered Cleanable Projects [Filter: \"rust\" (2/4)] ");
    assert_eq!(
        app.empty_table_message(),
        "No projects match filter \"rust\". Press [c] or [Esc] to clear."
    );
}

#[test]
fn inspector_shows_the_project_under_the_cursor() {
    let mut app = TuiApp::new(workspace(), stats(), false);
    app.move_down();
    let view = app.inspector().unwrap();
    assert_eq!(view.root, "/w/web");
    assert_eq!(view.ecosystem, "\u{25cf} Node");
    assert_eq!(view.colour, Palette::SUCCESS_GREEN);
    let g = view.git.unwrap();
    assert_eq!(g.last_commit, "2 days ago");
    assert_eq!(g.worktree, "\u{2716} Uncommitted changes present (Dirty)");
    assert!(g.dirty);
    assert_eq!(view.artifacts.len(), 2);
    assert_eq!(view.artifacts[0].name, "node_modules");
    assert_eq!(view.artifacts[0].size, "200.0 MB");
    assert_eq!(view.artifacts[1].size, "1.0 KB");

    app.move_down();
    let view = app.inspector().unwrap();
    assert!(view.git.is_none());

    let mut empty = TuiApp::new(vec![], stats(), false);
    assert!(empty.inspector().is_none());
    empty.move_down();
    assert!(empty.inspector().is_none());
}

#[test]
fn inspector_words_commit_ages() {
    let ages = [(Some(0), "Today"), (Some(1), "1 day ago"), (Some(45), "45 days ago"), (None, "No commits found")];
    for (days, text) in ages {
        let app = TuiApp::new(
            vec![project("/w/a", ProjectType::Rust, vec![], git(days, false, GitStatus::Unknown))],
            stats(),
            false,
        );
        let g = app.inspector().unwrap().git.unwrap();
        assert_eq!(g.last_commit, text);
        assert_eq!(g.worktree, "\u{2713} Clean");
    }
}

#[test]
fn breakdown_splits_the_selection_and_adds_up() {
    let mut app = TuiApp::new(workspace(), stats(), false);
    app.toggle_all();
    assert_eq!(app.selected_indices.len(), 4);
    assert!(app.totals_fit());
    let b = app.selection_breakdown();
    assert_eq!(b.shares.len(), 3);
    assert_eq!(b.shares[0].ecosystem, Ecosystem::Rust);
    assert_eq!(b.shares[0].bytes, 3 * 1024 * 1024 * 1024 + 12 * 1024 * 1024);
    assert_eq!(b.shares[0].projects, 2);
    assert_eq!(b.shares[1].ecosystem, Ecosystem::Node);
    assert_eq!(b.shares[1].bytes, 200 * 1024 * 1024 + 1024);
    assert_eq!(b.shares[2].ecosystem, Ecosystem::Other);
    assert_eq!(b.shares[2].bytes, 4096);
    assert_eq!(b.stale_bytes, 3 * 1024 * 1024 * 1024 + 4096);
    assert_eq!(b.active_bytes, 200 * 1024 * 1024 + 1024 + 12 * 1024 * 1024);
    let sum: u64 = b.shares.iter().map(|s| s.bytes).sum();
    assert_eq!(sum, app.selected_reclaimable_bytes());
    assert_eq!(b.stale_bytes + b.active_bytes, app.selected_reclaimable_bytes());

    app.unselect_all();
    let b = app.selection_breakdown();
    assert!(b.shares.is_empty());
    assert_eq!(b.stale_bytes, 0);
    assert_eq!(b.active_bytes, 0);
}

#[test]
fn totals_that_overflow_are_caught() {
    let ps = vec![
        project("/w/a", ProjectType::Rust, vec![artifact("target", "/w/a", u64::MAX)], None),
        project("/w/b", ProjectType::Rust, vec![artifact("target", "/w/b", 1)], None),
    ];
    let app = TuiApp::new(ps, stats(), false);
    assert!(!app.totals_fit());
    assert_eq!(checked_projects_bytes(&app.projects), None);
    let fine = TuiApp::new(workspace(), stats(), false);
    assert_eq!(checked_projects_bytes(&fine.projects), Some(fine.total_reclaimable_bytes()));
}

#[test]
fn footer_shows_notice_then_filter_then_keys() {
    let mut app = TuiApp::new(workspace(), stats(), false);
    match app.footer() {
        Footer::Browsing { filter_set } => assert!(!filter_set),
        other => panic!("unexpected footer {:?}", other),
    }
    app.handle_key(KeyInput::Char('/'));
    match app.footer() {
        Footer::Filtering { prompt, placeholder, matched } => {
            assert!(placeholder);
            assert_eq!(prompt, "Type to filter by name, path, ecosystem, or git status... ");
            assert_eq!(matched, "(4/4 matched)");
        },
        other => panic!("unexpected footer {:?}", other),
    }
    app.handle_key(KeyInput::Char('w'));
    app.handle_key(KeyInput::Char('e'));
    match app.footer() {
        Footer::Filtering { prompt, placeholder, matched } => {
            assert!(!placeholder);
            assert_eq!(prompt, "we ");
            assert_eq!(matched, "(1/4 matched)");
        },
        other => panic!("unexpected footer {:?}", other),
    }
    app.handle_key(KeyInput::Enter);
    match app.footer() {
        Footer::Browsing { filter_set } => assert!(filter_set),
        other => panic!("unexpected footer {:?}", other),
    }
    app.note_dry_run();
    match app.footer() {
        Footer::Notice { text, kind } => {
            assert_eq!(text, "[DRY-RUN] Clean simulated: No files were touched.");
            assert_eq!(kind, NoticeKind::Info);
        },
        other => panic!("unexpected footer {:?}", other),
    }
}

#[test]
fn counted_texts() {
    assert_eq!(counted(3, "artifact(s)"), "3 artifact(s)");
    assert_eq!(counted(0, "project(s)"), "0 project(s)");
    assert_eq!(counted(1234, "dirs"), "1234 dirs");
}

#[test]
fn header_uses_the_banner_only_with_room() {
    assert_eq!(header_layout(68, 26), (true, 9));
    assert_eq!(header_layout(67, 26), (false, 3));
    assert_eq!(header_layout(200, 25), (false, 3));
}

#[test]
fn dialog_is_centred_and_bounded() {
    assert_eq!(dialog_area(0, 0, 100, 40), (21, 14, 58, 11));
    assert_eq!(dialog_area(0, 0, 30, 8), (2, 1, 26, 6));
    assert_eq!(dialog_area(5, 3, 3, 1), (6, 3, 0, 0));
}

#[test]
fn args_default_to_a_plain_scan_of_the_current_directory() {
    let a = Args::default();
    assert_eq!(a.path, ".");
    assert!(!a.dry_run);
    assert_eq!(a.stale, None);
    assert_eq!(a.project_type, "all");
    assert!(!a.force && !a.tui && !a.verbose);
}

#[test]
fn run_modes_follow_the_flags() {
    let plain = Args::default();
    assert_eq!(plain.run_mode(true), RunMode::Select);
    assert_eq!(plain.run_mode(false), RunMode::Report);
    let dry = Args { dry_run: true, force: true, ..Args::default() };
    assert_eq!(dry.run_mode(true), RunMode::Report);
    let force = Args { force: true, ..Args::default() };
    assert_eq!(force.run_mode(true), RunMode::CleanAll);
    let tui = Args { tui: true, dry_run: true, ..Args::default() };
    assert_eq!(tui.run_mode(false), RunMode::Dashboard);
}

#[test]
fn clean_messages() {
    assert_eq!(cleaned_text(2, 3072), "\u{2714} Cleaned 2 artifact(s) successfully! Reclaimed 3.0 KB");
    assert_eq!(
        clean_error_text("target", "Failed to canonicalize artifact path '/x/target'"),
        "Error cleaning target: Failed to canonicalize artifact path '/x/target'"
    );
}
