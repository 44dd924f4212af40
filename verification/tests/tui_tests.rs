use std::time::Duration;

use sweep_rs::sweep_core::cleaner::CleanItem;
use sweep_rs::sweep_core::cleaner::CleanReport;
use sweep_rs::sweep_core::engine::ScanStats;
use sweep_rs::sweep_core::traits::ArtifactTarget;
use sweep_rs::sweep_core::traits::DiscoveredArtifact;
use sweep_rs::sweep_core::traits::DiscoveredProject;
use sweep_rs::sweep_core::traits::GitInfo;
use sweep_rs::sweep_core::traits::GitStatus;
use sweep_rs::sweep_core::traits::ProjectType;
use sweep_rs::ui::tui::selectable_items;
use sweep_rs::ui::tui::KeyInput;
use sweep_rs::ui::tui::KeyOutcome;
use sweep_rs::ui::tui::NoticeKind;
use sweep_rs::ui::tui::TuiApp;

fn artifact(name: &'static str, root: &str, size: u64) -> DiscoveredArtifact {
    DiscoveredArtifact {
        target: ArtifactTarget { name, rel_path: name.to_string(), is_reconstructible: true },
        abs_path: format!("{}/{}", root, name),
        size_bytes: size,
    }
}

fn create_mock_projects() -> Vec<DiscoveredProject> {
    vec![
        DiscoveredProject {
            root: "/mock/hero_backend".to_string(),
            project_type: ProjectType::Rust,
            artifacts: vec![artifact("target", "/mock/hero_backend", 1024)],
            git_info: None,
        },
        DiscoveredProject {
            root: "/mock/hdp_frontend".to_string(),
            project_type: ProjectType::Node,
            artifacts: vec![artifact("node_modules", "/mock/hdp_frontend", 2048)],
            git_info: None,
        },
        DiscoveredProject {
            root: "/mock/order_service".to_string(),
            project_type: ProjectType::Dotnet,
            artifacts: vec![artifact("bin", "/mock/order_service", 4096)],
            git_info: None,
        },
    ]
}

fn stats() -> ScanStats {
    ScanStats { dirs_inspected: 10, duration: Duration::from_millis(50) }
}

#[test]
fn test_tui_app_state_navigation() {
    let projects = create_mock_projects();
    let mut app = TuiApp::new(projects, stats(), false);
    assert_eq!(app.cursor_index, 0);

    app.move_down();
    assert_eq!(app.cursor_index, 1);

    app.move_down();
    assert_eq!(app.cursor_index, 2);

    app.move_down();
    assert_eq!(app.cursor_index, 0); // Loops back to start

    app.move_up();
    assert_eq!(app.cursor_index, 2); // Loops to end

    // Toggle selection
    app.toggle_selection();
    assert!(app.selected_indices.contains(&2));
    assert_eq!(app.selected_reclaimable_bytes(), 4096);

    // Toggle all
    app.toggle_all();
    assert_eq!(app.selected_indices.len(), 3);
    assert_eq!(app.selected_reclaimable_bytes(), 7168);
}

#[test]
fn test_tui_filtering_and_navigation() {
    let projects = create_mock_projects();
    let mut app = TuiApp::new(projects, stats(), false);
    assert_eq!(app.filtered_indices.len(), 3);

    // Filter by ecosystem "node"
    app.filter_query = "node".to_string();
    app.apply_filter();
    assert_eq!(app.filtered_indices.len(), 1);
    assert_eq!(app.filtered_indices[0], 1); // Index 1 is node
    assert_eq!(app.cursor_index, 0);

    // Filter by path substring "hero"
    app.filter_query = "hero".to_string();
    app.apply_filter();
    assert_eq!(app.filtered_indices.len(), 1);
    assert_eq!(app.filtered_indices[0], 0);

    // Filter non-matching
    app.filter_query = "non_existent".to_string();
    app.apply_filter();
    assert_eq!(app.filtered_indices.len(), 0);

    // Clear filter
    app.filter_query.clear();
    app.apply_filter();
    assert_eq!(app.filtered_indices.len(), 3);
}

#[test]
fn test_tui_unselect_all_and_filtered_toggle() {
    let projects = create_mock_projects();
    let mut app = TuiApp::new(projects, stats(), false);

    // Select all
    app.toggle_all();
    assert_eq!(app.selected_indices.len(), 3);

    // Unselect all via 'u'
    app.unselect_all();
    assert_eq!(app.selected_indices.len(), 0);

    // Now filter by "node", select all matching
    app.filter_query = "node".to_string();
    app.apply_filter();
    app.toggle_all(); // Toggles only the filtered items!
    assert_eq!(app.selected_indices.len(), 1);
    assert!(app.selected_indices.contains(&1));

    // Clear filter: the node item remains selected
    app.filter_query.clear();
    app.apply_filter();
    assert_eq!(app.selected_indices.len(), 1);
    assert!(app.selected_indices.contains(&1));

    // Unselect all
    app.unselect_all();
    assert_eq!(app.selected_indices.len(), 0);
}

fn with_git(mut ps: Vec<DiscoveredProject>) -> Vec<DiscoveredProject> {
    ps[0].git_info = Some(GitInfo { last_commit_days: Some(90), is_dirty: false, status: GitStatus::Stale });
    ps[1].git_info = Some(GitInfo { last_commit_days: Some(90), is_dirty: true, status: GitStatus::Stale });
    ps[2].git_info = Some(GitInfo { last_commit_days: Some(2), is_dirty: false, status: GitStatus::Active });
    ps
}

#[test]
fn stale_clean_projects_start_selected() {
    let app = TuiApp::new(with_git(create_mock_projects()), stats(), false);
    assert_eq!(app.selected_indices.len(), 1);
    assert!(app.selected_indices.contains(&0));
    assert_eq!(app.table_selection, Some(0));
    assert_eq!(app.total_reclaimable_bytes(), 7168);
    assert_eq!(app.selected_artifacts_count(), 1);
    let empty = TuiApp::new(Vec::new(), stats(), true);
    assert_eq!(empty.table_selection, None);
    assert_eq!(empty.current_selected_project_index(), None);
}

#[test]
fn filter_matches_git_status_and_trims_query() {
    let mut app = TuiApp::new(with_git(create_mock_projects()), stats(), false);
    app.filter_query = "  STALE dirty ".to_string();
    app.apply_filter();
    assert_eq!(app.filtered_indices, vec![1]);
    app.filter_query = "active".to_string();
    app.apply_filter();
    assert_eq!(app.filtered_indices, vec![2]);
    assert_eq!(app.current_selected_project_index(), Some(2));
    app.filter_query = "   ".to_string();
    app.apply_filter();
    assert_eq!(app.filtered_indices, vec![0, 1, 2]);
    let mut plain = TuiApp::new(create_mock_projects(), stats(), false);
    plain.filter_query = "no git".to_string();
    plain.apply_filter();
    assert_eq!(plain.filtered_indices.len(), 3);
}

#[test]
fn cursor_stays_inside_a_shrinking_list() {
    let mut app = TuiApp::new(create_mock_projects(), stats(), false);
    app.move_up();
    assert_eq!(app.cursor_index, 2);
    app.filter_query = "o".to_string();
    app.apply_filter();
    assert_eq!(app.filtered_indices, vec![0, 1, 2]);
    app.filter_query = "order".to_string();
    app.apply_filter();
    assert_eq!(app.cursor_index, 0);
    assert_eq!(app.table_selection, Some(0));
    app.filter_query = "zzz".to_string();
    app.apply_filter();
    assert_eq!(app.table_selection, None);
    app.move_down();
    app.toggle_selection();
    assert!(app.selected_indices.is_empty());
}

#[test]
fn keys_drive_the_dashboard() {
    let mut app = TuiApp::new(create_mock_projects(), stats(), false);
    assert_eq!(app.handle_key(KeyInput::Char('j')), KeyOutcome::Continue);
    assert_eq!(app.cursor_index, 1);
    app.handle_key(KeyInput::Up);
    assert_eq!(app.cursor_index, 0);
    app.handle_key(KeyInput::Char('d'));
    assert!(!app.show_confirm_dialog);
    app.handle_key(KeyInput::Char(' '));
    assert!(app.selected_indices.contains(&0));
    app.handle_key(KeyInput::Char('d'));
    assert!(app.show_confirm_dialog);
    app.handle_key(KeyInput::Char('x'));
    assert!(app.show_confirm_dialog);
    assert_eq!(app.handle_key(KeyInput::Char('n')), KeyOutcome::Continue);
    assert!(!app.show_confirm_dialog);
    app.handle_key(KeyInput::Char('d'));
    assert_eq!(app.handle_key(KeyInput::Enter), KeyOutcome::Clean);
    assert!(!app.show_confirm_dialog);

    app.handle_key(KeyInput::Char('/'));
    assert!(app.is_filtering);
    for c in "nodex".chars() {
        app.handle_key(KeyInput::Char(c));
    }
    assert_eq!(app.filtered_indices.len(), 0);
    app.handle_key(KeyInput::Backspace);
    assert_eq!(app.filter_query, "node");
    assert_eq!(app.filtered_indices, vec![1]);
    app.handle_key(KeyInput::Enter);
    assert!(!app.is_filtering);
    app.handle_key(KeyInput::Char('q'));
    assert!(app.should_quit);

    let mut app2 = TuiApp::new(create_mock_projects(), stats(), false);
    app2.handle_key(KeyInput::Char('f'));
    app2.handle_key(KeyInput::Char('h'));
    app2.handle_key(KeyInput::Esc);
    assert!(!app2.is_filtering);
    assert_eq!(app2.filter_query, "");
    assert_eq!(app2.filtered_indices.len(), 3);
    app2.filter_query = "hero".to_string();
    app2.apply_filter();
    app2.handle_key(KeyInput::Char('c'));
    assert_eq!(app2.filter_query, "");
    assert_eq!(app2.filtered_indices.len(), 3);
    app2.handle_key(KeyInput::Char('a'));
    assert_eq!(app2.selected_indices.len(), 3);
    app2.handle_key(KeyInput::Char('u'));
    assert!(app2.selected_indices.is_empty());
    app2.handle_key(KeyInput::Esc);
    assert!(app2.should_quit);
}

#[test]
fn toggling_twice_restores_the_selection() {
    let mut app = TuiApp::new(with_git(create_mock_projects()), stats(), false);
    let before = app.selected_indices.clone();
    app.move_down();
    app.toggle_selection();
    app.toggle_selection();
    assert_eq!(app.selected_indices, before);
    app.move_down();
    app.move_up();
    assert_eq!(app.cursor_index, 1);
}

#[test]
fn clean_plan_and_finish() {
    let mut app = TuiApp::new(create_mock_projects(), stats(), false);
    app.move_down();
    app.toggle_selection();
    app.move_down();
    app.toggle_selection();
    let plan = app.clean_plan();
    assert_eq!(plan.len(), 2);
    assert_eq!(plan[0].abs_path, "/mock/hdp_frontend/node_modules");
    assert_eq!(plan[1].abs_path, "/mock/order_service/bin");

    app.note_clean_error("bin", "denied");
    assert_eq!(
        app.notification_message,
        Some(("Error cleaning bin: denied".to_string(), NoticeKind::Error))
    );
    let report = CleanReport { items_cleaned: 2, total_bytes_reclaimed: 6144, errors: Vec::new() };
    app.finish_clean(&report);
    assert_eq!(app.projects.len(), 1);
    assert_eq!(app.projects[0].root, "/mock/hero_backend");
    assert!(app.selected_indices.is_empty());
    assert_eq!(app.filtered_indices, vec![0]);
    assert_eq!(app.cursor_index, 0);
    assert_eq!(
        app.notification_message,
        Some(("\u{2714} Cleaned 2 artifact(s) successfully! Reclaimed 6.0 KB".to_string(), NoticeKind::Success))
    );

    app.note_dry_run();
    assert_eq!(
        app.notification_message,
        Some(("[DRY-RUN] Clean simulated: No files were touched.".to_string(), NoticeKind::Info))
    );
}

#[test]
fn prompt_items_and_defaults() {
    let mut ps = with_git(create_mock_projects());
    ps[0].artifacts.push(artifact("debug", "/mock/hero_backend", 10));
    let (items, defaults) = selectable_items(&ps);
    assert_eq!(items.len(), 4);
    assert_eq!(defaults, vec![0, 1]);
    assert_eq!(items[1].artifact_name, "debug");
    assert_eq!(items[3].project_type, ProjectType::Dotnet);
    assert_eq!(items[0].label(), "/mock/hero_backend (Rust: target) - 1.0 KB [Stale]");
    assert_eq!(items[2].label(), "/mock/hdp_frontend (Node: node_modules) - 2.0 KB [Stale (Dirty)]");
    let long = sweep_rs::ui::tui::SelectableArtifact {
        project_root: "/a/very/long/path/that/exceeds/thirty/bytes".to_string(),
        project_type: ProjectType::Go,
        artifact_path: "/x".to_string(),
        artifact_name: "bin",
        size_bytes: 1,
        git_info: None,
    };
    assert_eq!(long.label(), "...h/that/exceeds/thirty/bytes (Go: bin) - 1 B [No Git]");
}

#[test]
fn begin_clean_touches_nothing_in_a_dry_run() {
    let mut dry = TuiApp::new(create_mock_projects(), stats(), true);
    dry.toggle_all();
    assert!(dry.begin_clean().is_none());
    assert_eq!(dry.projects.len(), 3);
    assert_eq!(dry.selected_indices.len(), 3);
    assert_eq!(
        dry.notification_message,
        Some(("[DRY-RUN] Clean simulated: No files were touched.".to_string(), NoticeKind::Info))
    );

    let mut live = TuiApp::new(create_mock_projects(), stats(), false);
    live.move_down();
    live.toggle_selection();
    let plan = live.begin_clean().unwrap();
    assert_eq!(plan.len(), 1);
    assert_eq!(plan[0].abs_path, "/mock/hdp_frontend/node_modules");
    assert!(live.notification_message.is_none());
}

#[test]
fn keys_match_searches_path_ecosystem_and_status() {
    let q: Vec<char> = "stale".chars().collect();
    assert!(sweep_rs::ui::tui::keys_match("/w/api", "rust", "stale", &q));
    assert!(!sweep_rs::ui::tui::keys_match("/w/api", "rust", "active dirty", &q));
    let q: Vec<char> = "w/a".chars().collect();
    assert!(sweep_rs::ui::tui::keys_match("/w/api", "rust", "no git", &q));
    let q: Vec<char> = "ode".chars().collect();
    assert!(sweep_rs::ui::tui::keys_match("/x", "node", "no git", &q));
    let empty: Vec<char> = Vec::new();
    assert!(sweep_rs::ui::tui::keys_match("", "", "", &empty));
}

#[test]
fn end_clean_changes_nothing_when_nothing_was_moved() {
    let mut app = TuiApp::new(create_mock_projects(), stats(), false);
    app.toggle_selection();
    app.note_clean_error("target", "Failed to canonicalize artifact path '/mock/hero_backend/target'");
    let nothing: Vec<CleanItem> = Vec::new();
    app.end_clean(&nothing, &CleanReport::default());
    assert_eq!(app.projects.len(), 3);
    assert_eq!(app.selected_indices.len(), 1);
    assert_eq!(app.notification_message.as_ref().unwrap().1, NoticeKind::Error);
    assert!(sweep_rs::ui::tui::clean_outcome_text(&nothing, &CleanReport::default()).is_none());

    let moved = vec![CleanItem {
        original_path: "/mock/hero_backend/target".to_string(),
        trash_path: "/mock/hero_backend/.sweep-trash-x".to_string(),
        size_bytes: 1024,
    }];
    let report = CleanReport { items_cleaned: 1, total_bytes_reclaimed: 1024, errors: Vec::new() };
    app.end_clean(&moved, &report);
    assert_eq!(app.projects.len(), 2);
    assert!(app.selected_indices.is_empty());
    assert_eq!(
        app.notification_message,
        Some(("\u{2714} Cleaned 1 artifact(s) successfully! Reclaimed 1.0 KB".to_string(), NoticeKind::Success))
    );
    assert_eq!(
        sweep_rs::ui::tui::clean_outcome_text(&moved, &report).unwrap(),
        "\u{2714} Cleaned 1 artifact(s) successfully! Reclaimed 1.0 KB"
    );
}
