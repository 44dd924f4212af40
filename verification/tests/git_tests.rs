use sweep_rs::git::analyzer::GitAnalyzer;
use sweep_rs::git::analyzer::RepoState;
use sweep_rs::sweep_core::traits::GitInfo;
use sweep_rs::sweep_core::traits::GitStatus;

const NOW: i64 = 1_750_000_000;
const DAY: i64 = 86_400;

#[test]
fn test_non_git_directory() {
    assert!(GitAnalyzer::analyze(None, NOW).is_none());
}

#[test]
fn test_git_repo_lifecycle() {
    // A fresh repository: no HEAD commit yet, clean work tree.
    let info = GitAnalyzer::analyze(Some(RepoState { is_dirty: false, head_commit_time: None }), NOW).unwrap();
    assert_eq!(info.last_commit_days, None);
    assert!(!info.is_dirty);
    assert_eq!(info.status, GitStatus::Unknown);

    // An untracked README makes it dirty.
    let info_dirty = GitAnalyzer::analyze(Some(RepoState { is_dirty: true, head_commit_time: None }), NOW).unwrap();
    assert!(info_dirty.is_dirty);

    // Committed just now.
    let info_clean = GitAnalyzer::analyze(Some(RepoState { is_dirty: false, head_commit_time: Some(NOW - 3) }), NOW).unwrap();
    assert_eq!(info_clean.last_commit_days, Some(0));
    assert!(!info_clean.is_dirty);
    assert_eq!(info_clean.status, GitStatus::Active);
}

#[test]
fn status_follows_commit_age() {
    let at = |days: i64| GitAnalyzer::analyze(Some(RepoState { is_dirty: false, head_commit_time: Some(NOW - days * DAY) }), NOW).unwrap();
    assert_eq!(at(6).status, GitStatus::Active);
    assert_eq!(at(7).status, GitStatus::Moderate);
    assert_eq!(at(8).status, GitStatus::Moderate);
    assert_eq!(at(30).status, GitStatus::Moderate);
    assert_eq!(at(31).status, GitStatus::Stale);
    assert_eq!(at(31).last_commit_days, Some(31));
    let future = GitAnalyzer::analyze(Some(RepoState { is_dirty: true, head_commit_time: Some(NOW + DAY) }), NOW).unwrap();
    assert_eq!(future.last_commit_days, Some(0));
    assert_eq!(future.status, GitStatus::Active);
    let almost = GitAnalyzer::analyze(Some(RepoState { is_dirty: false, head_commit_time: Some(NOW - DAY + 1) }), NOW).unwrap();
    assert_eq!(almost.last_commit_days, Some(0));
}

#[test]
fn git_info_texts() {
    let info = |days: Option<u64>, dirty: bool, status: GitStatus| GitInfo { last_commit_days: days, is_dirty: dirty, status };
    assert_eq!(info(Some(0), false, GitStatus::Active).display_last_commit(), "Today");
    assert_eq!(info(Some(1), false, GitStatus::Active).display_last_commit(), "1 day ago");
    assert_eq!(info(Some(42), false, GitStatus::Stale).display_last_commit(), "42 days ago");
    assert_eq!(info(None, false, GitStatus::Unknown).display_last_commit(), "N/A");
    assert_eq!(info(Some(42), false, GitStatus::Stale).display_status(), "Stale");
    assert_eq!(info(Some(42), true, GitStatus::Stale).display_status(), "Stale (Dirty)");
    assert_eq!(info(None, true, GitStatus::Unknown).display_status(), "Dirty");
    assert_eq!(info(Some(10), false, GitStatus::Moderate).display_status(), "Moderate");
    assert_eq!(GitStatus::Unknown.display_name(), "Unknown");
}
