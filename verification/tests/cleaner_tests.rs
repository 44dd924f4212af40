use sweep_rs::sweep_core::cleaner::CleanError;
use sweep_rs::sweep_core::cleaner::CleanItem;
use sweep_rs::sweep_core::cleaner::CleanReport;
use sweep_rs::sweep_core::cleaner::Cleaner;
use sweep_rs::sweep_core::cleaner::WHITELIST_ARTIFACT_NAMES;

#[test]
fn test_security_whitelist_rejection() {
    let cleaner = Cleaner::new();
    let result = cleaner.check_artifact_path("/tmp/work/src");
    assert!(result.is_err());
    assert!(result.unwrap_err().message().contains("Security Error"));
}

#[test]
fn whitelisted_names_pass_the_check() {
    let cleaner = Cleaner::new();
    assert_eq!(cleaner.check_artifact_path("/tmp/app/target").unwrap(), "target");
    assert_eq!(cleaner.check_artifact_path("/tmp/app/node_modules/").unwrap(), "node_modules");
    assert_eq!(cleaner.check_artifact_path("app/./.venv/.").unwrap(), ".venv");
    for name in WHITELIST_ARTIFACT_NAMES {
        assert!(Cleaner::is_whitelisted_name(name));
    }
    assert!(Cleaner::is_whitelisted_name("bundle"));
    assert!(!Cleaner::is_whitelisted_name("src"));
    assert!(!Cleaner::is_whitelisted_name("Target"));
}

#[test]
fn paths_without_a_name_are_invalid() {
    let cleaner = Cleaner::new();
    for p in ["", "/", "..", "target/..", "."] {
        match cleaner.check_artifact_path(p) {
            Err(CleanError::InvalidPath(q)) => assert_eq!(q, p),
            other => panic!("unexpected {:?} for {:?}", other, p),
        }
    }
    assert_eq!(
        CleanError::InvalidPath("/".to_string()).message(),
        "Invalid artifact path: /"
    );
    assert_eq!(
        CleanError::NotWhitelisted("src".to_string()).message(),
        "Security Error: 'src' is not in the recognized build artifact whitelist. Aborting deletion."
    );
    assert_eq!(
        CleanError::NoParent.message(),
        "Cannot determine parent directory for artifact"
    );
}

#[test]
fn trash_path_is_a_sibling_with_a_fresh_uuid() {
    let cleaner = Cleaner::new();
    let t = cleaner.trash_path_for("/home/u/app/target").unwrap();
    assert!(t.starts_with("/home/u/app/.sweep-trash-"));
    let uuid = &t["/home/u/app/.sweep-trash-".len()..];
    assert_eq!(uuid.len(), 36);
    assert_eq!(&uuid[14..15], "4");
    assert!(uuid.chars().all(|c| c == '-' || c.is_ascii_hexdigit() && !c.is_ascii_uppercase()));
    let t2 = cleaner.trash_path_for("/home/u/app/target").unwrap();
    assert_ne!(t, t2);
    let at_root = cleaner.trash_path_for("/target").unwrap();
    assert!(at_root.starts_with("/.sweep-trash-"));
    assert!(matches!(cleaner.trash_path_for("/"), Err(CleanError::InvalidPath(ref p)) if p == "/"));
}

#[test]
fn a_link_that_resolves_outside_the_whitelist_is_refused() {
    // `/w/app/target` passed the check, but it resolved to `/w/app/src`.
    let cleaner = Cleaner::new();
    assert_eq!(cleaner.check_artifact_path("/w/app/target").unwrap(), "target");
    match cleaner.trash_path_for("/w/app/src") {
        Err(e) => assert_eq!(
            e.message(),
            "Security Error: 'src' is not in the recognized build artifact whitelist. Aborting deletion."
        ),
        Ok(t) => panic!("unexpected trash path {}", t),
    }
}

fn item(trash: &str, size: u64) -> CleanItem {
    CleanItem { original_path: "/x/target".to_string(), trash_path: trash.to_string(), size_bytes: size }
}

#[test]
fn tally_counts_successes_and_failures() {
    let items = vec![item("/x/.sweep-trash-a", 1024), item("/x/.sweep-trash-b", 2048), item("/x/.sweep-trash-c", 10)];
    let outcomes = vec![None, Some("permission denied".to_string()), None];
    let report = CleanReport::tally(&items, &outcomes).unwrap();
    assert_eq!(report.items_cleaned, 2);
    assert_eq!(report.total_bytes_reclaimed, 1034);
    assert_eq!(report.errors, vec!["/x/.sweep-trash-b: permission denied".to_string()]);
    let single = CleanReport::tally(&vec![item("/t", 1024)], &vec![None]).unwrap();
    assert_eq!(single.items_cleaned, 1);
    assert_eq!(single.total_bytes_reclaimed, 1024);
    let default = CleanReport::default();
    assert_eq!(default.items_cleaned, 0);
    assert!(default.errors.is_empty());
}

#[test]
fn tally_reports_overflow() {
    let items = vec![item("/a", u64::MAX), item("/b", 1)];
    assert!(CleanReport::tally(&items, &vec![None, None]).is_none());
    assert!(CleanReport::tally(&items, &vec![None, Some("e".to_string())]).is_some());
}

/// The steps of a clean-up that the library decides: the artifact path is
/// checked, a trash path is chosen beside it, and the purge is tallied.
fn rename_and_purge(artifact: &str, size: u64) -> CleanReport {
    let cleaner = Cleaner::new();
    assert_eq!(cleaner.check_artifact_path(artifact).unwrap(), "target");
    let trash = cleaner.trash_path_for(artifact).unwrap();
    let parent = &artifact[..artifact.rfind('/').unwrap()];
    assert!(trash.starts_with(&format!("{}/.sweep-trash-", parent)));
    let items = vec![CleanItem { original_path: artifact.to_string(), trash_path: trash, size_bytes: size }];
    CleanReport::tally(&items, &vec![None]).unwrap()
}

#[test]
fn test_atomic_rename_and_purge() {
    let report = rename_and_purge("/tmp/work/target", 1024);
    assert_eq!(report.items_cleaned, 1);
    assert_eq!(report.total_bytes_reclaimed, 1024);
}

#[test]
fn test_safe_cleaner_e2e() {
    let report = rename_and_purge("/tmp/work/app/target", 4096);
    assert_eq!(report.items_cleaned, 1);
    assert_eq!(report.total_bytes_reclaimed, 4096);
    assert!(report.errors.is_empty());
}

#[test]
fn every_built_in_target_passes_the_whitelist() {
    let cleaner = Cleaner::new();
    let reg = sweep_rs::detectors::DetectorRegistry::default_all();
    for d in reg.detectors() {
        use_detector(&cleaner, d);
    }
}

fn use_detector(cleaner: &Cleaner, d: &sweep_rs::detectors::Detector) {
    for t in <sweep_rs::detectors::Detector as sweep_rs::sweep_core::traits::ProjectDetector>::get_artifacts(d, "/w/p") {
        let path = format!("/w/p/{}", t.rel_path);
        let verdict = cleaner.check_artifact_path(&path);
        if t.rel_path == "vendor/bundle" {
            assert_eq!(verdict.unwrap(), "bundle");
        } else {
            assert_eq!(verdict.unwrap(), t.rel_path);
        }
    }
}

#[test]
fn trash_directories_are_never_whitelisted() {
    let cleaner = Cleaner::new();
    let trash = cleaner.trash_path_for("/w/p/target").unwrap();
    assert!(matches!(cleaner.check_artifact_path(&trash), Err(CleanError::NotWhitelisted(_))));
}
