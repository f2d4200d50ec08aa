use apple_music_tui::backend::BackendError;
use apple_music_tui::config::ConfigError;
use apple_music_tui::doctor::{
    check_identifier, check_platform_and_music_app, check_private_key, check_release_and_local_paths,
    check_storefront, safe_music_app_error, CheckStatus, DoctorReport, VERSION,
};
use apple_music_tui::domain::BackendAvailability;
use apple_music_tui::music_app::LocalCacheStatus;

fn unreadable_cache() -> LocalCacheStatus {
    LocalCacheStatus {
        path: Some("/Users/me/Library/Caches/apple-music-tui/library.json".to_owned()),
        schema_version: None,
        tracks: None,
        playlists: None,
        last_updated_unix_seconds: None,
        readable: false,
    }
}

#[test]
fn warnings_and_failures_remain_distinct() {
    let mut report = DoctorReport::default();
    report.push("missing optional auth", CheckStatus::Warning, "not configured");
    assert!(!report.has_failures());

    report.push("bad key", CheckStatus::Failure, "invalid");
    assert!(report.has_failures());
    assert_eq!(report.checks[0].status, CheckStatus::Warning);
    assert_eq!(report.checks[1].status, CheckStatus::Failure);
}

#[test]
fn release_diagnostics_expose_version_and_local_paths_without_secrets() {
    let mut report = DoctorReport::default();
    check_release_and_local_paths(
        &mut report,
        VERSION,
        Ok("/Users/me/.config/apple-music-tui/config.toml".to_owned()),
        &unreadable_cache(),
    );
    let text = format!("{:#?}", report.checks);
    assert!(text.contains(VERSION));
    assert!(text.contains("Config path"));
    assert!(text.contains("Library cache"));
    assert!(!text.contains("Authorization: Bearer"));
}

#[test]
fn doctor_sanitizes_automation_failure_detail() {
    let detail = safe_music_app_error("osascript error -1743: private detail".to_owned());
    assert!(detail.contains("Music.app query failed"));
    assert!(!detail.contains("-1743"));
    assert!(!detail.contains("private detail"));
}

#[test]
fn readable_cache_reports_its_counts_and_update_time() {
    let mut report = DoctorReport::default();
    let cache = LocalCacheStatus {
        path: Some("/tmp/cache.json".to_owned()),
        schema_version: Some(3),
        tracks: Some(12_997),
        playlists: Some(41),
        last_updated_unix_seconds: Some(1_700_000_000),
        readable: true,
    };
    check_release_and_local_paths(&mut report, VERSION, Err("could not determine the home directory for Apple Music configuration".to_owned()), &cache);
    assert_eq!(report.checks.len(), 5);
    assert_eq!(report.checks[2].status, CheckStatus::Failure);
    assert_eq!(report.checks[3].status, CheckStatus::Pass);
    assert_eq!(
        report.checks[3].detail,
        "/tmp/cache.json; schema 3; 12997 tracks; 41 playlists; updated Unix 1700000000"
    );
    assert_eq!(report.checks[0].detail, format!("{VERSION} (Cargo package version)"));
    assert!(report.has_failures());
}

#[test]
fn music_app_outcomes_map_to_statuses_without_raw_errors() {
    let mut report = DoctorReport::default();
    check_platform_and_music_app(&mut report, false, Ok(BackendAvailability::Error("raw -1743 detail".to_owned())));
    assert_eq!(report.checks[0].status, CheckStatus::Warning);
    assert_eq!(report.checks[1].status, CheckStatus::Failure);
    assert!(!report.checks[1].detail.contains("-1743"));
    let mut report = DoctorReport::default();
    check_platform_and_music_app(&mut report, true, Ok(BackendAvailability::NotRunning));
    assert_eq!(report.checks[0].detail, "macOS");
    assert_eq!(report.checks[1].status, CheckStatus::Warning);
    assert!(!report.has_failures());
    let mut report = DoctorReport::default();
    check_platform_and_music_app(&mut report, true, Err(BackendError::EmptyQueue));
    assert_eq!(report.checks[1].detail, "the playback queue is empty");
}

#[test]
fn configuration_checks_report_each_field() {
    let mut report = DoctorReport::default();
    check_identifier(&mut report, "Team ID", "team_id", Some("ABCDE12345"));
    check_identifier(&mut report, "Key ID", "key_id", None);
    check_storefront(&mut report, Some("US"));
    check_storefront(&mut report, None);
    check_private_key(&mut report, Some("  "), "/Users/me", None);
    check_private_key(&mut report, Some("~/keys/AuthKey.p8"), "/Users/me", None);
    check_private_key(
        &mut report,
        Some("~/keys/AuthKey.p8"),
        "/Users/me",
        Some(ConfigError::PrivateKeyMissing("/Users/me/keys/AuthKey.p8".to_owned())),
    );
    let statuses = report.checks.iter().map(|c| c.status).collect::<Vec<_>>();
    assert_eq!(
        statuses,
        vec![
            CheckStatus::Pass,
            CheckStatus::Failure,
            CheckStatus::Failure,
            CheckStatus::Warning,
            CheckStatus::Failure,
            CheckStatus::Pass,
            CheckStatus::Failure,
        ]
    );
    assert_eq!(report.checks[1].detail, "Apple configuration field 'key_id' is missing or empty");
    assert_eq!(report.checks[4].detail, "private_key is missing");
    assert_eq!(report.checks[6].detail, "private key does not exist at /Users/me/keys/AuthKey.p8");
}
