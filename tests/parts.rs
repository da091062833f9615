use repo_sync::settings::{
    get_global_settings_file, join_path, settings_file_in, SettingsArg, SyncConfig,
};
use repo_sync::signal::{
    classify, classify_result, ExecutionOutcome, RawEvent, RawEventKind, SyncSignal, WatchError,
};
use repo_sync::timer::{DebounceTimer, PullTicker};

fn event(kind: RawEventKind) -> RawEvent {
    RawEvent { kind, paths: vec!["/tmp/repo/a.txt".to_string()] }
}

#[test]
fn content_changes_are_modifications() {
    for kind in [RawEventKind::Create, RawEventKind::Modify, RawEventKind::Remove] {
        assert_eq!(classify(&event(kind)), Some(SyncSignal::Modification));
    }
    for kind in [RawEventKind::Metadata, RawEventKind::Access, RawEventKind::Other] {
        assert_eq!(classify(&event(kind)), None);
    }
}

#[test]
fn watcher_errors_are_passed_on() {
    let err = WatchError { reason: "permission denied".to_string() };
    assert_eq!(classify_result(Err(err.clone())), Err(err));
    assert_eq!(classify_result(Ok(event(RawEventKind::Access))), Ok(None));
    assert_eq!(classify_result(Ok(event(RawEventKind::Metadata))), Ok(None));
    assert_eq!(
        classify_result(Ok(event(RawEventKind::Remove))),
        Ok(Some(SyncSignal::Modification))
    );
}

#[test]
fn outcome_from_result() {
    assert_eq!(ExecutionOutcome::from_result(Ok(())), ExecutionOutcome::Success);
    let failed = ExecutionOutcome::from_result(Err("network unreachable".to_string()));
    assert_eq!(failed, ExecutionOutcome::Failure { reason: "network unreachable".to_string() });
    assert!(!failed.is_success());
    assert!(ExecutionOutcome::Success.is_success());
}

#[test]
fn debounce_restart_postpones_and_fires_once() {
    let mut d = DebounceTimer::new(2000);
    assert!(!d.fire(5000));
    assert_eq!(d.remaining(0), None);
    d.restart(0);
    assert_eq!(d.remaining(500), Some(1500));
    d.restart(1000);
    assert!(!d.fire(2999));
    assert!(d.fire(3000));
    assert!(!d.fire(3001));
    d.restart(4000);
    d.cancel();
    assert!(!d.fire(10000));
}

#[test]
fn ticker_keeps_its_grid() {
    let mut t = PullTicker::new(1000, 0);
    assert_eq!(t.remaining(250), 750);
    assert!(!t.fire(999));
    assert!(t.fire(2500));
    assert_eq!(t.last, 2000);
    assert_eq!(t.remaining(2500), 500);
    assert!(!t.fire(2999));
    assert!(t.fire(3000));
    assert_eq!(t.last, 3000);
}

#[test]
fn paths_are_joined_with_one_separator() {
    assert_eq!(join_path("/home/u/.config/repo-sync", "settings.toml"), "/home/u/.config/repo-sync/settings.toml");
    assert_eq!(join_path("/etc/", "settings.toml"), "/etc/settings.toml");
    assert_eq!(join_path("", "settings.toml"), "settings.toml");
    assert_eq!(settings_file_in("/cfg"), "/cfg/settings.toml");
}

#[test]
fn global_settings_file_is_named_settings() {
    if let Some(p) = get_global_settings_file() {
        assert!(p.ends_with("/settings.toml"));
        assert!(p.len() > "/settings.toml".len());
    }
}

#[test]
fn default_and_merge() {
    let mut c = SyncConfig::default();
    assert_eq!(c.repo_path, "");
    assert_eq!(c.tpush_ms, 1000);
    assert_eq!(c.tpull_ms, 1000);
    c.merge_arg(SettingsArg { repo_path: Some("/srv/notes".to_string()), tpush_ms: None, tpull_ms: Some(30000) });
    assert_eq!(c, SyncConfig { repo_path: "/srv/notes".to_string(), tpush_ms: 1000, tpull_ms: 30000 });
    c.merge_arg(SettingsArg { repo_path: None, tpush_ms: Some(250), tpull_ms: None });
    assert_eq!(c, SyncConfig { repo_path: "/srv/notes".to_string(), tpush_ms: 250, tpull_ms: 30000 });
}

#[test]
fn metadata_only_change_is_ignored() {
    assert_eq!(classify(&event(RawEventKind::Metadata)), None);
}

#[test]
fn global_config_path_is_not_empty() {
    if let Some(p) = repo_sync::settings::get_global_config_path() {
        assert!(!p.is_empty());
    }
}
