use oc_quota::router::{
    base_url, find_interceptor_pool, pool_url, pools_url, probe_step, probe_targets, settings_url,
    ProbeStep,
    ConfigAction, ConfigEvent, ConfigStage, LaunchAction, LaunchEvent, LaunchStage, PoolRecord,
    RouterConfig, RouterLaunch, LAUNCH_POLLS,
};
use oc_quota::state::AppState;

fn record(name: Option<&str>, id: Option<&str>, url: Option<&str>) -> PoolRecord {
    PoolRecord {
        name: name.map(|s| s.to_string()),
        id: id.map(|s| s.to_string()),
        proxy_url: url.map(|s| s.to_string()),
    }
}

fn strip_stamp(line: &str) -> &str {
    &line[11..]
}

#[test]
fn the_service_is_looked_for_on_both_ports_and_hosts() {
    let t = probe_targets();
    let got: Vec<(u16, String)> = t.into_iter().map(|p| (p.port, p.url)).collect();
    assert_eq!(
        got,
        vec![
            (20130, "http://127.0.0.1:20130/api/proxy-pools".to_string()),
            (20130, "http://localhost:20130/api/proxy-pools".to_string()),
            (20128, "http://127.0.0.1:20128/api/proxy-pools".to_string()),
            (20128, "http://localhost:20128/api/proxy-pools".to_string()),
        ]
    );
}

#[test]
fn service_urls() {
    assert_eq!(base_url(20128), "http://127.0.0.1:20128");
    assert_eq!(pools_url(20128), "http://127.0.0.1:20128/api/proxy-pools");
    assert_eq!(pool_url(20128, "abc"), "http://127.0.0.1:20128/api/proxy-pools/abc");
    assert_eq!(settings_url(20130), "http://127.0.0.1:20130/api/settings");
}

#[test]
fn the_first_pool_with_the_name_is_taken() {
    let records = vec![
        record(Some("other"), Some("1"), None),
        record(Some("OC-Quota-Rust-Interceptor"), Some("2"), None),
        record(Some("OC-Quota-Rust-Interceptor"), Some("3"), None),
    ];
    assert_eq!(find_interceptor_pool(&records), Some(1));
    assert_eq!(find_interceptor_pool(&vec![record(None, Some("1"), None)]), None);
    assert_eq!(find_interceptor_pool(&Vec::new()), None);
}

#[test]
fn a_current_registration_is_kept() {
    let (mut cfg, first) = RouterConfig::start(20128);
    assert!(matches!(first, ConfigAction::ListPools));
    let listing = vec![record(
        Some("OC-Quota-Rust-Interceptor"),
        Some("pool-7"),
        Some("http://127.0.0.1:20131"),
    )];
    match cfg.next(ConfigEvent::Listed(Some(listing))) {
        ConfigAction::PatchSettings { base_url, pool_id } => {
            assert_eq!(base_url, "http://127.0.0.1:20131");
            assert_eq!(pool_id.as_deref(), Some("pool-7"));
        }
        _ => panic!("expected a patch"),
    }
    assert_eq!(cfg.stage, ConfigStage::Patching);
    assert!(matches!(cfg.next(ConfigEvent::Patched(true)), ConfigAction::Report(true)));
    assert_eq!(cfg.stage, ConfigStage::Finished);
}

#[test]
fn a_stale_registration_is_deleted_and_created_again() {
    let (mut cfg, _) = RouterConfig::start(20128);
    let listing = vec![
        record(Some("x"), Some("a"), Some("http://127.0.0.1:20131")),
        record(Some("OC-Quota-Rust-Interceptor"), Some("old"), Some("http://127.0.0.1:20129")),
    ];
    match cfg.next(ConfigEvent::Listed(Some(listing))) {
        ConfigAction::DeletePool(id) => assert_eq!(id, "old"),
        _ => panic!("expected a deletion"),
    }
    assert!(matches!(cfg.next(ConfigEvent::Deleted), ConfigAction::Pause));
    match cfg.next(ConfigEvent::Paused) {
        ConfigAction::CreatePool { name, proxy_url, kind, is_active } => {
            assert_eq!(name, "OC-Quota-Rust-Interceptor");
            assert_eq!(proxy_url, "http://127.0.0.1:20131");
            assert_eq!(kind, "http");
            assert!(is_active);
        }
        _ => panic!("expected a creation"),
    }
    match cfg.next(ConfigEvent::Created(Some("new".to_string()))) {
        ConfigAction::PatchSettings { pool_id, .. } => assert_eq!(pool_id.as_deref(), Some("new")),
        _ => panic!("expected a patch"),
    }
    assert!(matches!(cfg.next(ConfigEvent::Patched(false)), ConfigAction::Report(false)));
}

#[test]
fn a_missing_registration_is_created() {
    let (mut cfg, _) = RouterConfig::start(20130);
    assert!(matches!(
        cfg.next(ConfigEvent::Listed(Some(vec![record(Some("x"), Some("1"), None)]))),
        ConfigAction::CreatePool { .. }
    ));
    match cfg.next(ConfigEvent::Created(None)) {
        ConfigAction::PatchSettings { pool_id, .. } => assert!(pool_id.is_none()),
        _ => panic!("expected a patch"),
    }
}

#[test]
fn an_unreadable_listing_leads_to_creation() {
    let (mut cfg, _) = RouterConfig::start(20130);
    assert!(matches!(cfg.next(ConfigEvent::Listed(None)), ConfigAction::CreatePool { .. }));
}

#[test]
fn a_registration_without_id_is_created_anew() {
    let (mut cfg, _) = RouterConfig::start(20130);
    let listing = vec![record(Some("OC-Quota-Rust-Interceptor"), None, Some("elsewhere"))];
    assert!(matches!(cfg.next(ConfigEvent::Listed(Some(listing))), ConfigAction::CreatePool { .. }));
}

#[test]
fn answers_out_of_turn_change_nothing() {
    let (mut cfg, _) = RouterConfig::start(20130);
    assert!(matches!(cfg.next(ConfigEvent::Deleted), ConfigAction::Nothing));
    assert_eq!(cfg.stage, ConfigStage::Listing);
}

#[test]
fn a_running_service_is_not_launched() {
    let mut s = AppState::new();
    let (mut l, a) = RouterLaunch::start();
    assert_eq!(a, LaunchAction::FindPort);
    assert_eq!(l.next(&mut s, LaunchEvent::Found(Some(20130))), LaunchAction::Configure(20130));
    assert_eq!(l.stage, LaunchStage::Done);
    assert_eq!(strip_stamp(&s.logs[0]), "9Router is already running on port 20130. Skipping launch.");
}

#[test]
fn a_launched_service_is_waited_for() {
    let mut s = AppState::new();
    let (mut l, _) = RouterLaunch::start();
    assert_eq!(l.next(&mut s, LaunchEvent::Found(None)), LaunchAction::Spawn);
    assert_eq!(strip_stamp(&s.logs[0]), "Starting 9Router GUI...");
    assert_eq!(l.next(&mut s, LaunchEvent::Spawned(Ok(()))), LaunchAction::WaitThenFindPort);
    assert_eq!(l.next(&mut s, LaunchEvent::Found(None)), LaunchAction::WaitThenFindPort);
    assert_eq!(l.next(&mut s, LaunchEvent::Found(Some(20128))), LaunchAction::Configure(20128));
    assert_eq!(s.logs.len(), 1);
}

#[test]
fn a_silent_service_is_given_up_after_fifteen_looks() {
    let mut s = AppState::new();
    let (mut l, _) = RouterLaunch::start();
    l.next(&mut s, LaunchEvent::Found(None));
    let mut action = l.next(&mut s, LaunchEvent::Spawned(Ok(())));
    let mut looks = 0;
    while action == LaunchAction::WaitThenFindPort {
        looks += 1;
        action = l.next(&mut s, LaunchEvent::Found(None));
    }
    assert_eq!(looks, LAUNCH_POLLS as usize);
    assert_eq!(action, LaunchAction::Stop);
    assert_eq!(
        strip_stamp(&s.logs[1]),
        "Warning: 9Router failed to start or didn't respond in time."
    );
}

#[test]
fn a_failed_launch_is_reported() {
    let mut s = AppState::new();
    let (mut l, _) = RouterLaunch::start();
    l.next(&mut s, LaunchEvent::Found(None));
    assert_eq!(
        l.next(&mut s, LaunchEvent::Spawned(Err("not found".to_string()))),
        LaunchAction::Stop
    );
    assert_eq!(strip_stamp(&s.logs[1]), "Failed to start 9Router: not found");
    assert_eq!(
        strip_stamp(&s.logs[2]),
        "Warning: 9Router failed to start or didn't respond in time."
    );
}

#[test]
fn the_configuration_result_is_logged() {
    let mut s = AppState::new();
    s.record_router_configuration(20128, true);
    s.record_router_configuration(20128, false);
    assert_eq!(strip_stamp(&s.logs[0]), "Auto-configured 9Router (Port 20128) with Rust Proxy Pool!");
    assert_eq!(strip_stamp(&s.logs[1]), "Warning: Failed to auto-configure 9Router settings.");
}

#[test]
fn the_first_target_that_answers_gives_the_port() {
    let t = probe_targets();
    assert_eq!(probe_step(&t, 0, false), ProbeStep::Next(1));
    assert_eq!(probe_step(&t, 1, false), ProbeStep::Next(2));
    assert_eq!(probe_step(&t, 2, true), ProbeStep::Found(20128));
    assert_eq!(probe_step(&t, 1, true), ProbeStep::Found(20130));
    assert_eq!(probe_step(&t, 3, false), ProbeStep::NotFound);
}
