use oc_quota::failover::{renewal_control_port, tor_number_of, SwitchOutcome};
use oc_quota::state::{AppState, ProxyPool, TorInstance};

fn pool(id: &str, name: &str) -> ProxyPool {
    ProxyPool {
        id: id.to_string(),
        name: name.to_string(),
        url: format!("socks5h://127.0.0.1:1/{}", id),
        is_active: true,
        errors: 0,
        last_used: None,
    }
}

fn strip_stamp(line: &str) -> &str {
    &line[11..]
}

#[test]
fn switch_without_pools_changes_nothing() {
    let mut s = AppState::new();
    assert_eq!(s.switch_pool(), SwitchOutcome::NoPools);
    assert!(s.logs.is_empty());
    assert_eq!(s.active_pool_index, 0);
}

#[test]
fn switch_moves_to_the_next_pool_and_logs_it() {
    let mut s = AppState::new();
    s.proxy_pools.push(pool("a", "Alpha"));
    s.proxy_pools.push(pool("b", "Beta"));
    s.proxy_pools.push(pool("c", "Gamma"));
    assert_eq!(s.switch_pool(), SwitchOutcome::Switched { renew: None });
    assert_eq!(s.active_pool_index, 1);
    assert_eq!(strip_stamp(&s.logs[0]), "SWITCH: Now using Beta (active: 2/3)");
    s.switch_pool();
    assert_eq!(s.active_pool_index, 2);
    assert_eq!(strip_stamp(&s.logs[1]), "SWITCH: Now using Gamma (active: 3/3)");
    s.switch_pool();
    assert_eq!(s.active_pool_index, 0);
    assert_eq!(strip_stamp(&s.logs[2]), "SWITCH: Now using Alpha (active: 1/3)");
}

#[test]
fn switches_go_round_every_pool() {
    let mut s = AppState::new();
    for i in 0..7 {
        s.proxy_pools.push(pool(&format!("p{}", i), &format!("P{}", i)));
    }
    s.active_pool_index = 4;
    let mut seen = vec![false; 7];
    for _ in 0..7 {
        s.switch_pool();
        seen[s.active_pool_index] = true;
    }
    assert!(seen.iter().all(|&b| b));
    assert_eq!(s.active_pool_index, 4);
}

#[test]
fn leaving_a_tor_pool_marks_its_instance_rotating() {
    let mut s = AppState::new();
    s.proxy_pools.push(pool("tor-3", "Tor #3"));
    s.proxy_pools.push(pool("tor-4", "Tor #4"));
    s.warp_instances.insert(
        9053,
        TorInstance { status: "Running (Control 9063)".to_string(), ip: Some("1.2.3.4".to_string()) },
    );
    s.warp_instances.insert(
        9054,
        TorInstance { status: "Running (Control 9064)".to_string(), ip: Some("5.6.7.8".to_string()) },
    );
    assert!(s.switch_ports_fit());
    assert_eq!(s.switch_pool(), SwitchOutcome::Switched { renew: Some(3) });
    let inst = &s.warp_instances[&9053];
    assert_eq!(inst.status, "Rotating IP (Control 9063)");
    assert!(inst.ip.is_none());
    assert_eq!(s.warp_instances[&9054].ip.as_deref(), Some("5.6.7.8"));
    assert_eq!(strip_stamp(&s.logs[0]), "Tor-3 hit Rate Limit! Failing over...");
    assert_eq!(strip_stamp(&s.logs[1]), "SWITCH: Now using Tor #4 (active: 2/2)");
}

#[test]
fn leaving_an_unknown_tor_instance_only_logs() {
    let mut s = AppState::new();
    s.proxy_pools.push(pool("tor-9", "Tor #9"));
    assert_eq!(s.switch_pool(), SwitchOutcome::Switched { renew: Some(9) });
    assert!(s.warp_instances.is_empty());
    assert_eq!(s.logs.len(), 2);
    assert_eq!(strip_stamp(&s.logs[1]), "SWITCH: Now using Tor #9 (active: 1/1)");
}

#[test]
fn tor_numbers_follow_the_id() {
    assert_eq!(tor_number_of("tor-5"), Some(5));
    assert_eq!(tor_number_of("tor-tor-5"), Some(5));
    assert_eq!(tor_number_of("tor-+5"), Some(5));
    assert_eq!(tor_number_of("tor-x"), None);
    assert_eq!(tor_number_of("warp-5"), None);
    assert_eq!(tor_number_of("tor-"), None);
    assert_eq!(tor_number_of("tor-70000"), None);
}

#[test]
fn ports_of_large_tor_numbers_do_not_fit() {
    let mut s = AppState::new();
    s.proxy_pools.push(pool("tor-60000", "big"));
    assert!(!s.switch_ports_fit());
    s.proxy_pools[0].id = "tor-56475".to_string();
    assert!(s.switch_ports_fit());
    s.proxy_pools[0].id = "tor-56485".to_string();
    assert!(s.switch_ports_fit());
    s.proxy_pools[0].id = "tor-56486".to_string();
    assert!(!s.switch_ports_fit());
}

#[test]
fn a_large_tor_number_without_engine_still_switches() {
    let mut s = AppState::new();
    s.proxy_pools.push(pool("tor-56480", "far"));
    s.proxy_pools.push(pool("b", "Beta"));
    assert!(s.switch_ports_fit());
    assert_eq!(s.switch_pool(), SwitchOutcome::Switched { renew: Some(56480) });
    assert_eq!(s.active_pool_index, 1);
    assert_eq!(renewal_control_port(56480), None);
    assert_eq!(renewal_control_port(56475), Some(65535));
    assert_eq!(renewal_control_port(3), Some(9063));
}

#[test]
fn a_large_tor_number_with_engine_does_not_fit() {
    let mut s = AppState::new();
    s.proxy_pools.push(pool("tor-56480", "far"));
    s.warp_instances.insert(65530, TorInstance { status: "Running".to_string(), ip: None });
    assert!(!s.switch_ports_fit());
}

#[test]
fn active_pool_is_a_copy_of_the_current_one() {
    let mut s = AppState::new();
    assert!(s.active_pool().is_none());
    s.proxy_pools.push(pool("a", "Alpha"));
    s.proxy_pools.push(pool("b", "Beta"));
    s.active_pool_index = 1;
    let p = s.active_pool().unwrap();
    assert_eq!(p.id, "b");
    assert_eq!(p.name, "Beta");
    assert_eq!(p.url, "socks5h://127.0.0.1:1/b");
}

#[test]
fn renewal_results_are_logged() {
    let mut s = AppState::new();
    s.record_renewal(2, true);
    s.record_renewal(4, false);
    assert_eq!(strip_stamp(&s.logs[0]), "Tor-2 successfully acquired new Identity!");
    assert_eq!(strip_stamp(&s.logs[1]), "Tor-4 failed to rotate IP.");
}
