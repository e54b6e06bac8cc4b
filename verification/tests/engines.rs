use oc_quota::failover::{tor_number_of, SwitchOutcome};
use oc_quota::state::AppState;
use oc_quota::tor::{
    instance_dir, local_address, local_socks_url, tor_bundle_url, tor_control_port, tor_layout,
    tor_instance_numbers, tor_pool, tor_socks_port, torrc_content, torrc_path, PollAction,
    TorProgress, TOR_INSTANCE_COUNT, exit_ip_service,
};
use oc_quota::warp::{
    warp_conf_path, warp_instance_numbers, warp_port, wireproxy_exe, WARP_INSTANCE_COUNT,
};

fn strip_stamp(line: &str) -> &str {
    &line[11..]
}

#[test]
fn tor_ports_are_ten_apart() {
    assert_eq!(tor_socks_port(1), 9051);
    assert_eq!(tor_control_port(1), 9061);
    assert_eq!(tor_socks_port(5), 9055);
    assert_eq!(tor_control_port(5), 9065);
    assert_eq!(TOR_INSTANCE_COUNT, 5);
}

#[test]
fn torrc_lists_ports_directory_and_exit_countries() {
    assert_eq!(
        torrc_content(9051, 9061, "C:\\x\\instances\\tor1"),
        "SocksPort 9051\nControlPort 9061\nDataDirectory C:\\x\\instances\\tor1\nExitNodes {US},{UK},{CA},{DE},{FR}\nStrictNodes 0\n"
    );
}

#[test]
fn tor_files_live_under_the_working_directory() {
    let l = tor_layout("C:\\work");
    assert_eq!(l.tools_dir, "C:\\work\\tools");
    assert_eq!(l.tor_exe, "C:\\work\\tools\\tor\\tor.exe");
    assert_eq!(l.archive_path, "C:\\work\\tools\\tor.tar.gz");
    assert_eq!(l.instances_dir, "C:\\work\\instances");
    let d = instance_dir(&l.instances_dir, 3);
    assert_eq!(d, "C:\\work\\instances\\tor3");
    assert_eq!(torrc_path(&d), "C:\\work\\instances\\tor3\\torrc");
    assert!(tor_bundle_url().ends_with("tor-expert-bundle-windows-x86_64-15.0.15.tar.gz"));
}

#[test]
fn tor_pools_route_through_their_socks_port() {
    let p = tor_pool(2);
    assert_eq!(p.id, "tor-2");
    assert_eq!(p.name, "Tor #2");
    assert_eq!(p.url, "socks5h://127.0.0.1:9052");
    assert!(p.is_active);
    assert_eq!(p.errors, 0);
    assert!(p.last_used.is_none());
    assert_eq!(local_socks_url(9050), "socks5h://127.0.0.1:9050");
    assert_eq!(local_address(9061), "127.0.0.1:9061");
}

#[test]
fn tor_pool_ids_name_their_instance() {
    for n in [1u16, 2, 3, 4, 5, 10, 999, 56475].iter() {
        assert_eq!(tor_number_of(&tor_pool(*n).id), Some(*n));
    }
}

#[test]
fn registration_shows_the_instance_starting() {
    let mut s = AppState::new();
    for n in 1..=TOR_INSTANCE_COUNT {
        s.register_tor_instance(n);
    }
    assert_eq!(s.proxy_pools.len(), 5);
    assert_eq!(s.proxy_pools[4].id, "tor-5");
    assert_eq!(s.warp_instances[&9053].status, "Starting (Control 9063)");
    assert!(s.warp_instances[&9053].ip.is_none());
    assert!(s.logs.is_empty());
}

#[test]
fn exit_addresses_are_trimmed_and_logged() {
    let mut s = AppState::new();
    s.register_tor_instance(1);
    s.record_exit_ip(9051, 9061, "  203.0.113.7\n");
    assert_eq!(s.warp_instances[&9051].status, "Running (Control 9061)");
    assert_eq!(s.warp_instances[&9051].ip.as_deref(), Some("203.0.113.7"));
    assert_eq!(strip_stamp(&s.logs[0]), "Tor-9051 ready. Exit Node IP: 203.0.113.7");
}

#[test]
fn exit_address_of_an_unknown_instance_is_only_logged() {
    let mut s = AppState::new();
    s.record_exit_ip(9099, 9109, "198.51.100.1");
    assert!(s.warp_instances.is_empty());
    assert_eq!(strip_stamp(&s.logs[0]), "Tor-9099 ready. Exit Node IP: 198.51.100.1");
}

#[test]
fn a_rate_limited_tor_pool_renews_its_own_instance() {
    let mut s = AppState::new();
    for n in 1..=5 {
        s.register_tor_instance(n);
    }
    s.active_pool_index = 1;
    assert_eq!(s.switch_pool(), SwitchOutcome::Switched { renew: Some(2) });
    assert_eq!(s.warp_instances[&9052].status, "Rotating IP (Control 9062)");
    assert_eq!(s.warp_instances[&9051].status, "Starting (Control 9061)");
    assert_eq!(s.active_pool_index, 2);
}

#[test]
fn tor_progress_is_logged() {
    let mut s = AppState::new();
    s.record_tor_progress(TorProgress::Starting);
    s.record_tor_progress(TorProgress::Downloading);
    s.record_tor_progress(TorProgress::Extracting);
    s.record_tor_progress(TorProgress::Ready);
    s.record_tor_progress(TorProgress::DownloadFailed);
    assert_eq!(strip_stamp(&s.logs[0]), "Tor Manager starting...");
    assert_eq!(
        strip_stamp(&s.logs[1]),
        "tor.exe not found! Downloading Tor Expert Bundle (this may take a minute)..."
    );
    assert_eq!(strip_stamp(&s.logs[2]), "Extracting Tor Bundle...");
    assert_eq!(strip_stamp(&s.logs[3]), "Tor Bundle ready.");
    assert_eq!(strip_stamp(&s.logs[4]), "Failed to download Tor!");
}

#[test]
fn warp_instances_use_their_own_ports_and_files() {
    assert_eq!(WARP_INSTANCE_COUNT, 5);
    assert_eq!(warp_port(1), 51001);
    assert_eq!(warp_port(5), 51005);
    assert_eq!(warp_conf_path("C:\\i", 2), "C:\\i\\warp-2.conf");
    assert_eq!(wireproxy_exe("C:\\t"), "C:\\t\\wireproxy.exe");
}

#[test]
fn warp_instances_start_then_run() {
    let mut s = AppState::new();
    s.record_warp_start();
    s.set_warp_status(51001, false);
    assert_eq!(s.warp_instances[&51001].status, "Starting...");
    s.set_warp_status(51001, true);
    assert_eq!(s.warp_instances[&51001].status, "Running");
    assert!(s.warp_instances[&51001].ip.is_none());
    assert_eq!(strip_stamp(&s.logs[0]), "WARP Manager started. Initializing instances...");
}

#[test]
fn five_instances_of_each_kind_are_set_up() {
    assert_eq!(tor_instance_numbers(), vec![1, 2, 3, 4, 5]);
    assert_eq!(warp_instance_numbers(), vec![1, 2, 3, 4, 5]);
}

#[test]
fn exit_addresses_are_polled_until_one_comes() {
    let mut s = AppState::new();
    s.register_tor_instance(2);
    assert_eq!(exit_ip_service(), "https://api.ipify.org");
    assert_eq!(s.on_tor_exit_ip_answer(2, None), PollAction::RetryLater);
    assert!(s.logs.is_empty());
    assert_eq!(s.warp_instances[&9052].status, "Starting (Control 9062)");
    assert_eq!(s.on_tor_exit_ip_answer(2, Some("9.9.9.9 \n")), PollAction::Stop);
    assert_eq!(s.warp_instances[&9052].ip.as_deref(), Some("9.9.9.9"));
    assert_eq!(s.warp_instances[&9052].status, "Running (Control 9062)");
    assert_eq!(strip_stamp(&s.logs[0]), "Tor-9052 ready. Exit Node IP: 9.9.9.9");
}
