use oc_quota::state::{AppState, ProxyPool, TorInstance};
use oc_quota::ui::{
    command_for, feed_start, gauge_view, log_tone, next_tab, previous_tab, select_next,
    select_previous, status_tone, Command, Dashboard, Input, Key, LogPane, Tone,
};

fn key(k: Key) -> Input {
    Input::Key { key: k, pressed: true }
}

#[test]
fn keys_map_to_commands() {
    assert_eq!(command_for(key(Key::Char('q'))), Command::Quit);
    assert_eq!(command_for(key(Key::Char('x'))), Command::Ignore);
    assert_eq!(command_for(key(Key::Tab)), Command::NextTab);
    assert_eq!(command_for(key(Key::Right)), Command::NextTab);
    assert_eq!(command_for(key(Key::Left)), Command::PreviousTab);
    assert_eq!(command_for(key(Key::Up)), Command::SelectPrevious);
    assert_eq!(command_for(key(Key::Down)), Command::SelectNext);
    assert_eq!(command_for(Input::ScrollUp), Command::SelectPrevious);
    assert_eq!(command_for(Input::ScrollDown), Command::SelectNext);
    assert_eq!(command_for(Input::Other), Command::Ignore);
    assert_eq!(command_for(Input::Key { key: Key::Char('q'), pressed: false }), Command::Ignore);
}

#[test]
fn tabs_wrap_forward_and_stop_backward() {
    assert_eq!(next_tab(0), 1);
    assert_eq!(next_tab(1), 0);
    assert_eq!(previous_tab(1), 0);
    assert_eq!(previous_tab(0), 0);
    assert_eq!(previous_tab(next_tab(0)), 0);
    assert_eq!(next_tab(next_tab(1)), 1);
}

#[test]
fn the_selection_stays_in_the_log() {
    assert_eq!(select_previous(None), 0);
    assert_eq!(select_previous(Some(0)), 0);
    assert_eq!(select_previous(Some(5)), 4);
    assert_eq!(select_next(None, 10), 0);
    assert_eq!(select_next(Some(3), 10), 4);
    assert_eq!(select_next(Some(9), 10), 9);
    assert_eq!(select_next(Some(20), 10), 9);
    assert_eq!(select_next(Some(0), 0), 0);
}

#[test]
fn commands_move_tab_and_selection() {
    let mut s = AppState::new();
    for i in 0..3 {
        s.log_at("00:00:00", format!("{}", i));
    }
    let step = s.apply_command(Command::NextTab, None);
    assert!(!step.quit);
    assert_eq!(s.active_tab, 1);
    let step = s.apply_command(Command::SelectNext, Some(2));
    assert_eq!(step.selection, Some(2));
    let step = s.apply_command(Command::SelectPrevious, step.selection);
    assert_eq!(step.selection, Some(1));
    s.apply_command(Command::PreviousTab, None);
    assert_eq!(s.active_tab, 0);
    assert!(s.apply_command(Command::Quit, None).quit);
}

#[test]
fn the_gauge_shows_the_success_rate() {
    let g = gauge_view(95, 20, 1);
    assert_eq!(g.fill, 95);
    assert_eq!(g.tone, Tone::Success);
    assert_eq!(g.label, "95% (20 Requests / 1 Retries)");
    assert_eq!(gauge_view(90, 10, 1).tone, Tone::Warning);
    assert_eq!(gauge_view(71, 10, 3).tone, Tone::Warning);
    assert_eq!(gauge_view(70, 10, 3).tone, Tone::Error);
    assert_eq!(gauge_view(250, 0, 0).fill, 100);
}

#[test]
fn statuses_have_tones() {
    assert_eq!(status_tone(Dashboard::Rotation, "Running (Control 9061)"), Tone::Success);
    assert_eq!(status_tone(Dashboard::Rotation, "Rotating IP (Control 9061)"), Tone::Warning);
    assert_eq!(status_tone(Dashboard::Unified, "Running (Control 9061)"), Tone::Success);
    assert_eq!(status_tone(Dashboard::Unified, "Starting (Control 9061)"), Tone::Warning);
    assert_eq!(status_tone(Dashboard::Unified, "Bootstrapping 50%"), Tone::Warning);
    assert_eq!(status_tone(Dashboard::Unified, "Rotating IP (Control 9061)"), Tone::Error);
}

#[test]
fn log_lines_have_tones() {
    let fail = "[00:00:00] FAIL (429 Too Many Requests) on attempt 1 - switching pool...";
    let ok = "[00:00:00] OK: Request succeeded on first try";
    let ready = "[00:00:00] Tor-9051 ready. Exit Node IP: 1.2.3.4";
    let debug = "[00:00:00] DEBUG: x";
    let switch = "[00:00:00] SWITCH: Now using Tor #2 (active: 2/5)";
    for pane in [LogPane::RotationLog, LogPane::ActivityFeed, LogPane::DetailedLog].iter() {
        assert_eq!(log_tone(*pane, fail), Tone::Error);
        assert_eq!(log_tone(*pane, ok), Tone::Success);
        assert_eq!(log_tone(*pane, "x error y"), Tone::Error);
        assert_eq!(log_tone(*pane, "renewed successfully"), Tone::Success);
    }
    assert_eq!(log_tone(LogPane::RotationLog, ready), Tone::Accent);
    assert_eq!(log_tone(LogPane::ActivityFeed, ready), Tone::Success);
    assert_eq!(log_tone(LogPane::DetailedLog, ready), Tone::Success);
    assert_eq!(log_tone(LogPane::RotationLog, debug), Tone::Text);
    assert_eq!(log_tone(LogPane::ActivityFeed, debug), Tone::Muted);
    assert_eq!(log_tone(LogPane::DetailedLog, debug), Tone::Muted);
    assert_eq!(log_tone(LogPane::ActivityFeed, switch), Tone::Text);
    assert_eq!(log_tone(LogPane::DetailedLog, "Tor-1 hit"), Tone::Accent);
}

#[test]
fn the_feed_shows_the_newest_lines_that_fit() {
    assert_eq!(feed_start(50, 6), 46);
    assert_eq!(feed_start(3, 6), 0);
    assert_eq!(feed_start(10, 1), 10);
    assert_eq!(feed_start(10, 2), 10);
    assert_eq!(feed_start(0, 6), 0);
}

#[test]
fn the_active_pool_label() {
    let mut s = AppState::new();
    assert_eq!(s.active_pool_label(), "None");
    s.proxy_pools.push(ProxyPool {
        id: "tor-1".to_string(),
        name: "Tor #1".to_string(),
        url: String::new(),
        is_active: true,
        errors: 0,
        last_used: None,
    });
    assert_eq!(s.active_pool_label(), "Tor #1");
}

#[test]
fn engines_are_listed_by_port() {
    let mut s = AppState::new();
    for port in [9055u16, 9051, 51001, 9053].iter() {
        s.warp_instances.insert(
            *port,
            TorInstance { status: format!("Starting (Control {})", port + 10), ip: None },
        );
    }
    s.warp_instances.get_mut(&9053).unwrap().status = "Running (Control 9063)".to_string();
    s.warp_instances.get_mut(&9053).unwrap().ip = Some("1.1.1.1".to_string());
    assert_eq!(s.engine_ports(), vec![9051, 9053, 9055, 51001]);
    let rows = s.engine_rows(Dashboard::Unified);
    assert_eq!(rows.len(), 4);
    assert_eq!(rows[0].label, "Tor-9051");
    assert_eq!(rows[0].ip, "Waiting...");
    assert_eq!(rows[0].ip_tone, Tone::Muted);
    assert_eq!(rows[0].status_tone, Tone::Warning);
    assert_eq!(rows[1].port, 9053);
    assert_eq!(rows[1].ip, "1.1.1.1");
    assert_eq!(rows[1].ip_tone, Tone::Success);
    assert_eq!(rows[1].status_tone, Tone::Success);
    assert_eq!(rows[3].label, "Tor-51001");
    assert!(AppState::new().engine_rows(Dashboard::Rotation).is_empty());
}
