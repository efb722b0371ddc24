use qmkonnect::hyprland::{
    check_hyprland_environment, hyprland_backoff, hyprland_event_socket_path,
    hyprland_socket_path, is_hyprland_running, parse_active_window_reply, relevant_event,
    BackoffPolicy, HyprlandEnvironment, HyprlandMonitor, HyprlandProbe, ReconnectState,
    RetryDecision, WindowState,
};

#[test]
fn test_window_state() {
    let state1 = WindowState {
        app_class: "App1".to_string(),
        title: "Title1".to_string(),
    };

    let state2 = state1.clone();

    assert_eq!(state1.app_class, state2.app_class);
    assert_eq!(state1.title, state2.title);
    assert_eq!(state1, state2);
}

#[test]
fn test_hyprland_monitor_creation() {
    let monitor = HyprlandMonitor::new(true);
    assert_eq!(monitor.platform_name(), "Hyprland");
    assert!(monitor.verbose);

    let monitor = HyprlandMonitor::new(false);
    assert_eq!(monitor.platform_name(), "Hyprland");
    assert!(!monitor.verbose);
}

#[test]
fn test_poll_detects_changes_and_suppresses_repeats() {
    let mut monitor = HyprlandMonitor::new(false);

    // First observation is always a change.
    let w = monitor.poll_observation(Some(WindowState {
        app_class: "App1".to_string(),
        title: "Title1".to_string(),
    }));
    let w = w.expect("first observation must be submitted");
    assert_eq!(w.app_class, "App1");
    assert_eq!(w.title, "Title1");

    // The same state again is not re-submitted.
    let w = monitor.poll_observation(Some(WindowState {
        app_class: "App1".to_string(),
        title: "Title1".to_string(),
    }));
    assert!(w.is_none());

    // A transition into the empty state is a change ...
    let w = monitor.poll_observation(Some(WindowState {
        app_class: "".to_string(),
        title: "".to_string(),
    }));
    assert!(w.is_some());

    // ... but a repeated empty state is not re-submitted.
    let w = monitor.poll_observation(Some(WindowState {
        app_class: "".to_string(),
        title: "".to_string(),
    }));
    assert!(w.is_none());

    // Leaving the empty state is a change again.
    let w = monitor.poll_observation(Some(WindowState {
        app_class: "App2".to_string(),
        title: "Title2".to_string(),
    }));
    assert!(w.is_some());

    // A failed query is no snapshot this cycle: nothing is submitted and
    // the last-seen state is kept, so the same window is still a repeat.
    let w = monitor.poll_observation(None);
    assert!(w.is_none());
    let w = monitor.poll_observation(Some(WindowState {
        app_class: "App2".to_string(),
        title: "Title2".to_string(),
    }));
    assert!(w.is_none());
}

#[test]
fn test_push_observation_empty_workspace() {
    let mut monitor = HyprlandMonitor::new(false);
    let w = monitor.push_observation(None);
    assert_eq!(w.app_class, "");
    assert_eq!(w.title, "");

    let w = monitor.push_observation(Some(WindowState {
        app_class: "App1".to_string(),
        title: "Title1".to_string(),
    }));
    assert_eq!(w.app_class, "App1");
    assert_eq!(w.title, "Title1");
}

#[test]
fn test_reconnect_backoff_delays() {
    // Listener-start failures after the grace period, with an initial
    // delay of 100 ms and multiplier 2, capped at 10000 ms.
    let policy = BackoffPolicy { initial_delay_ms: 100, factor: 2, cap_ms: 10000 };
    let mut rs = ReconnectState::new(policy);

    let mut delays = Vec::new();
    for _ in 0..5 {
        match rs.on_start_failure(2500) {
            RetryDecision::RetryAfter(d) => delays.push(d),
            RetryDecision::Abort => panic!("failure after the grace period must retry"),
        }
    }
    assert_eq!(delays, vec![100, 200, 400, 800, 1600]);
}

#[test]
fn test_reconnect_backoff_cap() {
    let policy = BackoffPolicy { initial_delay_ms: 100, factor: 2, cap_ms: 10000 };
    let mut rs = ReconnectState::new(policy);
    let mut last = 0;
    for _ in 0..12 {
        match rs.on_start_failure(9999) {
            RetryDecision::RetryAfter(d) => last = d,
            RetryDecision::Abort => panic!("failure after the grace period must retry"),
        }
    }
    assert_eq!(last, 10000);
}

#[test]
fn test_reconnect_grace_period_aborts() {
    let mut rs = ReconnectState::new(hyprland_backoff());
    assert_eq!(rs.on_start_failure(0), RetryDecision::Abort);
    assert_eq!(rs.on_start_failure(1999), RetryDecision::Abort);
    match rs.on_start_failure(2000) {
        RetryDecision::RetryAfter(d) => assert_eq!(d, 101),
        RetryDecision::Abort => panic!("failure after the grace period must retry"),
    }
}

#[test]
fn test_environment_classification() {
    let probe = HyprlandProbe {
        signature: Some("sig".to_string()),
        runtime_dir: Some("/run/user/1000".to_string()),
        signature_socket_exists: true,
        discovered_signature: None,
        process_running: true,
    };
    assert!(matches!(check_hyprland_environment(&probe), HyprlandEnvironment::BySignature));
    assert!(is_hyprland_running(&probe));

    let probe = HyprlandProbe {
        signature: None,
        runtime_dir: Some("/run/user/1000".to_string()),
        signature_socket_exists: false,
        discovered_signature: Some("found".to_string()),
        process_running: true,
    };
    match check_hyprland_environment(&probe) {
        HyprlandEnvironment::ByDiscovery(s) => assert_eq!(s, "found"),
        other => panic!("expected discovery, got {:?}", other),
    }
    assert!(is_hyprland_running(&probe));

    let probe = HyprlandProbe {
        signature: None,
        runtime_dir: None,
        signature_socket_exists: false,
        discovered_signature: None,
        process_running: true,
    };
    assert!(matches!(check_hyprland_environment(&probe), HyprlandEnvironment::SocketMissing));
    assert!(!is_hyprland_running(&probe));

    let probe = HyprlandProbe {
        signature: None,
        runtime_dir: None,
        signature_socket_exists: false,
        discovered_signature: None,
        process_running: false,
    };
    assert!(matches!(check_hyprland_environment(&probe), HyprlandEnvironment::NotRunning));
    assert!(!is_hyprland_running(&probe));
}

#[test]
fn test_socket_path() {
    assert_eq!(
        hyprland_socket_path("/run/user/1000", "abc123"),
        "/run/user/1000/hypr/abc123/.socket.sock"
    );
    assert_eq!(
        hyprland_event_socket_path("/run/user/1000", "abc123"),
        "/run/user/1000/hypr/abc123/.socket2.sock"
    );
}

#[test]
fn test_parse_active_window_reply() {
    let reply = "Window 55bd3b12f060 -> draft.txt:\n\tmapped: 1\n\tinitialClass: Editor\n\ttitle: draft.txt\n\tinitialTitle: untitled\n";
    let w = parse_active_window_reply(reply).expect("a window reply must parse");
    assert_eq!(w.app_class, "Editor");
    assert_eq!(w.title, "draft.txt");

    // A blank reply and a rejected command stand for an empty workspace.
    assert!(parse_active_window_reply("").is_none());
    assert!(parse_active_window_reply("  \n").is_none());
    assert!(parse_active_window_reply("Invalid command").is_none());

    // A reply carrying a class but no title yields the empty title.
    let w = parse_active_window_reply("\tinitialClass: Editor\n").unwrap();
    assert_eq!(w.app_class, "Editor");
    assert_eq!(w.title, "");

    // `initialTitle: ` must not be mistaken for the title field.
    let w = parse_active_window_reply("\tinitialClass: Editor\n\tinitialTitle: untitled\n")
        .unwrap();
    assert_eq!(w.title, "");

    // A reply without a class does not name a window.
    assert!(parse_active_window_reply("\tmapped: 1\n").is_none());
}

#[test]
fn test_relevant_event() {
    assert!(relevant_event("activewindow>>Editor,draft.txt"));
    assert!(relevant_event("workspace>>3"));
    assert!(relevant_event("closewindow>>55bd3b12f060"));
    assert!(relevant_event("openlayer>>bar"));
    assert!(relevant_event("closelayer>>bar"));
    assert!(!relevant_event("monitoradded>>DP-1"));
    assert!(!relevant_event("activewindowv2>>55bd3b12f060"));
    // A line without a separator is its own event name.
    assert!(relevant_event("activewindow"));
    assert!(!relevant_event(""));
}

#[test]
fn test_stop_clears_polling() {
    let mut monitor = HyprlandMonitor::new(false);
    monitor.start_polling();
    assert!(monitor.polling_active);
    assert!(monitor.stop().is_ok());
    assert!(!monitor.polling_active);
}
