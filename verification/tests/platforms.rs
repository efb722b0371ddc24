use qmkonnect::config::{
    create_config_manager, default_config_content, find_config_file, AnyConfigManager, Config,
    ConfigManager,
};
use qmkonnect::macos::{frontmost_window_title, MacOSMonitor, WindowListEntry};
use qmkonnect::platforms::{create_monitor, get_config_paths, Monitor, PathEnv, Platform};
use qmkonnect::runners::{
    create_runner, parse_cli, CliAction, PlatformRunner, Runner, RunnerAction, WindowsRunner,
};
use qmkonnect::types::WindowInfo;
use qmkonnect::x11::X11Monitor;

fn env(xdg: Option<&str>, home: Option<&str>) -> PathEnv {
    PathEnv {
        xdg_config_home: xdg.map(|s| s.to_string()),
        home: home.map(|s| s.to_string()),
        appdata: None,
        local_appdata: None,
        exe_dir: None,
    }
}

fn args(list: &[&str]) -> Vec<String> {
    list.iter().map(|s| s.to_string()).collect()
}

#[test]
fn test_create_monitor_per_platform() {
    match create_monitor(Platform::LinuxHyprland, true) {
        Ok(Monitor::Hyprland(m)) => assert!(m.verbose),
        _ => panic!("expected the compositor monitor"),
    }
    match create_monitor(Platform::Windows, false) {
        Ok(Monitor::Windows(m)) => assert!(!m.verbose),
        _ => panic!("expected the hook monitor"),
    }
    match create_monitor(Platform::MacOS, false) {
        Ok(Monitor::MacOS(m)) => assert!(!m.verbose),
        _ => panic!("expected the notification monitor"),
    }
    match create_monitor(Platform::LinuxOther, true) {
        Ok(Monitor::X11(m)) => assert!(m.verbose),
        _ => panic!("expected the polling monitor"),
    }
    assert_eq!(
        create_monitor(Platform::Unknown, false).unwrap_err(),
        "No suitable monitor for this platform"
    );
}

#[test]
fn test_monitor_platform_names() {
    let m = create_monitor(Platform::LinuxHyprland, false).unwrap();
    assert_eq!(m.platform_name(), "Hyprland");
    let m = create_monitor(Platform::Windows, false).unwrap();
    assert_eq!(m.platform_name(), "Windows");
    let m = create_monitor(Platform::MacOS, false).unwrap();
    assert_eq!(m.platform_name(), "macOS");
    let m = create_monitor(Platform::LinuxOther, false).unwrap();
    assert_eq!(m.platform_name(), "Linux (X11)");
    assert_eq!(MacOSMonitor::new(false).platform_name(), "macOS");
    assert_eq!(X11Monitor::new(false).platform_name(), "Linux (X11)");
}

#[test]
fn test_platform_config_paths_dispatch() {
    let e = env(Some("/xdg"), Some("/home/u"));
    let paths = get_config_paths(Platform::LinuxHyprland, &e);
    assert_eq!(paths.len(), 3);
    assert_eq!(paths[0], "/xdg/qmk-notifier/config.toml");

    let paths = get_config_paths(Platform::MacOS, &e);
    assert!(paths.is_empty());
}

#[test]
fn test_config_manager_selection() {
    let m = create_config_manager(Platform::LinuxHyprland);
    assert!(matches!(m, AnyConfigManager::Linux(_)));
    let m = create_config_manager(Platform::Windows);
    assert!(matches!(m, AnyConfigManager::Windows(_)));
    let m = create_config_manager(Platform::MacOS);
    assert!(matches!(m, AnyConfigManager::MacOS(_)));
}

#[test]
fn test_config_manager_paths_and_dir() {
    let e = env(Some("/xdg"), Some("/home/u"));
    match create_config_manager(Platform::LinuxOther) {
        AnyConfigManager::Linux(m) => {
            let paths = m.get_config_paths(&e);
            assert_eq!(paths[0], "/xdg/qmk-notifier/config.toml");
            assert_eq!(m.create_config_dir(&e).unwrap(), "/xdg/qmk-notifier");
        },
        _ => panic!("expected the Linux manager"),
    }
}

#[test]
fn test_find_config_file() {
    let paths = vec!["/a".to_string(), "/b".to_string(), "/c".to_string()];
    assert_eq!(
        find_config_file(&paths, &vec![false, true, true]).unwrap(),
        "/b"
    );
    assert_eq!(
        find_config_file(&paths, &vec![false, false, false]).unwrap_err(),
        "No configuration file found in any of the expected locations"
    );
}

#[test]
fn test_default_config_content() {
    let content = default_config_content();
    assert!(content.contains("vendor_id = 0xfeed"));
    assert!(content.contains("product_id = 0x0000"));
}

#[test]
fn test_config_equality() {
    let a = Config { vendor_id: 0xfeed, product_id: 0 };
    let b = Config { vendor_id: 0xfeed, product_id: 0 };
    assert_eq!(a, b);
}

#[test]
fn test_parse_cli() {
    assert_eq!(parse_cli(&args(&["qmkonnect"])), (CliAction::Monitor, false));
    assert_eq!(parse_cli(&args(&["qmkonnect", "-v"])), (CliAction::Monitor, true));
    assert_eq!(parse_cli(&args(&["qmkonnect", "--help"])), (CliAction::Help, false));
    assert_eq!(
        parse_cli(&args(&["qmkonnect", "-c", "-v"])),
        (CliAction::CreateConfig, true)
    );
    assert_eq!(
        parse_cli(&args(&["qmkonnect", "--reload"])),
        (CliAction::Reload, false)
    );
    // Help wins over the other modes.
    assert_eq!(parse_cli(&args(&["qmkonnect", "-c", "-h"])), (CliAction::Help, false));
}

#[test]
fn test_windows_runner_dispatch() {
    let r = WindowsRunner::new(false);
    assert_eq!(r.select_action(&args(&["x", "--service"])), RunnerAction::RunService);
    assert_eq!(
        r.select_action(&args(&["x", "--install-service"])),
        RunnerAction::InstallService
    );
    assert_eq!(
        r.select_action(&args(&["x", "--uninstall-service"])),
        RunnerAction::UninstallService
    );
    assert_eq!(r.select_action(&args(&["x", "--start-service"])), RunnerAction::StartService);
    assert_eq!(r.select_action(&args(&["x", "--stop-service"])), RunnerAction::StopService);
    assert_eq!(r.select_action(&args(&["x", "--tray-app"])), RunnerAction::TrayApp);
    assert_eq!(r.select_action(&args(&["x", "--console"])), RunnerAction::ConsoleMode);
    assert_eq!(r.select_action(&args(&["x"])), RunnerAction::TrayApp);
    // Service dispatch wins over the mode flags.
    assert_eq!(
        r.select_action(&args(&["x", "--console", "--service"])),
        RunnerAction::RunService
    );
}

#[test]
fn test_create_runner_per_platform() {
    assert!(matches!(
        create_runner(Platform::LinuxHyprland, false),
        Ok(Runner::Linux(_))
    ));
    assert!(matches!(create_runner(Platform::MacOS, false), Ok(Runner::MacOS(_))));
    assert!(matches!(create_runner(Platform::Windows, false), Ok(Runner::Windows(_))));
    assert_eq!(
        create_runner(Platform::Unknown, false).unwrap_err(),
        "Unsupported platform"
    );
}

#[test]
fn test_frontmost_window_title() {
    let entries = vec![
        WindowListEntry { owner: "Dock".to_string(), name: Some("Dock".to_string()) },
        WindowListEntry { owner: "Editor".to_string(), name: Some("draft.txt".to_string()) },
        WindowListEntry { owner: "Editor".to_string(), name: Some("other.txt".to_string()) },
    ];
    assert_eq!(frontmost_window_title(&entries, "Editor"), "draft.txt");
    assert_eq!(frontmost_window_title(&entries, "Terminal"), "");

    let entries = vec![WindowListEntry { owner: "Editor".to_string(), name: None }];
    assert_eq!(frontmost_window_title(&entries, "Editor"), "");
}

#[test]
fn test_x11_classification_and_dedup() {
    let mut m = X11Monitor::new(false);

    let w = m.get_active_window_info(Some("_NET_ACTIVE_WINDOW(WINDOW): window id # 0x1e00003"));
    assert_eq!(w.app_class, "X11Application");
    assert_eq!(w.title, "Active Window");

    let w = m.get_active_window_info(Some("_NET_ACTIVE_WINDOW: no such atom"));
    assert_eq!(w.app_class, "Linux");
    assert_eq!(w.title, "Desktop");

    let w = m.get_active_window_info(None);
    assert_eq!(w.app_class, "Linux");

    let first = m.poll_observation(WindowInfo::new("Linux".to_string(), "Desktop".to_string()));
    assert!(first.is_some());
    let repeat = m.poll_observation(WindowInfo::new("Linux".to_string(), "Desktop".to_string()));
    assert!(repeat.is_none());
    let changed = m.poll_observation(WindowInfo::new(
        "X11Application".to_string(),
        "Active Window".to_string(),
    ));
    assert!(changed.is_some());
}
