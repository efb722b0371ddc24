use qmkonnect::config::parse_hex_value;
use qmkonnect::types::WindowInfo;
use qmkonnect::windows::{
    config_dir_path, get_config_paths, should_ignore_window, WindowsMonitor,
};

fn info(app: &str, title: &str) -> WindowInfo {
    WindowInfo::new(app.to_string(), title.to_string())
}

#[test]
fn test_should_ignore_internal_classes() {
    assert!(should_ignore_window(&info("ForegroundStaging", "Anything")));
    assert!(should_ignore_window(&info("XamlExplorerHostIslandWindow", "x")));
    assert!(should_ignore_window(&info("Windows.UI.Core.CoreWindow", "Search")));
    assert!(should_ignore_window(&info("ApplicationFrameWindow", "Settings")));
    assert!(!should_ignore_window(&info("Notepad", "notes.txt")));
}

#[test]
fn test_should_ignore_empty_titles() {
    assert!(should_ignore_window(&info("SomeClass", "")));
    assert!(!should_ignore_window(&info("CASCADIA_HOSTING_WINDOW_CLASS", "")));
    assert!(!should_ignore_window(&info("Chrome_WidgetWin_1", "")));
}

#[test]
fn test_should_ignore_short_titles() {
    assert!(should_ignore_window(&info("Notepad", "a")));
    assert!(!should_ignore_window(&info("Notepad", "ab")));
}

#[test]
fn test_focus_change_dedup() {
    let mut monitor = WindowsMonitor::new(false);
    assert_eq!(monitor.platform_name(), "Windows");

    let w = monitor.handle_focus_change(info("Notepad", "notes.txt"));
    assert!(w.is_some());

    // The same window again is a duplicate event.
    let w = monitor.handle_focus_change(info("Notepad", "notes.txt"));
    assert!(w.is_none());

    // An ignored window leaves the last-seen snapshot untouched.
    let w = monitor.handle_focus_change(info("ForegroundStaging", "stage"));
    assert!(w.is_none());
    let w = monitor.handle_focus_change(info("Notepad", "notes.txt"));
    assert!(w.is_none());

    let w = monitor.handle_focus_change(info("Chrome_WidgetWin_1", "browser"));
    assert!(w.is_some());
}

#[test]
fn test_windows_config_paths() {
    let paths = get_config_paths(Some("C:\\Users\\u\\AppData\\Roaming"), None, Some("C:\\bin"));
    assert_eq!(
        paths,
        vec![
            "C:\\Users\\u\\AppData\\Roaming\\QMKonnect\\config.toml".to_string(),
            "C:\\bin\\config.toml".to_string(),
        ]
    );

    assert_eq!(
        config_dir_path(Some("C:\\Users\\u\\AppData\\Roaming")).unwrap(),
        "C:\\Users\\u\\AppData\\Roaming\\QMKonnect"
    );
    assert_eq!(
        config_dir_path(None).unwrap_err(),
        "Could not determine APPDATA directory"
    );
}

#[test]
fn test_parse_hex_value() {
    assert_eq!(parse_hex_value("feed").unwrap(), 0xfeed);
    assert_eq!(parse_hex_value("0xFEED").unwrap(), 0xfeed);
    assert_eq!(parse_hex_value("0XFEED").unwrap(), 0xfeed);
    assert_eq!(parse_hex_value("  1A2b  ").unwrap(), 0x1a2b);
    assert_eq!(parse_hex_value("+ff").unwrap(), 0xff);
    assert_eq!(parse_hex_value("0000ffff").unwrap(), 0xffff);
    assert_eq!(parse_hex_value("0").unwrap(), 0);

    assert!(parse_hex_value("").is_err());
    assert!(parse_hex_value("   ").is_err());
    assert!(parse_hex_value("0x").is_err());
    assert!(parse_hex_value("+").is_err());
    assert!(parse_hex_value("xyz").is_err());
    assert!(parse_hex_value("12 34").is_err());
    assert!(parse_hex_value("10000").is_err());
    assert_eq!(parse_hex_value("g").unwrap_err(), "Invalid hex value");
}
