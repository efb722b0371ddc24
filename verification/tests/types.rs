use qmkonnect::types::WindowInfo;

#[test]
fn test_window_info_creation() {
    let app_class = "TestApp".to_string();
    let title = "Test Title".to_string();

    let window_info = WindowInfo::new(app_class.clone(), title.clone());

    assert_eq!(window_info.app_class, app_class);
    assert_eq!(window_info.title, title);
}

#[test]
fn test_window_info_equality() {
    let window1 = WindowInfo::new("App1".to_string(), "Title1".to_string());
    let window2 = WindowInfo::new("App1".to_string(), "Title1".to_string());
    let window3 = WindowInfo::new("App2".to_string(), "Title1".to_string());

    assert_eq!(window1, window2);
    assert_ne!(window1, window3);
}

#[test]
fn test_window_info_clone() {
    let window = WindowInfo::new("App1".to_string(), "Title1".to_string());
    let copy = window.clone();
    assert_eq!(window, copy);
}
