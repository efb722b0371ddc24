use std::cell::RefCell;

use qmkonnect::debounce::Debouncer;
use qmkonnect::notifier::{debounce_timer_tick, notify_qmk, payload, sanitize, Notifier};
use qmkonnect::types::WindowInfo;

struct MockNotifier {
    messages: RefCell<Vec<String>>,
}

impl MockNotifier {
    fn new() -> Self {
        Self { messages: RefCell::new(Vec::new()) }
    }

    fn call_count(&self) -> usize {
        self.messages.borrow().len()
    }

    fn last_message(&self) -> Option<String> {
        self.messages.borrow().last().cloned()
    }
}

impl Notifier for MockNotifier {
    fn notify(&self, message: String) -> Result<(), String> {
        self.messages.borrow_mut().push(message);
        Ok(())
    }
}

struct FailingNotifier;

impl Notifier for FailingNotifier {
    fn notify(&self, _message: String) -> Result<(), String> {
        Err("sink unavailable".to_string())
    }
}

#[test]
fn test_immediate_send_first_message() {
    let sink = MockNotifier::new();
    let mut deb = Debouncer::new(0);

    let window_info = WindowInfo::new("TestApp".to_string(), "Test Title".to_string());
    let out = notify_qmk(&mut deb, &sink, &window_info, 0);

    assert!(out.sink_error.is_none());
    assert!(out.delivered.is_some());
    assert_eq!(sink.call_count(), 1);
    assert_eq!(
        sink.last_message(),
        Some(format!("{}\x1D{}", window_info.app_class, window_info.title))
    );
}

#[test]
fn test_debounce_subsequent_messages() {
    let sink = MockNotifier::new();
    let mut deb = Debouncer::new(0);

    // First message: sent immediately.
    let window1 = WindowInfo::new("App1".to_string(), "Title1".to_string());
    let out = notify_qmk(&mut deb, &sink, &window1, 600);
    assert!(out.delivered.is_some());
    assert_eq!(sink.call_count(), 1);

    // Second message 400 ms later: within the quiescence window, debounced.
    let window2 = WindowInfo::new("App2".to_string(), "Title2".to_string());
    let out = notify_qmk(&mut deb, &sink, &window2, 1000);
    assert!(out.delivered.is_none());
    assert!(out.arm_timer);

    // 200 ms later the timer checks and finds the burst still fresh.
    let tick = debounce_timer_tick(&mut deb, &sink, 1200);
    assert!(!tick.fired);
    assert_eq!(sink.call_count(), 1);
}

#[test]
fn test_send_after_debounce_timeout() {
    let sink = MockNotifier::new();
    let mut deb = Debouncer::new(0);

    // First message: sent immediately.
    let window1 = WindowInfo::new("App1".to_string(), "Title1".to_string());
    notify_qmk(&mut deb, &sink, &window1, 600);
    assert_eq!(sink.call_count(), 1);

    // Second message inside the debounce window.
    let window2 = WindowInfo::new("App2".to_string(), "Title2".to_string());
    let out = notify_qmk(&mut deb, &sink, &window2, 1000);
    assert!(out.arm_timer);

    // The timer wakes every 100 ms; the quiescence window elapses at 1500.
    let mut t = 1100;
    loop {
        let tick = debounce_timer_tick(&mut deb, &sink, t);
        if tick.fired {
            break;
        }
        t += 100;
        assert!(t <= 2000, "timer never fired");
    }

    assert_eq!(sink.call_count(), 2);
    assert_eq!(
        sink.last_message(),
        Some(format!("{}\x1D{}", window2.app_class, window2.title))
    );
}

#[test]
fn test_multiple_rapid_updates() {
    let sink = MockNotifier::new();
    let mut deb = Debouncer::new(0);

    // First message: sent immediately.
    notify_qmk(
        &mut deb,
        &sink,
        &WindowInfo::new("App1".to_string(), "Title1".to_string()),
        600,
    );
    assert_eq!(sink.call_count(), 1);

    // Rapid updates 50 ms apart: all coalesced.
    let mut t = 650;
    for i in 2..=5 {
        let out = notify_qmk(
            &mut deb,
            &sink,
            &WindowInfo::new(format!("App{}", i), format!("Title{}", i)),
            t,
        );
        assert!(out.delivered.is_none());
        t += 50;
    }
    assert_eq!(sink.call_count(), 1);

    // The timer delivers once the burst has settled for 500 ms.
    let mut t = 900;
    loop {
        let tick = debounce_timer_tick(&mut deb, &sink, t);
        if tick.fired {
            break;
        }
        t += 100;
        assert!(t <= 2000, "timer never fired");
    }

    assert_eq!(sink.call_count(), 2);
    assert_eq!(sink.last_message(), Some("App5\x1DTitle5".to_string()));
}

#[test]
fn test_verbose_mode() {
    let sink = MockNotifier::new();
    let mut deb = Debouncer::new(0);

    let window_info = WindowInfo::new("VerboseApp".to_string(), "Test Verbose".to_string());
    let out = notify_qmk(&mut deb, &sink, &window_info, 0);
    assert!(out.sink_error.is_none());
    assert_eq!(sink.call_count(), 1);

    // The verbose display sanitizes the separator without altering the
    // delivered payload.
    let delivered = sink.last_message().unwrap();
    assert_eq!(sanitize(&delivered), "VerboseApp|Test Verbose");
    assert_eq!(delivered, "VerboseApp\x1DTest Verbose");
}

#[test]
fn test_quiescence_threshold() {
    let sink = MockNotifier::new();
    let mut deb = Debouncer::new(0);

    // Open a burst.
    notify_qmk(
        &mut deb,
        &sink,
        &WindowInfo::new("App1".to_string(), "Title1".to_string()),
        0,
    );
    assert_eq!(sink.call_count(), 1);

    // A gap over 500 ms makes the next submission immediate again.
    let out = notify_qmk(
        &mut deb,
        &sink,
        &WindowInfo::new("App2".to_string(), "Title2".to_string()),
        501,
    );
    assert!(out.delivered.is_some());
    assert_eq!(sink.call_count(), 2);
    assert_eq!(sink.last_message(), Some("App2\x1DTitle2".to_string()));
}

#[test]
fn test_gap_exactly_at_threshold_is_coalesced() {
    let sink = MockNotifier::new();
    let mut deb = Debouncer::new(0);

    notify_qmk(
        &mut deb,
        &sink,
        &WindowInfo::new("App1".to_string(), "Title1".to_string()),
        600,
    );
    assert_eq!(sink.call_count(), 1);

    // A gap of exactly 500 ms does not exceed the window: coalesced.
    let out = notify_qmk(
        &mut deb,
        &sink,
        &WindowInfo::new("App2".to_string(), "Title2".to_string()),
        1100,
    );
    assert!(out.delivered.is_none());
    assert!(out.arm_timer);

    // The timer fires once the window has fully elapsed.
    let tick = debounce_timer_tick(&mut deb, &sink, 1600);
    assert!(tick.fired);
    assert_eq!(sink.call_count(), 2);
    assert_eq!(sink.last_message(), Some("App2\x1DTitle2".to_string()));
}

#[test]
fn test_single_timer_armed_once() {
    let sink = MockNotifier::new();
    let mut deb = Debouncer::new(0);

    notify_qmk(
        &mut deb,
        &sink,
        &WindowInfo::new("App1".to_string(), "Title1".to_string()),
        600,
    );

    let mut armed = 0;
    let mut t = 650;
    for i in 2..=6 {
        let out = notify_qmk(
            &mut deb,
            &sink,
            &WindowInfo::new(format!("App{}", i), format!("Title{}", i)),
            t,
        );
        if out.arm_timer {
            armed += 1;
        }
        t += 50;
    }
    assert_eq!(armed, 1);
}

#[test]
fn test_payload_separator_roundtrip() {
    let w = WindowInfo::new("App1".to_string(), "Title1".to_string());
    let p = payload(&w);
    assert_eq!(p, "App1\x1DTitle1");
    assert_eq!(sanitize(&p), "App1|Title1");
    // Sanitization works on a copy: the payload itself is unchanged.
    assert_eq!(p, "App1\x1DTitle1");
}

#[test]
fn test_sink_failure_reported_not_retried() {
    let sink = FailingNotifier;
    let mut deb = Debouncer::new(0);

    let out = notify_qmk(
        &mut deb,
        &sink,
        &WindowInfo::new("App1".to_string(), "Title1".to_string()),
        0,
    );
    assert_eq!(out.sink_error, Some("sink unavailable".to_string()));

    // The failure does not disturb the cycle: the next submission inside
    // the window is coalesced as usual.
    let out = notify_qmk(
        &mut deb,
        &sink,
        &WindowInfo::new("App2".to_string(), "Title2".to_string()),
        100,
    );
    assert!(out.delivered.is_none());
    assert!(out.arm_timer);
}
