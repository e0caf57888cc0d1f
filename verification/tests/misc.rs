use sumplayer::screenshot::{base64_payload, decode_base64_text, decode_screenshot_data, screenshot_file_name};
use sumplayer::text::decimal_string;
use sumplayer::window_state::{can_plan_restore, plan_window_restore, MonitorArea, WindowPlacement, WindowState, WindowStateManager};

#[test]
fn decimal_notation() {
    for n in [0u64, 7, 10, 99, 100, 1234567890123, u64::MAX] {
        assert_eq!(decimal_string(n), n.to_string());
    }
}

#[test]
fn history_query_goes_through_unicode_lowercasing() {
    let mut h = sumplayer::history::HistoryManager::new(None);
    h.add_entry_at("https://cafe.example", "ÀBC Café", 1);
    assert_eq!(h.get_entries(Some("àbc"), 10, 0).len(), 1);
    assert_eq!(h.search("CAFÉ", 10).len(), 1);
}

#[test]
fn screenshot_data() {
    assert_eq!(base64_payload("data:image/png;base64,aGVsbG8="), "aGVsbG8=");
    assert_eq!(base64_payload("aGVsbG8="), "aGVsbG8=");
    assert_eq!(decode_screenshot_data("data:image/png;base64,aGVsbG8=").unwrap(), b"hello".to_vec());
    assert_eq!(decode_base64_text("aGk=").unwrap(), b"hi".to_vec());
    assert!(decode_screenshot_data("data:,@@@").is_err());
    assert!(!decode_base64_text("abc").unwrap_err().message.is_empty());
    assert_eq!(screenshot_file_name(1700000000), "screenshot_1700000000.png");
}

#[test]
fn window_state_defaults_and_path() {
    let d = WindowState::default();
    assert_eq!(d, WindowState { x: -1, y: -1, width: 1280, height: 800, is_maximized: false });
    let m = WindowStateManager::new("/data/SumPlayer".to_string());
    assert_eq!(m.file_path(), "/data/SumPlayer/window-state.json");
}

#[test]
fn window_restore_plans() {
    let mon = vec![MonitorArea { x: 0, y: 0, width: 1920, height: 1080 }];
    let s = WindowState { x: 100, y: 50, width: 1280, height: 800, is_maximized: false };
    assert_eq!(
        plan_window_restore(&s, &mon),
        WindowPlacement::Normal { width: 1280, height: 800, position: Some((100, 50)) }
    );
    let off = WindowState { x: 5000, y: 5000, width: 2000, height: 800, is_maximized: false };
    assert_eq!(
        plan_window_restore(&off, &mon),
        WindowPlacement::Normal { width: 1920, height: 800, position: Some((0, 140)) }
    );
    let neg = WindowState { x: -1, y: -1, width: 1280, height: 800, is_maximized: false };
    assert_eq!(
        plan_window_restore(&neg, &vec![]),
        WindowPlacement::Normal { width: 1280, height: 800, position: None }
    );
    let max = WindowState { x: 0, y: 0, width: 1280, height: 800, is_maximized: true };
    assert_eq!(plan_window_restore(&max, &mon), WindowPlacement::Maximized { size: Some((1280, 800)) });
    let empty = WindowState { x: 0, y: 0, width: 0, height: 800, is_maximized: false };
    assert_eq!(plan_window_restore(&empty, &mon), WindowPlacement::Unchanged);
    let second = vec![
        MonitorArea { x: 0, y: 0, width: 1920, height: 1080 },
        MonitorArea { x: 1920, y: 0, width: 1920, height: 1080 },
    ];
    let on_second = WindowState { x: 2000, y: 100, width: 800, height: 600, is_maximized: false };
    assert_eq!(
        plan_window_restore(&on_second, &second),
        WindowPlacement::Normal { width: 800, height: 600, position: Some((2000, 100)) }
    );
}

#[test]
fn window_restore_stops_at_first_showing_monitor() {
    let s = WindowState { x: 100, y: 100, width: 800, height: 600, is_maximized: false };
    let mon = vec![
        MonitorArea { x: 0, y: 0, width: 1920, height: 1080 },
        MonitorArea { x: i32::MAX - 10, y: 0, width: 1920, height: 1080 },
    ];
    assert_eq!(
        plan_window_restore(&s, &mon),
        WindowPlacement::Normal { width: 800, height: 600, position: Some((100, 100)) }
    );
}

#[test]
fn restore_overflow_is_detected() {
    let ok = WindowState { x: 100, y: 100, width: 800, height: 600, is_maximized: false };
    let mon = vec![
        MonitorArea { x: 0, y: 0, width: 1920, height: 1080 },
        MonitorArea { x: i32::MAX - 10, y: 0, width: 1920, height: 1080 },
    ];
    assert!(can_plan_restore(&ok, &mon));
    let wide = WindowState { x: 1000, y: 0, width: 2_147_483_000, height: 600, is_maximized: false };
    assert!(!can_plan_restore(&wide, &mon));
    let max = WindowState { is_maximized: true, ..wide };
    assert!(can_plan_restore(&max, &mon));
    // the first comparison already fails, so the window's right edge is never computed
    let far = WindowState { x: i32::MAX - 10, y: 0, width: 800, height: 600, is_maximized: false };
    let one = vec![MonitorArea { x: 0, y: 0, width: 1920, height: 1080 }];
    assert!(can_plan_restore(&far, &one));
    assert_eq!(
        plan_window_restore(&far, &one),
        WindowPlacement::Normal { width: 800, height: 600, position: Some((560, 240)) }
    );
}
