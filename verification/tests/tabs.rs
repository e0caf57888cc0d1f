use sumplayer::tab_manager::{
    find_script, focuses_main_view, is_ad_redirect, is_youtube_page, language_label, resolve_url,
    should_record_visit, tab_label, webview_start_url, PixelSize, TabBounds, TabClosure, TabManager,
    TabOffsetAction, TabPlacement,
};

fn order(t: &TabManager) -> Vec<u32> {
    t.list_tabs().iter().map(|l| l.id).collect()
}

#[test]
fn new_strip_uses_configured_or_default_home() {
    let t = TabManager::new(None);
    assert_eq!(t.get_home_page(), "https://www.youtube.com");
    assert_eq!(t.get_chrome_height(), 114);
    assert!(t.get_active_tab_id().is_none());
    let t = TabManager::new(Some("https://start.example".to_string()));
    assert_eq!(t.get_home_page(), "https://start.example");
}

#[test]
fn create_opens_active_new_tab() {
    let mut t = TabManager::new(None);
    let a = t.create_tab(None);
    let b = t.create_tab(Some("https://b.example".to_string()));
    assert_eq!((a, b), (1, 2));
    assert_eq!(t.get_active_tab_id(), Some(2));
    let tab = t.get_active_tab().unwrap();
    assert_eq!(tab.title, "New Tab");
    assert_eq!(tab.url, "https://b.example");
    let list = t.list_tabs();
    assert_eq!(list[0].url, "https://www.youtube.com");
    assert!(!list[0].active);
    assert!(list[1].active);
}

#[test]
fn closing_active_tab_activates_neighbour() {
    let mut t = TabManager::new(None);
    for _ in 0..3 {
        t.create_tab(Some("https://x.example".to_string()));
    }
    t.switch_tab(2);
    assert_eq!(t.close_tab(2), Some(TabClosure { switch_to: Some(3), no_tabs_left: false }));
    assert_eq!(t.get_active_tab_id(), Some(3));
    assert_eq!(t.close_tab(3), Some(TabClosure { switch_to: Some(1), no_tabs_left: false }));
    assert_eq!(t.close_tab(1), Some(TabClosure { switch_to: None, no_tabs_left: true }));
    assert_eq!(t.get_active_tab_id(), None);
    assert_eq!(t.close_tab(1), None);
}

#[test]
fn closing_other_tab_keeps_active() {
    let mut t = TabManager::new(None);
    t.create_tab(None);
    t.create_tab(None);
    assert_eq!(t.close_tab(1), Some(TabClosure { switch_to: None, no_tabs_left: false }));
    assert_eq!(t.get_active_tab_id(), Some(2));
}

#[test]
fn closed_tabs_can_be_restored_most_recent_first() {
    let mut t = TabManager::new(None);
    t.create_tab(Some("https://one.example".to_string()));
    t.create_tab(Some("about:blank".to_string()));
    t.create_tab(Some("https://three.example".to_string()));
    t.close_tab(1);
    t.close_tab(2);
    t.close_tab(3);
    let id = t.restore_closed_tab().unwrap();
    assert_eq!(id, 4);
    assert_eq!(t.get_active_tab().unwrap().url, "https://three.example");
    t.restore_closed_tab();
    assert_eq!(t.get_active_tab().unwrap().url, "https://one.example");
    assert_eq!(t.restore_closed_tab(), None);
}

#[test]
fn only_ten_closed_tabs_are_kept() {
    let mut t = TabManager::new(None);
    for i in 0..12 {
        let id = t.create_tab(Some(format!("https://p{}.example", i)));
        t.close_tab(id);
    }
    let mut reopened = 0;
    while t.restore_closed_tab().is_some() {
        reopened += 1;
    }
    assert_eq!(reopened, 10);
    assert_eq!(t.list_tabs()[9].url, "https://p2.example");
}

#[test]
fn next_and_prev_go_round() {
    let mut t = TabManager::new(None);
    assert_eq!(t.switch_to_next_tab(), None);
    t.create_tab(None);
    assert_eq!(t.switch_to_next_tab(), None);
    t.create_tab(None);
    t.create_tab(None);
    assert_eq!(t.switch_to_next_tab(), Some(1));
    assert_eq!(t.switch_to_prev_tab(), Some(3));
    assert_eq!(t.switch_to_prev_tab(), Some(2));
    assert_eq!(t.switch_to_next_tab(), Some(3));
}

#[test]
fn pin_move_and_update() {
    let mut t = TabManager::new(None);
    t.create_tab(None);
    t.create_tab(None);
    t.create_tab(None);
    assert_eq!(t.toggle_pin_tab(2), Some(true));
    assert_eq!(t.toggle_pin_tab(2), Some(false));
    assert_eq!(t.toggle_pin_tab(9), None);
    assert!(t.move_tab(3, Some(1)));
    assert_eq!(order(&t), vec![3, 1, 2]);
    assert!(t.move_tab(3, None));
    assert_eq!(order(&t), vec![1, 2, 3]);
    assert!(!t.move_tab(7, None));
    t.update_tab_title(1, "Title");
    t.update_tab_url(1, "https://u.example");
    t.update_tab_favicon(1, "https://u.example/favicon.ico");
    t.switch_tab(1);
    let tab = t.get_active_tab().unwrap();
    assert_eq!(tab.title, "Title");
    assert_eq!(tab.url, "https://u.example");
    assert_eq!(tab.favicon, "https://u.example/favicon.ico");
    assert!(t.switch_tab(42).is_none());
    assert_eq!(t.get_active_tab_id(), Some(1));
}

#[test]
fn navigate_resolves_and_updates_active_tab() {
    let mut t = TabManager::new(None);
    assert!(t.navigate_to("example.com").is_none());
    t.create_tab(None);
    let (id, url) = t.navigate_to("example.com").unwrap();
    assert_eq!(id, 1);
    assert_eq!(url, "https://example.com");
    assert_eq!(t.get_active_tab().unwrap().url, "https://example.com");
    t.set_home_page("home.example");
    let (_, home) = t.go_home().unwrap();
    assert_eq!(home, "https://home.example");
}

#[test]
fn resolve_url_cases() {
    assert_eq!(resolve_url("http://a.b"), "http://a.b");
    assert_eq!(resolve_url("https://a.b/c d"), "https://a.b/c d");
    assert_eq!(resolve_url("rust-lang.org"), "https://rust-lang.org");
    assert_eq!(resolve_url("hello world"), "https://www.google.com/search?q=hello%20world");
    assert_eq!(resolve_url("a.b c"), "https://www.google.com/search?q=a.b%20c");
    assert_eq!(resolve_url("café"), "https://www.google.com/search?q=caf%C3%A9");
    assert_eq!(resolve_url("x~_-"), "https://www.google.com/search?q=x~_-");
    let once = resolve_url("what is rust");
    assert_eq!(resolve_url(&once), once);
}

#[test]
fn layout_of_active_tab() {
    let mut t = TabManager::new(None);
    assert_eq!(t.resize_active_tab_with_size(PixelSize { width: 800, height: 600 }), None);
    t.create_tab(None);
    let b = t.resize_active_tab_with_size(PixelSize { width: 800, height: 600 });
    assert_eq!(b, Some(TabBounds { tab_id: 1, x: 0, y: 114, width: 800, height: 486 }));
    assert_eq!(t.set_tab_offset(40), TabOffsetAction::Relayout);
    assert_eq!(t.content_top(), 154);
    assert_eq!(t.content_size(PixelSize { width: 10, height: 100 }), PixelSize { width: 10, height: 0 });
    assert_eq!(t.set_tab_offset(9999), TabOffsetAction::HideActive);
    assert_eq!(t.resize_active_tab_with_size(PixelSize { width: 1, height: 1 }), None);
    assert_eq!(t.get_last_window_size(), Some(PixelSize { width: 1, height: 1 }));
    assert!(t.is_tab_hidden());
    assert_eq!(t.get_extra_offset(), 40);
    t.set_chrome_height(100);
    t.set_tab_offset(0);
    assert_eq!(t.content_top(), 100);
}

#[test]
fn page_helpers() {
    assert_eq!(tab_label(17), "tab-17");
    assert!(is_ad_redirect("https://www.googleadservices.com/pagead/aclk?x"));
    assert!(is_ad_redirect("https://ad.doubleclick.net/ddm"));
    assert!(!is_ad_redirect("https://doubleclick.net"));
    assert!(is_youtube_page("https://www.youtube.com/shorts/x"));
    assert!(!is_youtube_page("https://example.com"));
    assert_eq!(
        find_script("it's", true),
        "window.find('it\\\\'s', false, false, true, false, true, false)"
    );
    assert_eq!(
        find_script("a\\b", false),
        "window.find('a\\\\b', false, true, true, false, true, false)"
    );
    assert_eq!(language_label("ko"), "한국어");
    assert_eq!(language_label("de"), "Deutsch");
    assert_eq!(language_label("pt"), "pt");
    assert!(should_record_visit("https://a", ""));
    assert!(!should_record_visit("https://a", "https://a"));
    assert!(!should_record_visit("about:blank", ""));
    assert!(!should_record_visit("", "x"));
    assert!(focuses_main_view("focus-url"));
    assert!(focuses_main_view("find"));
    assert!(!focuses_main_view("history"));
}

#[test]
fn switching_places_only_the_active_tab_on_screen() {
    let mut t = TabManager::new(None);
    t.set_chrome_height(80);
    t.create_tab(None);
    t.create_tab(None);
    t.switch_tab(1);
    assert_eq!(
        t.tab_placements(),
        vec![
            TabPlacement { tab_id: 1, x: 0, y: 80 },
            TabPlacement { tab_id: 2, x: -10000, y: -10000 },
        ]
    );
}

#[test]
fn new_tab_pages_fall_back_to_youtube() {
    assert_eq!(webview_start_url("https://a.example/x"), "https://a.example/x");
    assert_eq!(webview_start_url("not a url"), "https://www.youtube.com");
}
