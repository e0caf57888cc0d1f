use sumplayer::history::{HistoryData, HistoryEntry, HistoryManager, MAX_HISTORY_ENTRIES};

fn urls(v: &[&HistoryEntry]) -> Vec<String> {
    v.iter().map(|e| e.url.clone()).collect()
}

#[test]
fn untracked_urls_are_not_recorded() {
    let mut h = HistoryManager::new(None);
    assert!(!h.add_entry("", "t"));
    assert!(!h.add_entry("about:blank", "t"));
    assert!(!h.add_entry("file:///tmp/x.html", "t"));
    assert!(!h.add_entry("devtools://devtools/bundled", "t"));
    assert!(h.get_entries(None, 100, 0).is_empty());
    assert!(!h.flush_save());
}

#[test]
fn entries_are_listed_newest_first_with_ids() {
    let mut h = HistoryManager::new(None);
    h.add_entry_at("https://a.example", "A", 1);
    h.add_entry_at("https://b.example", "", 2);
    let list = h.get_entries(None, 10, 0);
    assert_eq!(urls(&list), vec!["https://b.example", "https://a.example"]);
    assert_eq!(list[0].id, "2");
    assert_eq!(list[0].title, "https://b.example");
    assert_eq!(list[1].visited_at, 1);
    assert!(h.flush_save());
}

#[test]
fn query_is_case_insensitive_on_url_and_title() {
    let mut h = HistoryManager::new(None);
    h.add_entry_at("https://rust-lang.org", "Rust Language", 1);
    h.add_entry_at("https://example.com", "Example", 2);
    h.add_entry_at("https://RUST.example", "x", 3);
    let list = h.get_entries(Some("RuSt"), 10, 0);
    assert_eq!(urls(&list), vec!["https://RUST.example", "https://rust-lang.org"]);
    let by_title = h.get_entries(Some("LANGUAGE"), 10, 0);
    assert_eq!(urls(&by_title), vec!["https://rust-lang.org"]);
}

#[test]
fn offset_and_limit_window() {
    let mut h = HistoryManager::new(None);
    for i in 0..5u64 {
        h.add_entry_at(&format!("https://site{}.example", i), "s", i);
    }
    let page = h.get_entries(None, 2, 1);
    assert_eq!(urls(&page), vec!["https://site3.example", "https://site2.example"]);
    assert!(h.get_entries(None, 2, 10).is_empty());
    assert_eq!(h.get_entries(None, usize::MAX, 4).len(), 1);
    assert!(h.get_entries(None, 0, 0).is_empty());
}

#[test]
fn save_is_asked_every_fifty_entries() {
    let mut h = HistoryManager::new(None);
    let mut asked = Vec::new();
    for i in 0..100u64 {
        if h.add_entry_at(&format!("https://p{}.example", i), "", i) {
            asked.push(i);
        }
    }
    assert_eq!(asked, vec![49, 99]);
}

#[test]
fn save_stays_debounced_at_the_cap() {
    let mut h = HistoryManager::new(None);
    for i in 0..(MAX_HISTORY_ENTRIES as u64) {
        h.add_entry_at(&format!("https://p{}.example", i), "", i);
    }
    let mut asked = 0;
    for i in 0..50u64 {
        if h.add_entry_at(&format!("https://q{}.example", i), "", i) {
            asked += 1;
        }
    }
    assert_eq!(asked, 1);
}

#[test]
fn below_the_cap_writes_follow_the_count() {
    let mut h = HistoryManager::new(None);
    for i in 0..30u64 {
        h.add_entry_at(&format!("https://p{}.example", i), "", i);
    }
    h.delete_entry("1");
    let mut asked = Vec::new();
    for i in 0..50u64 {
        if h.add_entry_at(&format!("https://q{}.example", i), "", i) {
            asked.push(i);
        }
    }
    assert_eq!(asked, vec![20]);
}

#[test]
fn loaded_store_writes_on_its_fiftieth_visit() {
    let entries: Vec<HistoryEntry> = (1..=49u64)
        .map(|i| HistoryEntry { id: i.to_string(), url: format!("https://p{}.example", i), title: "t".to_string(), visited_at: i })
        .collect();
    let mut h = HistoryManager::new(Some(HistoryData { entries, next_id: 50 }));
    assert!(h.add_entry_at("https://new.example", "n", 100));
}

#[test]
fn history_is_capped() {
    let mut h = HistoryManager::new(None);
    for i in 0..(MAX_HISTORY_ENTRIES as u64 + 5) {
        h.add_entry_at(&format!("https://p{}.example", i), "", i);
    }
    let all = h.get_entries(None, usize::MAX, 0);
    assert_eq!(all.len(), MAX_HISTORY_ENTRIES);
    assert_eq!(all[0].url, format!("https://p{}.example", MAX_HISTORY_ENTRIES + 4));
    assert_eq!(all[all.len() - 1].url, "https://p5.example");
}

#[test]
fn search_keeps_newest_visit_per_url() {
    let mut h = HistoryManager::new(None);
    h.add_entry_at("https://a.example/rust", "one", 1);
    h.add_entry_at("https://b.example", "Rust book", 2);
    h.add_entry_at("https://a.example/rust", "two", 3);
    h.add_entry_at("https://c.example", "other", 4);
    let r = h.search("rust", 8);
    assert_eq!(urls(&r), vec!["https://a.example/rust", "https://b.example"]);
    assert_eq!(r[0].title, "two");
    assert_eq!(h.search("rust", 1).len(), 1);
    assert!(h.search("", 8).is_empty());
    assert!(h.search("rust", 0).is_empty());
}

#[test]
fn delete_and_clear() {
    let mut h = HistoryManager::new(None);
    h.add_entry_at("https://a.example", "", 1);
    h.add_entry_at("https://b.example", "", 2);
    h.delete_entry("1");
    assert_eq!(urls(&h.get_entries(None, 10, 0)), vec!["https://b.example"]);
    h.clear_all();
    assert!(h.get_entries(None, 10, 0).is_empty());
    h.add_entry_at("https://c.example", "", 3);
    assert_eq!(h.get_entries(None, 10, 0)[0].id, "1");
}

#[test]
fn stored_history_is_loaded() {
    let data = HistoryData {
        entries: vec![HistoryEntry { id: "5".into(), url: "https://s.example".into(), title: "S".into(), visited_at: 9 }],
        next_id: 6,
    };
    let mut h = HistoryManager::new(Some(data));
    h.add_entry_at("https://t.example", "T", 10);
    let snap = h.snapshot();
    assert_eq!(snap.next_id, 7);
    assert_eq!(snap.entries[1].id, "6");
    assert_eq!(snap.entries[0].url, "https://s.example");
}
