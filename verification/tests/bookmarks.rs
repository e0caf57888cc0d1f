use sumplayer::bookmark::{Bookmark, BookmarkData, BookmarkManager};

fn bm(id: &str, url: &str, folder: &str) -> Bookmark {
    Bookmark {
        id: id.to_string(),
        url: url.to_string(),
        title: url.to_string(),
        favicon: String::new(),
        folder_id: folder.to_string(),
        created_at: 0,
    }
}

fn ids(m: &BookmarkManager) -> Vec<String> {
    m.get_all_bookmarks().iter().map(|b| b.id.clone()).collect()
}

#[test]
fn first_run_seeds_google_and_youtube() {
    let m = BookmarkManager::new(true, None);
    let all = m.get_all_bookmarks();
    assert_eq!(all.len(), 2);
    assert_eq!(all[0].id, "1");
    assert_eq!(all[0].url, "https://www.google.com");
    assert_eq!(all[0].title, "Google");
    assert_eq!(all[1].id, "2");
    assert_eq!(all[1].url, "https://www.youtube.com");
    assert_eq!(all[1].title, "YouTube");
    assert_eq!(all[1].folder_id, "");
    assert_eq!(m.snapshot().next_id, 3);
}

#[test]
fn later_runs_are_not_seeded() {
    let m = BookmarkManager::new(false, None);
    assert!(m.get_all_bookmarks().is_empty());
    assert_eq!(m.snapshot().next_id, 1);
}

#[test]
fn stored_bookmarks_are_kept_on_first_run() {
    let data = BookmarkData { bookmarks: vec![bm("7", "https://a.example", "")], folders: vec![], next_id: 8 };
    let m = BookmarkManager::new(true, Some(data));
    assert_eq!(ids(&m), vec!["7"]);
}

#[test]
fn add_uses_next_id_and_url_as_default_title() {
    let mut m = BookmarkManager::new(false, None);
    let b = m.add_bookmark_at("https://rust-lang.org", "", Some("f1"), Some("icon.png"), 42);
    assert_eq!(b.id, "1");
    assert_eq!(b.title, "https://rust-lang.org");
    assert_eq!(b.folder_id, "f1");
    assert_eq!(b.favicon, "icon.png");
    assert_eq!(b.created_at, 42);
    let c = m.add_bookmark("https://docs.rs", "Docs", None, None);
    assert_eq!(c.id, "2");
    assert_eq!(c.title, "Docs");
    assert_eq!(c.folder_id, "");
    assert_eq!(ids(&m), vec!["1", "2"]);
}

#[test]
fn ids_are_decimal_past_nine() {
    let data = BookmarkData { bookmarks: vec![], folders: vec![], next_id: 1234567890 };
    let mut m = BookmarkManager::new(false, Some(data));
    let b = m.add_bookmark_at("u", "t", None, None, 0);
    assert_eq!(b.id, "1234567890");
}

#[test]
fn remove_drops_every_bookmark_with_the_id() {
    let data = BookmarkData {
        bookmarks: vec![bm("1", "a", ""), bm("2", "b", ""), bm("1", "c", "")],
        folders: vec![],
        next_id: 3,
    };
    let mut m = BookmarkManager::new(false, Some(data));
    m.remove_bookmark("1");
    assert_eq!(ids(&m), vec!["2"]);
    m.remove_bookmark("9");
    assert_eq!(ids(&m), vec!["2"]);
}

#[test]
fn remove_undoes_add() {
    let mut m = BookmarkManager::new(true, None);
    let before = ids(&m);
    let b = m.add_bookmark("https://x.example", "X", None, None);
    m.remove_bookmark(&b.id);
    assert_eq!(ids(&m), before);
}

#[test]
fn update_changes_only_given_fields() {
    let mut m = BookmarkManager::new(true, None);
    m.update_bookmark("2", Some("Video"), None, Some("music"));
    let all = m.get_all_bookmarks();
    assert_eq!(all[1].title, "Video");
    assert_eq!(all[1].url, "https://www.youtube.com");
    assert_eq!(all[1].folder_id, "music");
    assert_eq!(all[0].title, "Google");
    m.update_bookmark("99", Some("none"), Some("none"), None);
    assert_eq!(m.get_all_bookmarks()[0].title, "Google");
}

#[test]
fn is_bookmarked_finds_first_by_url() {
    let data = BookmarkData {
        bookmarks: vec![bm("1", "a", ""), bm("2", "b", ""), bm("3", "b", "")],
        folders: vec![],
        next_id: 4,
    };
    let m = BookmarkManager::new(false, Some(data));
    assert_eq!(m.is_bookmarked("b").map(|b| b.id.clone()), Some("2".to_string()));
    assert!(m.is_bookmarked("z").is_none());
}

#[test]
fn get_bookmarks_filters_by_folder() {
    let data = BookmarkData {
        bookmarks: vec![bm("1", "a", "x"), bm("2", "b", ""), bm("3", "c", "x")],
        folders: vec![],
        next_id: 4,
    };
    let m = BookmarkManager::new(false, Some(data));
    let in_x: Vec<&str> = m.get_bookmarks("x").iter().map(|b| b.id.as_str()).collect();
    assert_eq!(in_x, vec!["1", "3"]);
    let top: Vec<&str> = m.get_bookmarks("").iter().map(|b| b.id.as_str()).collect();
    assert_eq!(top, vec!["2"]);
    assert!(m.get_all_folders().is_empty());
}

#[test]
fn move_puts_before_target_or_at_end() {
    let data = BookmarkData {
        bookmarks: vec![bm("1", "a", ""), bm("2", "b", ""), bm("3", "c", ""), bm("4", "d", "")],
        folders: vec![],
        next_id: 5,
    };
    let mut m = BookmarkManager::new(false, Some(data));
    m.move_bookmark("4", Some("2"));
    assert_eq!(ids(&m), vec!["1", "4", "2", "3"]);
    m.move_bookmark("1", None);
    assert_eq!(ids(&m), vec!["4", "2", "3", "1"]);
    m.move_bookmark("2", Some("nope"));
    assert_eq!(ids(&m), vec!["4", "3", "1", "2"]);
    m.move_bookmark("nope", Some("4"));
    assert_eq!(ids(&m), vec!["4", "3", "1", "2"]);
    m.move_bookmark("3", Some("3"));
    assert_eq!(ids(&m), vec!["4", "1", "2", "3"]);
}

#[test]
fn snapshot_copies_state() {
    let mut m = BookmarkManager::new(true, None);
    m.add_bookmark_at("u", "t", None, None, 5);
    let d = m.snapshot();
    assert_eq!(d.bookmarks.len(), 3);
    assert_eq!(d.next_id, 4);
    assert_eq!(d.bookmarks[2].created_at, 5);
}

#[test]
fn edits_leave_folders_alone() {
    let mut m = BookmarkManager::new(false, None);
    let before = m.get_all_folders().len();
    let b = m.add_bookmark_at("https://a.example", "A", Some("f1"), None, 5);
    m.update_bookmark(&b.id, Some("B"), None, Some("f2"));
    m.move_bookmark(&b.id, None);
    m.remove_bookmark(&b.id);
    assert_eq!(m.get_all_folders().len(), before);
}

#[test]
fn has_bookmark_finds_ids() {
    let mut m = BookmarkManager::new(false, None);
    let b = m.add_bookmark_at("https://a.example", "A", None, None, 5);
    assert!(m.has_bookmark(&b.id));
    assert!(!m.has_bookmark("999"));
    m.remove_bookmark(&b.id);
    assert!(!m.has_bookmark(&b.id));
}
