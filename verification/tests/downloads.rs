use sumplayer::download::{is_partial_download, note_folder_entry, DownloadData, DownloadItem, DownloadManager};

fn item(id: &str, path: &str) -> DownloadItem {
    DownloadItem {
        id: id.into(),
        filename: "f".into(),
        url: String::new(),
        save_path: path.into(),
        total_bytes: 1,
        received_bytes: 1,
        state: "completed".into(),
        started_at: 0,
        completed_at: Some(0),
        progress: 100,
    }
}

#[test]
fn completed_download_record() {
    let mut d = DownloadManager::new(None);
    d.add_completed_download_at("a.zip", "/dl/a.zip", 1234, 77);
    let h = d.get_history();
    assert_eq!(h.len(), 1);
    assert_eq!(h[0].id, "1");
    assert_eq!(h[0].filename, "a.zip");
    assert_eq!(h[0].save_path, "/dl/a.zip");
    assert_eq!(h[0].url, "");
    assert_eq!(h[0].total_bytes, 1234);
    assert_eq!(h[0].received_bytes, 1234);
    assert_eq!(h[0].state, "completed");
    assert_eq!(h[0].started_at, 77);
    assert_eq!(h[0].completed_at, Some(77));
    assert_eq!(h[0].progress, 100);
    d.add_completed_download("b.zip", "/dl/b.zip", 1);
    let h = d.get_history();
    assert_eq!(h[0].id, "2");
    assert_eq!(h[1].id, "1");
    assert_eq!(h[0].completed_at, Some(h[0].started_at));
}

#[test]
fn nothing_is_active_and_cancel_of_unknown_is_harmless() {
    let mut d = DownloadManager::new(None);
    assert!(d.get_active_downloads().is_empty());
    d.cancel_download("1");
    assert!(d.get_active_downloads().is_empty());
}

#[test]
fn clear_history_empties_it() {
    let data = DownloadData { history: vec![item("1", "/a"), item("2", "/b")], next_id: 3 };
    let mut d = DownloadManager::new(Some(data));
    assert_eq!(d.get_history().len(), 2);
    d.clear_history();
    assert!(d.get_history().is_empty());
    assert_eq!(d.snapshot().next_id, 3);
}

#[test]
fn tracked_files_are_distinct_paths() {
    let data = DownloadData { history: vec![item("1", "/a"), item("2", "/b"), item("3", "/a")], next_id: 4 };
    let d = DownloadManager::new(Some(data));
    let mut files = d.get_tracked_files();
    files.sort();
    assert_eq!(files, vec!["/a".to_string(), "/b".to_string()]);
}

#[test]
fn partial_downloads_are_recognised() {
    assert!(is_partial_download("movie.mp4.crdownload"));
    assert!(is_partial_download("x.tmp"));
    assert!(is_partial_download("y.part"));
    assert!(!is_partial_download("report.pdf"));
    assert!(!is_partial_download("part"));
}

#[test]
fn no_call_starts_an_active_download() {
    let mut d = DownloadManager::new(None);
    d.add_completed_download_at("a.zip", "/dl/a.zip", 10, 1);
    d.cancel_download("1");
    d.clear_history();
    d.add_completed_download_at("b.zip", "/dl/b.zip", 20, 2);
    assert!(d.get_active_downloads().is_empty());
}

#[test]
fn folder_entries_are_recorded_once() {
    let mut known = Vec::new();
    assert!(!note_folder_entry(&mut known, "/dl/old.zip", false, ""));
    assert!(note_folder_entry(&mut known, "/dl/a.zip", true, "a.zip"));
    assert!(!note_folder_entry(&mut known, "/dl/a.zip", true, "a.zip"));
    assert!(!note_folder_entry(&mut known, "/dl/b.part", true, "b.part"));
    assert!(!note_folder_entry(&mut known, "/dl/dir", false, "dir"));
    assert_eq!(known.len(), 4);
}
