//! Downloads: the ones in progress and the history of finished ones.
use vstd::prelude::*;
use crate::clock;
use crate::seqs::{first_index, lemma_first_index_absent, lemma_first_index_found};
use crate::text::{decimal, decimal_string, ends_with, has_suffix, owned, text_eq};

verus! {

/// One download.
#[derive(Debug, Clone)]
pub struct DownloadItem {
    pub id: String,
    pub filename: String,
    pub url: String,
    pub save_path: String,
    pub total_bytes: u64,
    pub received_bytes: u64,
    /// "progressing", "completed", "cancelled" or "interrupted".
    pub state: String,
    pub started_at: u64,
    pub completed_at: Option<u64>,
    pub progress: u32,
}

/// The mathematical value of a download.
pub ghost struct DownloadView {
    pub id: Seq<char>,
    pub filename: Seq<char>,
    pub url: Seq<char>,
    pub save_path: Seq<char>,
    pub total_bytes: u64,
    pub received_bytes: u64,
    pub state: Seq<char>,
    pub started_at: u64,
    pub completed_at: Option<u64>,
    pub progress: u32,
}

impl View for DownloadItem {
    type V = DownloadView;

    open spec fn view(&self) -> DownloadView {
        DownloadView {
            id: self.id@,
            filename: self.filename@,
            url: self.url@,
            save_path: self.save_path@,
            total_bytes: self.total_bytes,
            received_bytes: self.received_bytes,
            state: self.state@,
            started_at: self.started_at,
            completed_at: self.completed_at,
            progress: self.progress,
        }
    }
}

impl DownloadItem {
    /// A copy with the same value.
    pub fn duplicate(&self) -> (r: DownloadItem)
        ensures
            r@ == self@,
    {
        DownloadItem {
            id: self.id.clone(),
            filename: self.filename.clone(),
            url: self.url.clone(),
            save_path: self.save_path.clone(),
            total_bytes: self.total_bytes,
            received_bytes: self.received_bytes,
            state: self.state.clone(),
            started_at: self.started_at,
            completed_at: self.completed_at,
            progress: self.progress,
        }
    }
}

/// What the download store persists.
#[derive(Debug)]
pub struct DownloadData {
    pub history: Vec<DownloadItem>,
    pub next_id: u64,
}

/// Downloads in progress, finished downloads oldest first, and the next id to hand out.
pub struct DownloadManager {
    active_downloads: Vec<DownloadItem>,
    history: Vec<DownloadItem>,
    next_id: u64,
}

/// The mathematical value of the download store.
pub ghost struct DownloadState {
    pub active: Seq<DownloadView>,
    pub history: Seq<DownloadView>,
    pub next_id: u64,
}

pub open spec fn download_views(s: Seq<DownloadItem>) -> Seq<DownloadView> {
    s.map_values(|d: DownloadItem| d@)
}

pub open spec fn download_ref_views(s: Seq<&DownloadItem>) -> Seq<DownloadView> {
    s.map_values(|d: &DownloadItem| d@)
}

impl View for DownloadManager {
    type V = DownloadState;

    closed spec fn view(&self) -> DownloadState {
        DownloadState {
            active: download_views(self.active_downloads@),
            history: download_views(self.history@),
            next_id: self.next_id,
        }
    }
}

impl View for DownloadData {
    type V = (Seq<DownloadView>, u64);

    open spec fn view(&self) -> (Seq<DownloadView>, u64) {
        (download_views(self.history@), self.next_id)
    }
}

/// The history record of a file that finished downloading at `now`.
pub open spec fn completed_download(
    id: u64,
    filename: Seq<char>,
    save_path: Seq<char>,
    size: u64,
    now: u64,
) -> DownloadView {
    DownloadView {
        id: decimal(id as nat),
        filename: filename,
        url: Seq::empty(),
        save_path: save_path,
        total_bytes: size,
        received_bytes: size,
        state: "completed"@,
        started_at: now,
        completed_at: Some(now),
        progress: 100,
    }
}

/// The state after `cancel_download`: the first active download with the id is marked
/// cancelled.
pub open spec fn cancelled(s: Seq<DownloadView>, id: Seq<char>) -> Seq<DownloadView> {
    match first_index(s.map_values(|d: DownloadView| d.id), id) {
        Some(i) => s.update(i, DownloadView { state: "cancelled"@, ..s[i] }),
        None => s,
    }
}

/// One change to the download store, in terms of values: what each of
/// `add_completed_download`, `cancel_download` and `clear_history` does.
pub ghost enum DownloadEdit {
    /// Record the file as finished at `now`, and advance the next id.
    Complete { filename: Seq<char>, save_path: Seq<char>, size: u64, now: u64 },
    Cancel { id: Seq<char> },
    ClearHistory,
}

/// The store after one edit.
pub open spec fn apply_download_edit(s: DownloadState, e: DownloadEdit) -> DownloadState {
    match e {
        DownloadEdit::Complete { filename, save_path, size, now } => DownloadState {
            history: s.history.push(completed_download(s.next_id, filename, save_path, size, now)),
            next_id: (s.next_id + 1) as u64,
            ..s
        },
        DownloadEdit::Cancel { id } => DownloadState { active: cancelled(s.active, id), ..s },
        DownloadEdit::ClearHistory => DownloadState { history: Seq::empty(), ..s },
    }
}

/// The store after a series of edits, in order.
pub open spec fn apply_download_edits(s: DownloadState, edits: Seq<DownloadEdit>) -> DownloadState
    decreases edits.len(),
{
    if edits.len() == 0 {
        s
    } else {
        apply_download_edit(apply_download_edits(s, edits.drop_last()), edits.last())
    }
}

/// The active downloads whose state is "progressing".
pub open spec fn progressing(s: Seq<DownloadView>) -> Seq<DownloadView> {
    s.filter(|d: DownloadView| d.state == "progressing"@)
}

/// The save paths of a list of downloads.
pub open spec fn save_paths(s: Seq<DownloadView>) -> Seq<Seq<char>> {
    s.map_values(|d: DownloadView| d.save_path)
}

impl DownloadManager {
    /// A store holding the finished downloads of `stored` (what the download file held, if
    /// it could be read and parsed), with nothing in progress.
    pub fn new(stored: Option<DownloadData>) -> (r: DownloadManager)
        ensures
            r@.active.len() == 0,
            r@.history == (match stored {
                Some(d) => d@.0,
                None => Seq::empty(),
            }),
            r@.next_id == (match stored {
                Some(d) => d@.1,
                None => 1,
            }),
    {
        let r = match stored {
            Some(d) => DownloadManager {
                active_downloads: Vec::new(),
                history: d.history,
                next_id: d.next_id,
            },
            None => {
                let m = DownloadManager {
                    active_downloads: Vec::new(),
                    history: Vec::new(),
                    next_id: 1,
                };
                assert(download_views(m.history@) =~= Seq::empty());
                m
            },
        };
        assert(download_views(r.active_downloads@).len() == 0);
        r
    }

    /// The active downloads whose state is "progressing", in order.
    pub fn get_active_downloads(&self) -> (r: Vec<&DownloadItem>)
        ensures
            download_ref_views(r@) == self@.active.filter(
                |d: DownloadView| d.state == "progressing"@,
            ),
    {
        let ghost pred = |d: DownloadView| d.state == "progressing"@;
        let ghost all = download_views(self.active_downloads@);
        let mut out: Vec<&DownloadItem> = Vec::new();
        let mut i: usize = 0;
        while i < self.active_downloads.len()
            invariant
                i <= self.active_downloads.len(),
                pred == (|d: DownloadView| d.state == "progressing"@),
                all == download_views(self.active_downloads@),
                download_ref_views(out@) == all.take(i as int).filter(pred),
            decreases self.active_downloads.len() - i,
        {
            let ghost before = download_ref_views(out@);
            assert(all[i as int] == self.active_downloads@[i as int]@);
            if text_eq(&self.active_downloads[i].state, "progressing") {
                out.push(&self.active_downloads[i]);
                assert(pred(all[i as int]));
                assert(download_ref_views(out@) =~= before.push(all[i as int]));
            } else {
                assert(!pred(all[i as int]));
            }
            proof {
                assert(all.take(i + 1) =~= all.take(i as int).push(all[i as int]));
                all.take(i as int).lemma_filter_push(all[i as int], pred);
            }
            i = i + 1;
        }
        proof {
            assert(all.take(i as int) =~= all);
        }
        out
    }

    /// Finished downloads, newest first.
    pub fn get_history(&self) -> (r: Vec<&DownloadItem>)
        ensures
            download_ref_views(r@) == self@.history.reverse(),
    {
        let ghost rev = download_views(self.history@).reverse();
        let n = self.history.len();
        let mut out: Vec<&DownloadItem> = Vec::new();
        let mut k: usize = 0;
        while k < n
            invariant
                n == self.history.len(),
                rev == download_views(self.history@).reverse(),
                k <= n,
                download_ref_views(out@) == rev.take(k as int),
            decreases n - k,
        {
            let ghost before = download_ref_views(out@);
            out.push(&self.history[n - 1 - k]);
            assert(download_views(self.history@).len() == n);
            assert(rev.len() == n);
            assert(rev[k as int] == download_views(self.history@)[n - 1 - k]);
            assert(rev[k as int] == self.history@[n - 1 - k]@);
            assert(download_ref_views(out@) =~= before.push(rev[k as int]));
            assert(rev.take(k + 1) =~= rev.take(k as int).push(rev[k as int]));
            k = k + 1;
        }
        proof {
            assert(rev.take(n as int) =~= rev);
        }
        out
    }

    /// Marks the first active download with the id as cancelled.
    pub fn cancel_download(&mut self, id: &str)
        ensures
            final(self)@ == (DownloadState {
                active: cancelled(old(self)@.active, id@),
                ..old(self)@
            }),
            final(self)@ == apply_download_edit(old(self)@, DownloadEdit::Cancel { id: id@ }),
    {
        let ghost ids = download_views(self.active_downloads@).map_values(
            |d: DownloadView| d.id,
        );
        let mut i: usize = 0;
        while i < self.active_downloads.len()
            invariant
                i <= self.active_downloads.len(),
                self.active_downloads == old(self).active_downloads,
                self.history == old(self).history,
                self.next_id == old(self).next_id,
                ids == download_views(self.active_downloads@).map_values(|d: DownloadView| d.id),
                forall|j: int| 0 <= j < i ==> ids[j] != id@,
            decreases self.active_downloads.len() - i,
        {
            if text_eq(&self.active_downloads[i].id, id) {
                proof {
                    assert(ids[i as int] == id@);
                    lemma_first_index_found(ids, id@, i as int);
                }
                let mut d = self.active_downloads[i].duplicate();
                d.state = owned("cancelled");
                self.active_downloads.set(i, d);
                proof {
                    assert(download_views(self.active_downloads@) =~= cancelled(
                        old(self)@.active,
                        id@,
                    ));
                }
                return ;
            }
            i = i + 1;
        }
        proof {
            lemma_first_index_absent(ids, id@);
        }
    }

    /// Forgets every finished download.
    pub fn clear_history(&mut self)
        ensures
            final(self)@ == (DownloadState { history: Seq::empty(), ..old(self)@ }),
            final(self)@ == apply_download_edit(old(self)@, DownloadEdit::ClearHistory),
    {
        self.history.clear();
        proof {
            assert(download_views(self.history@) =~= Seq::empty());
        }
    }

    /// Records a file of `size` bytes, saved at `save_path`, as a download that completed at
    /// `now`.
    pub fn add_completed_download_at(&mut self, filename: &str, save_path: &str, size: u64, now: u64)
        requires
            old(self)@.next_id < u64::MAX,
        ensures
            final(self)@ == (DownloadState {
                history: old(self)@.history.push(
                    completed_download(old(self)@.next_id, filename@, save_path@, size, now),
                ),
                next_id: (old(self)@.next_id + 1) as u64,
                ..old(self)@
            }),
            final(self)@ == apply_download_edit(
                old(self)@,
                DownloadEdit::Complete { filename: filename@, save_path: save_path@, size, now },
            ),
    {
        let id = decimal_string(self.next_id);
        self.next_id = self.next_id + 1;
        let item = DownloadItem {
            id,
            filename: owned(filename),
            url: String::new(),
            save_path: owned(save_path),
            total_bytes: size,
            received_bytes: size,
            state: owned("completed"),
            started_at: now,
            completed_at: Some(now),
            progress: 100,
        };
        let ghost v = item@;
        self.history.push(item);
        proof {
            assert(download_views(self.history@) =~= old(self)@.history.push(v));
        }
    }

    /// Records a completed download stamped with the system clock (see
    /// `add_completed_download_at`; the stamp is whatever the clock reads).
    pub fn add_completed_download(&mut self, filename: &str, save_path: &str, size: u64)
        requires
            old(self)@.next_id < u64::MAX,
        ensures
            final(self)@.active == old(self)@.active,
            final(self)@.next_id == old(self)@.next_id + 1,
            final(self)@.history == old(self)@.history.push(
                completed_download(
                    old(self)@.next_id,
                    filename@,
                    save_path@,
                    size,
                    final(self)@.history.last().started_at,
                ),
            ),
            final(self)@ == apply_download_edit(
                old(self)@,
                DownloadEdit::Complete {
                    filename: filename@,
                    save_path: save_path@,
                    size,
                    now: final(self)@.history.last().started_at,
                },
            ),
    {
        let now = clock::system_now_millis();
        self.add_completed_download_at(filename, save_path, size, now);
    }

    /// The save paths of the finished downloads, each once.
    pub fn get_tracked_files(&self) -> (r: Vec<String>)
        ensures
            forall|i: int, j: int| 0 <= i < j < r.len() ==> r@[i]@ != r@[j]@,
            forall|p: Seq<char>|
                save_paths(self@.history).contains(p) <==> exists|i: int|
                    0 <= i < r.len() && #[trigger] r@[i]@ == p,
    {
        let ghost paths = save_paths(download_views(self.history@));
        let mut out: Vec<String> = Vec::new();
        let mut k: usize = 0;
        while k < self.history.len()
            invariant
                k <= self.history.len(),
                paths == save_paths(download_views(self.history@)),
                forall|i: int, j: int| 0 <= i < j < out.len() ==> out@[i]@ != out@[j]@,
                forall|p: Seq<char>|
                    paths.take(k as int).contains(p) <==> exists|i: int|
                        0 <= i < out.len() && #[trigger] out@[i]@ == p,
            decreases self.history.len() - k,
        {
            let p = &self.history[k].save_path;
            assert(paths[k as int] == p@);
            let mut seen = false;
            let mut j: usize = 0;
            while j < out.len()
                invariant
                    j <= out.len(),
                    seen ==> exists|i: int| 0 <= i < out.len() && #[trigger] out@[i]@ == p@,
                    !seen ==> forall|i: int| 0 <= i < j ==> out@[i]@ != p@,
                decreases out.len() - j,
            {
                if text_eq(&out[j], p) {
                    seen = true;
                }
                j = j + 1;
            }
            let ghost before = out@;
            if !seen {
                out.push(p.clone());
            }
            proof {
                assert(paths.take(k + 1) =~= paths.take(k as int).push(p@));
                assert forall|q: Seq<char>|
                    #[trigger] paths.take(k + 1).contains(q) <==> exists|i: int|
                        0 <= i < out.len() && #[trigger] out@[i]@ == q by {
                    if paths.take(k + 1).contains(q) {
                        let x = choose|x: int| 0 <= x < k + 1 && #[trigger] paths.take(k + 1)[x] == q;
                        if x < k {
                            assert(paths.take(k as int)[x] == q);
                            assert(paths.take(k as int).contains(q));
                            let i = choose|i: int| 0 <= i < before.len() && #[trigger] before[i]@ == q;
                            assert(out@[i] == before[i]);
                        } else if !seen {
                            assert(out@[before.len() as int]@ == q);
                        }
                    }
                    if exists|i: int| 0 <= i < out.len() && #[trigger] out@[i]@ == q {
                        let i = choose|i: int| 0 <= i < out.len() && #[trigger] out@[i]@ == q;
                        if i < before.len() {
                            assert(before[i]@ == q);
                            assert(exists|i: int| 0 <= i < before.len() && #[trigger] before[i]@ == q);
                            assert(paths.take(k as int).contains(q));
                            let x = choose|x: int| 0 <= x < k && #[trigger] paths.take(k as int)[x] == q;
                            assert(paths.take(k + 1)[x] == q);
                        } else {
                            assert(paths.take(k + 1)[k as int] == q);
                        }
                    }
                }
            }
            k = k + 1;
        }
        proof {
            assert(paths.take(k as int) =~= paths);
        }
        out
    }

    /// The id the next download gets.
    pub fn next_id(&self) -> (r: u64)
        ensures
            r == self@.next_id,
    {
        self.next_id
    }

    /// A copy of everything the store persists.
    pub fn snapshot(&self) -> (d: DownloadData)
        ensures
            d@ == (self@.history, self@.next_id),
    {
        let mut history: Vec<DownloadItem> = Vec::new();
        let mut i: usize = 0;
        while i < self.history.len()
            invariant
                i <= self.history.len(),
                download_views(history@) == download_views(self.history@).take(i as int),
            decreases self.history.len() - i,
        {
            let ghost before = download_views(history@);
            history.push(self.history[i].duplicate());
            assert(download_views(history@) =~= before.push(self.history@[i as int]@));
            assert(download_views(self.history@).take(i + 1) =~= download_views(
                self.history@,
            ).take(i as int).push(self.history@[i as int]@));
            i = i + 1;
        }
        proof {
            assert(download_views(history@) =~= download_views(self.history@));
        }
        DownloadData { history, next_id: self.next_id }
    }
}

/// Files that are still being written by a browser or downloader.
pub open spec fn is_partial_file_name(name: Seq<char>) -> bool {
    has_suffix(name, ".crdownload"@) || has_suffix(name, ".tmp"@) || has_suffix(name, ".part"@)
}

/// Whether a new file in the downloads folder is still being written, and so not recorded.
pub fn is_partial_download(file_name: &str) -> (r: bool)
    ensures
        r == is_partial_file_name(file_name@),
{
    ends_with(file_name, ".crdownload") || ends_with(file_name, ".tmp") || ends_with(
        file_name,
        ".part",
    )
}

/// No series of edits adds an active download: the active list keeps its length, so a
/// store that starts with none (as every new store does) never reports one in progress.
pub proof fn lemma_edits_add_no_active_download(s: DownloadState, edits: Seq<DownloadEdit>)
    ensures
        apply_download_edits(s, edits).active.len() == s.active.len(),
        s.active.len() == 0 ==> progressing(apply_download_edits(s, edits).active).len() == 0,
    decreases edits.len(),
{
    if edits.len() > 0 {
        lemma_edits_add_no_active_download(s, edits.drop_last());
    }
    let a = apply_download_edits(s, edits).active;
    if s.active.len() == 0 {
        a.lemma_filter_len(|d: DownloadView| d.state == "progressing"@);
    }
}

/// The texts of a list of strings.
pub open spec fn texts(s: Seq<String>) -> Seq<Seq<char>> {
    s.map_values(|t: String| t@)
}

/// One step of watching the downloads folder, for an entry at `path` named `file_name`:
/// a path not seen before is remembered, and it is recorded as a finished download when it
/// is a regular file whose name is not that of a file still being written.
pub fn note_folder_entry(known: &mut Vec<String>, path: &str, is_file: bool, file_name: &str) -> (record: bool)
    ensures
        texts(final(known)@) == (if texts(old(known)@).contains(path@) {
            texts(old(known)@)
        } else {
            texts(old(known)@).push(path@)
        }),
        record == (!texts(old(known)@).contains(path@) && is_file && !is_partial_file_name(
            file_name@,
        )),
{
    let mut i: usize = 0;
    while i < known.len()
        invariant
            i <= known.len(),
            known@ == old(known)@,
            forall|j: int| 0 <= j < i ==> known@[j]@ != path@,
        decreases known.len() - i,
    {
        if text_eq(known[i].as_str(), path) {
            proof {
                assert(texts(known@)[i as int] == path@);
            }
            return false;
        }
        i = i + 1;
    }
    proof {
        assert forall|j: int| 0 <= j < texts(known@).len() implies texts(known@)[j] != path@ by {
            assert(texts(known@)[j] == known@[j]@);
        }
    }
    let ghost before = known@;
    known.push(owned(path));
    proof {
        assert(texts(known@) =~= texts(before).push(path@));
    }
    is_file && !is_partial_download(file_name)
}

} // verus!
