//! Bookmarks and bookmark folders: an ordered list kept in the order the user arranged it.
use vstd::prelude::*;
use crate::seqs::{keys_distinct, lemma_filter_keys_distinct, lemma_moved_keys_distinct, as_index, first_index, lemma_first_index_absent, lemma_first_index_found, lemma_moved_permutation, moved};
use crate::text::{opt_view, decimal, decimal_string, lemma_decimal_injective, owned, text_eq};
use crate::clock;

verus! {

/// A saved page.
#[derive(Debug, Clone)]
pub struct Bookmark {
    pub id: String,
    pub url: String,
    pub title: String,
    pub favicon: String,
    pub folder_id: String,
    pub created_at: u64,
}

/// The mathematical value of a bookmark.
pub ghost struct BookmarkView {
    pub id: Seq<char>,
    pub url: Seq<char>,
    pub title: Seq<char>,
    pub favicon: Seq<char>,
    pub folder_id: Seq<char>,
    pub created_at: u64,
}

impl View for Bookmark {
    type V = BookmarkView;

    open spec fn view(&self) -> BookmarkView {
        BookmarkView {
            id: self.id@,
            url: self.url@,
            title: self.title@,
            favicon: self.favicon@,
            folder_id: self.folder_id@,
            created_at: self.created_at,
        }
    }
}

impl Bookmark {
    /// A copy with the same value.
    pub fn duplicate(&self) -> (r: Bookmark)
        ensures
            r@ == self@,
    {
        Bookmark {
            id: self.id.clone(),
            url: self.url.clone(),
            title: self.title.clone(),
            favicon: self.favicon.clone(),
            folder_id: self.folder_id.clone(),
            created_at: self.created_at,
        }
    }
}

/// A folder that bookmarks can be filed under.
#[derive(Debug, Clone)]
pub struct BookmarkFolder {
    pub id: String,
    pub name: String,
    pub parent_id: String,
    pub created_at: u64,
}

/// The mathematical value of a folder.
pub ghost struct FolderView {
    pub id: Seq<char>,
    pub name: Seq<char>,
    pub parent_id: Seq<char>,
    pub created_at: u64,
}

impl View for BookmarkFolder {
    type V = FolderView;

    open spec fn view(&self) -> FolderView {
        FolderView {
            id: self.id@,
            name: self.name@,
            parent_id: self.parent_id@,
            created_at: self.created_at,
        }
    }
}

impl BookmarkFolder {
    /// A copy with the same value.
    pub fn duplicate(&self) -> (r: BookmarkFolder)
        ensures
            r@ == self@,
    {
        BookmarkFolder {
            id: self.id.clone(),
            name: self.name.clone(),
            parent_id: self.parent_id.clone(),
            created_at: self.created_at,
        }
    }
}

/// What the bookmark store persists.
#[derive(Debug)]
pub struct BookmarkData {
    pub bookmarks: Vec<Bookmark>,
    pub folders: Vec<BookmarkFolder>,
    pub next_id: u64,
}

/// The bookmark list, the folder list, and the next id to hand out.
pub struct BookmarkManager {
    bookmarks: Vec<Bookmark>,
    folders: Vec<BookmarkFolder>,
    next_id: u64,
}

/// The mathematical value of the bookmark store.
pub ghost struct BookmarkState {
    pub bookmarks: Seq<BookmarkView>,
    pub folders: Seq<FolderView>,
    pub next_id: u64,
}

pub open spec fn bookmark_views(s: Seq<Bookmark>) -> Seq<BookmarkView> {
    s.map_values(|b: Bookmark| b@)
}

pub open spec fn folder_views(s: Seq<BookmarkFolder>) -> Seq<FolderView> {
    s.map_values(|f: BookmarkFolder| f@)
}

pub open spec fn ref_views(s: Seq<&Bookmark>) -> Seq<BookmarkView> {
    s.map_values(|b: &Bookmark| b@)
}

impl View for BookmarkManager {
    type V = BookmarkState;

    closed spec fn view(&self) -> BookmarkState {
        BookmarkState {
            bookmarks: bookmark_views(self.bookmarks@),
            folders: folder_views(self.folders@),
            next_id: self.next_id,
        }
    }
}

impl View for BookmarkData {
    type V = BookmarkState;

    open spec fn view(&self) -> BookmarkState {
        BookmarkState {
            bookmarks: bookmark_views(self.bookmarks@),
            folders: folder_views(self.folders@),
            next_id: self.next_id,
        }
    }
}

/// The key bookmarks are found by: their id.
pub open spec fn by_id() -> spec_fn(BookmarkView) -> Seq<char> {
    |b: BookmarkView| b.id
}

/// The key `is_bookmarked` looks bookmarks up by: their url.
pub open spec fn by_url() -> spec_fn(BookmarkView) -> Seq<char> {
    |b: BookmarkView| b.url
}

/// The text of an optional argument, the empty text when it is absent.
pub open spec fn text_or_empty(o: Option<&str>) -> Seq<char> {
    match o {
        Some(s) => s@,
        None => Seq::empty(),
    }
}

/// The bookmark that `add_bookmark` creates: its id is the decimal notation of the next id,
/// an empty title falls back to the url.
pub open spec fn new_bookmark(
    id: u64,
    url: Seq<char>,
    title: Seq<char>,
    folder_id: Seq<char>,
    favicon: Seq<char>,
    created_at: u64,
) -> BookmarkView {
    BookmarkView {
        id: decimal(id as nat),
        url: url,
        title: if title.len() == 0 {
            url
        } else {
            title
        },
        favicon: favicon,
        folder_id: folder_id,
        created_at: created_at,
    }
}

/// `b` with each given field replaced.
pub open spec fn updated_bookmark(
    b: BookmarkView,
    title: Option<&str>,
    url: Option<&str>,
    folder_id: Option<&str>,
) -> BookmarkView {
    BookmarkView {
        title: match title {
            Some(t) => t@,
            None => b.title,
        },
        url: match url {
            Some(u) => u@,
            None => b.url,
        },
        folder_id: match folder_id {
            Some(f) => f@,
            None => b.folder_id,
        },
        ..b
    }
}

/// The state after `update_bookmark`: the first bookmark with the id is edited.
pub open spec fn update_spec(
    s: Seq<BookmarkView>,
    id: Seq<char>,
    title: Option<&str>,
    url: Option<&str>,
    folder_id: Option<&str>,
) -> Seq<BookmarkView> {
    match first_index(s.map_values(by_id()), id) {
        Some(i) => s.update(i, updated_bookmark(s[i], title, url, folder_id)),
        None => s,
    }
}

/// One change to the bookmark list, in terms of values: what each of `add_bookmark`,
/// `remove_bookmark`, `update_bookmark` and `move_bookmark` does.
pub ghost enum BookmarkEdit {
    /// Append the bookmark that `add_bookmark` made, and advance the next id.
    Add { bookmark: BookmarkView },
    Remove { id: Seq<char> },
    Update {
        id: Seq<char>,
        title: Option<Seq<char>>,
        url: Option<Seq<char>>,
        folder_id: Option<Seq<char>>,
    },
    Move { id: Seq<char>, before: Option<Seq<char>> },
}

/// A field replaced when a new value is given.
pub open spec fn replaced(old: Seq<char>, new: Option<Seq<char>>) -> Seq<char> {
    match new {
        Some(v) => v,
        None => old,
    }
}

/// The store after one edit.
pub open spec fn apply_edit(s: BookmarkState, e: BookmarkEdit) -> BookmarkState {
    match e {
        BookmarkEdit::Add { bookmark } => BookmarkState {
            bookmarks: s.bookmarks.push(bookmark),
            folders: s.folders,
            next_id: (s.next_id + 1) as u64,
        },
        BookmarkEdit::Remove { id } => BookmarkState {
            bookmarks: s.bookmarks.filter(|b: BookmarkView| b.id != id),
            ..s
        },
        BookmarkEdit::Update { id, title, url, folder_id } => BookmarkState {
            bookmarks: match first_index(s.bookmarks.map_values(by_id()), id) {
                Some(i) => s.bookmarks.update(
                    i,
                    BookmarkView {
                        title: replaced(s.bookmarks[i].title, title),
                        url: replaced(s.bookmarks[i].url, url),
                        folder_id: replaced(s.bookmarks[i].folder_id, folder_id),
                        ..s.bookmarks[i]
                    },
                ),
                None => s.bookmarks,
            },
            ..s
        },
        BookmarkEdit::Move { id, before } => BookmarkState {
            bookmarks: moved(s.bookmarks, by_id(), id, before),
            ..s
        },
    }
}

/// The store after a series of edits, in order.
pub open spec fn apply_edits(s: BookmarkState, edits: Seq<BookmarkEdit>) -> BookmarkState
    decreases edits.len(),
{
    if edits.len() == 0 {
        s
    } else {
        apply_edit(apply_edits(s, edits.drop_last()), edits.last())
    }
}

/// `id` is the decimal notation of a number below `next`.
pub open spec fn is_issued(id: Seq<char>, next: u64) -> bool {
    exists|k: nat| k < next && #[trigger] decimal(k) == id
}

/// Every bookmark id is the decimal notation of a number below the next id, and no two
/// bookmarks share an id: the condition under which handed-out ids are fresh.
pub open spec fn ids_issued(s: BookmarkState) -> bool {
    &&& forall|i: int| 0 <= i < s.bookmarks.len() ==> is_issued(#[trigger] s.bookmarks[i].id, s.next_id)
    &&& forall|i: int, j: int|
        0 <= i < j < s.bookmarks.len() ==> s.bookmarks[i].id != s.bookmarks[j].id
}

/// The position of the first bookmark whose key (id or url) is `key`.
fn position_by(v: &Vec<Bookmark>, key: &str, match_url: bool) -> (r: Option<usize>)
    ensures
        match_url ==> as_index(r) == first_index(
            bookmark_views(v@).map_values(by_url()),
            key@,
        ),
        !match_url ==> as_index(r) == first_index(
            bookmark_views(v@).map_values(by_id()),
            key@,
        ),
{
    let ghost keys = if match_url {
        bookmark_views(v@).map_values(by_url())
    } else {
        bookmark_views(v@).map_values(by_id())
    };
    let mut i: usize = 0;
    while i < v.len()
        invariant
            i <= v.len(),
            keys.len() == v.len(),
            keys == (if match_url {
                bookmark_views(v@).map_values(by_url())
            } else {
                bookmark_views(v@).map_values(by_id())
            }),
            forall|j: int| 0 <= j < i ==> keys[j] != key@,
        decreases v.len() - i,
    {
        let hit = if match_url {
            text_eq(&v[i].url, key)
        } else {
            text_eq(&v[i].id, key)
        };
        if hit {
            proof {
                assert(keys[i as int] == key@);
                lemma_first_index_found(keys, key@, i as int);
            }
            return Some(i);
        }
        i = i + 1;
    }
    proof {
        lemma_first_index_absent(keys, key@);
    }
    None
}

impl BookmarkData {
    /// An empty store whose first id is 1.
    pub open spec fn empty_state() -> BookmarkState {
        BookmarkState { bookmarks: Seq::empty(), folders: Seq::empty(), next_id: 1 }
    }
}

/// The state `new` starts from: what was stored, or an empty store.
pub open spec fn loaded_state(stored: Option<BookmarkData>) -> BookmarkState {
    match stored {
        Some(d) => d@,
        None => BookmarkData::empty_state(),
    }
}

impl BookmarkManager {
    /// A store holding `stored` (what the bookmark file held, if it could be read and
    /// parsed), or nothing. On the first run (no bookmark file yet) an empty store is seeded
    /// with Google and YouTube.
    pub fn new(first_run: bool, stored: Option<BookmarkData>) -> (r: BookmarkManager)
        requires
            first_run && loaded_state(stored).bookmarks.len() == 0 ==> loaded_state(stored).next_id
                < u64::MAX - 1,
        ensures
            ({
                let base = loaded_state(stored);
                if first_run && base.bookmarks.len() == 0 {
                    &&& r@.folders == base.folders
                    &&& r@.next_id == base.next_id + 2
                    &&& r@.bookmarks.len() == 2
                    &&& r@.bookmarks[0] == new_bookmark(
                        base.next_id,
                        "https://www.google.com"@,
                        "Google"@,
                        Seq::empty(),
                        Seq::empty(),
                        r@.bookmarks[0].created_at,
                    )
                    &&& r@.bookmarks[1] == new_bookmark(
                        (base.next_id + 1) as u64,
                        "https://www.youtube.com"@,
                        "YouTube"@,
                        Seq::empty(),
                        Seq::empty(),
                        r@.bookmarks[1].created_at,
                    )
                } else {
                    r@ == base
                }
            }),
    {
        let mut mgr = match stored {
            Some(d) => BookmarkManager { bookmarks: d.bookmarks, folders: d.folders, next_id: d.next_id },
            None => {
                let m = BookmarkManager { bookmarks: Vec::new(), folders: Vec::new(), next_id: 1 };
                assert(bookmark_views(m.bookmarks@) =~= Seq::empty());
                assert(folder_views(m.folders@) =~= Seq::empty());
                m
            },
        };
        assert(mgr@ == loaded_state(stored));
        if first_run && mgr.bookmarks.len() == 0 {
            let _ = mgr.add_bookmark("https://www.google.com", "Google", None, None);
            let _ = mgr.add_bookmark("https://www.youtube.com", "YouTube", None, None);
        }
        mgr
    }

    /// Appends a bookmark created at `created_at` and returns it. Its id is the decimal
    /// notation of the next id, which then advances; an empty title becomes the url; an
    /// absent folder or favicon becomes the empty text.
    pub fn add_bookmark_at(
        &mut self,
        url: &str,
        title: &str,
        folder_id: Option<&str>,
        favicon: Option<&str>,
        created_at: u64,
    ) -> (b: Bookmark)
        requires
            old(self)@.next_id < u64::MAX,
        ensures
            b@ == new_bookmark(
                old(self)@.next_id,
                url@,
                title@,
                text_or_empty(folder_id),
                text_or_empty(favicon),
                created_at,
            ),
            final(self)@ == (BookmarkState {
                bookmarks: old(self)@.bookmarks.push(b@),
                folders: old(self)@.folders,
                next_id: (old(self)@.next_id + 1) as u64,
            }),
            final(self)@ == apply_edit(old(self)@, BookmarkEdit::Add { bookmark: b@ }),
            ids_issued(old(self)@) ==> ids_issued(final(self)@),
            ids_issued(old(self)@) ==> forall|i: int|
                0 <= i < old(self)@.bookmarks.len() ==> old(self)@.bookmarks[i].id != b@.id,
    {
        let id = decimal_string(self.next_id);
        let ghost issued = self.next_id;
        self.next_id = self.next_id + 1;
        let bookmark = Bookmark {
            id: id,
            url: owned(url),
            title: if title.is_empty() {
                owned(url)
            } else {
                owned(title)
            },
            favicon: match favicon {
                Some(f) => owned(f),
                None => String::new(),
            },
            folder_id: match folder_id {
                Some(f) => owned(f),
                None => String::new(),
            },
            created_at: created_at,
        };
        let result = bookmark.duplicate();
        self.bookmarks.push(bookmark);
        proof {
            assert(bookmark_views(self.bookmarks@) =~= old(self)@.bookmarks.push(result@));
            if ids_issued(old(self)@) {
                let olds = old(self)@.bookmarks;
                assert forall|i: int| 0 <= i < olds.len() implies olds[i].id != result@.id by {
                    let k = choose|k: nat| k < issued && #[trigger] decimal(k) == olds[i].id;
                    if olds[i].id == result@.id {
                        lemma_decimal_injective(k, issued as nat);
                    }
                }
                let news = self@.bookmarks;
                assert forall|i: int| 0 <= i < news.len() implies is_issued(
                    #[trigger] news[i].id,
                    self@.next_id,
                ) by {
                    if i < olds.len() {
                        let k = choose|k: nat| k < issued && #[trigger] decimal(k) == olds[i].id;
                        assert(decimal(k) == news[i].id);
                    } else {
                        assert(decimal(issued as nat) == news[i].id);
                    }
                }
            }
        }
        result
    }

    /// Appends a bookmark stamped with the current time and returns it (see
    /// `add_bookmark_at`; the stamp is whatever the clock reads).
    pub fn add_bookmark(
        &mut self,
        url: &str,
        title: &str,
        folder_id: Option<&str>,
        favicon: Option<&str>,
    ) -> (b: Bookmark)
        requires
            old(self)@.next_id < u64::MAX,
        ensures
            b@ == new_bookmark(
                old(self)@.next_id,
                url@,
                title@,
                text_or_empty(folder_id),
                text_or_empty(favicon),
                b.created_at,
            ),
            final(self)@ == (BookmarkState {
                bookmarks: old(self)@.bookmarks.push(b@),
                folders: old(self)@.folders,
                next_id: (old(self)@.next_id + 1) as u64,
            }),
            final(self)@ == apply_edit(old(self)@, BookmarkEdit::Add { bookmark: b@ }),
            ids_issued(old(self)@) ==> ids_issued(final(self)@),
            ids_issued(old(self)@) ==> forall|i: int|
                0 <= i < old(self)@.bookmarks.len() ==> old(self)@.bookmarks[i].id != b@.id,
    {
        let now = clock::now_millis();
        self.add_bookmark_at(url, title, folder_id, favicon, now)
    }

    /// Removes every bookmark with the id.
    pub fn remove_bookmark(&mut self, id: &str)
        ensures
            final(self)@ == (BookmarkState {
                bookmarks: old(self)@.bookmarks.filter(|b: BookmarkView| b.id != id@),
                ..old(self)@
            }),
            final(self)@ == apply_edit(old(self)@, BookmarkEdit::Remove { id: id@ }),
            ids_issued(old(self)@) ==> ids_issued(final(self)@),
    {
        let ghost pred = |b: BookmarkView| b.id != id@;
        let mut kept: Vec<Bookmark> = Vec::new();
        let mut i: usize = 0;
        while i < self.bookmarks.len()
            invariant
                i <= self.bookmarks.len(),
                pred == (|b: BookmarkView| b.id != id@),
                self.bookmarks == old(self).bookmarks,
                self.folders == old(self).folders,
                self.next_id == old(self).next_id,
                bookmark_views(kept@) == bookmark_views(self.bookmarks@).take(i as int).filter(
                    pred,
                ),
            decreases self.bookmarks.len() - i,
        {
            let ghost all = bookmark_views(self.bookmarks@);
            let ghost before = bookmark_views(kept@);
            assert(all[i as int] == self.bookmarks@[i as int]@);
            if !text_eq(&self.bookmarks[i].id, id) {
                let b = self.bookmarks[i].duplicate();
                kept.push(b);
                assert(pred(all[i as int]));
                assert(bookmark_views(kept@) =~= before.push(all[i as int]));
            } else {
                assert(!pred(all[i as int]));
                assert(bookmark_views(kept@) == before);
            }
            proof {
                assert(all.take(i + 1) =~= all.take(i as int).push(all[i as int]));
                all.take(i as int).lemma_filter_push(all[i as int], pred);
            }
            i = i + 1;
        }
        proof {
            assert(bookmark_views(self.bookmarks@).take(i as int) =~= bookmark_views(
                self.bookmarks@,
            ));
        }
        self.bookmarks = kept;
        proof {
            if ids_issued(old(self)@) {
                lemma_filter_keeps_issued(old(self)@, |b: BookmarkView| b.id != id@);
            }
        }
    }

    /// Edits the first bookmark with the id: each given field is replaced. Nothing changes
    /// when no bookmark has the id.
    pub fn update_bookmark(
        &mut self,
        id: &str,
        title: Option<&str>,
        url: Option<&str>,
        folder_id: Option<&str>,
    )
        ensures
            final(self)@ == (BookmarkState {
                bookmarks: update_spec(old(self)@.bookmarks, id@, title, url, folder_id),
                ..old(self)@
            }),
            final(self)@ == apply_edit(
                old(self)@,
                BookmarkEdit::Update {
                    id: id@,
                    title: opt_view(title),
                    url: opt_view(url),
                    folder_id: opt_view(folder_id),
                },
            ),
            ids_issued(old(self)@) ==> ids_issued(final(self)@),
    {
        match position_by(&self.bookmarks, id, false) {
            Some(i) => {
                let mut b = self.bookmarks[i].duplicate();
                match title {
                    Some(t) => {
                        b.title = owned(t);
                    },
                    None => {},
                }
                match url {
                    Some(u) => {
                        b.url = owned(u);
                    },
                    None => {},
                }
                match folder_id {
                    Some(f) => {
                        b.folder_id = owned(f);
                    },
                    None => {},
                }
                self.bookmarks.set(i, b);
                proof {
                    assert(bookmark_views(self.bookmarks@) =~= update_spec(
                        old(self)@.bookmarks,
                        id@,
                        title,
                        url,
                        folder_id,
                    ));
                    let olds = old(self)@.bookmarks;
                    let news = self@.bookmarks;
                    assert forall|j: int| 0 <= j < news.len() implies #[trigger] news[j].id
                        == olds[j].id by {}
                }
            },
            None => {},
        }
    }

    /// The first bookmark of the url, if any.
    pub fn is_bookmarked(&self, url: &str) -> (r: Option<&Bookmark>)
        ensures
            match first_index(self@.bookmarks.map_values(by_url()), url@) {
                Some(i) => r is Some && r.unwrap()@ == self@.bookmarks[i],
                None => r is None,
            },
    {
        match position_by(&self.bookmarks, url, true) {
            Some(i) => Some(&self.bookmarks[i]),
            None => None,
        }
    }

    /// The bookmarks filed in the folder, in list order.
    pub fn get_bookmarks(&self, folder_id: &str) -> (r: Vec<&Bookmark>)
        ensures
            ref_views(r@) == self@.bookmarks.filter(|b: BookmarkView| b.folder_id == folder_id@),
    {
        let ghost pred = |b: BookmarkView| b.folder_id == folder_id@;
        let ghost all = bookmark_views(self.bookmarks@);
        let mut out: Vec<&Bookmark> = Vec::new();
        let mut i: usize = 0;
        while i < self.bookmarks.len()
            invariant
                i <= self.bookmarks.len(),
                pred == (|b: BookmarkView| b.folder_id == folder_id@),
                all == bookmark_views(self.bookmarks@),
                ref_views(out@) == all.take(i as int).filter(pred),
            decreases self.bookmarks.len() - i,
        {
            let ghost before = ref_views(out@);
            assert(all[i as int] == self.bookmarks@[i as int]@);
            if text_eq(&self.bookmarks[i].folder_id, folder_id) {
                out.push(&self.bookmarks[i]);
                assert(pred(all[i as int]));
                assert(ref_views(out@) =~= before.push(all[i as int]));
            } else {
                assert(!pred(all[i as int]));
                assert(ref_views(out@) == before);
            }
            proof {
                assert(all.take(i + 1) =~= all.take(i as int).push(all[i as int]));
                all.take(i as int).lemma_filter_push(all[i as int], pred);
            }
            i = i + 1;
        }
        proof {
            assert(all.take(i as int) =~= all);
        }
        out
    }

    /// All bookmarks, in list order.
    pub fn get_all_bookmarks(&self) -> (r: &Vec<Bookmark>)
        ensures
            bookmark_views(r@) == self@.bookmarks,
    {
        &self.bookmarks
    }

    /// Whether some bookmark has the id.
    pub fn has_bookmark(&self, id: &str) -> (r: bool)
        ensures
            r == self@.bookmarks.map_values(by_id()).contains(id@),
    {
        let p = position_by(&self.bookmarks, id, false);
        proof {
            crate::seqs::lemma_first_index_props(self@.bookmarks.map_values(by_id()), id@);
            if p is None && self@.bookmarks.map_values(by_id()).contains(id@) {
                let k = choose|k: int|
                    0 <= k < self@.bookmarks.map_values(by_id()).len()
                        && self@.bookmarks.map_values(by_id())[k] == id@;
                assert(self@.bookmarks.map_values(by_id())[k] == id@);
            }
        }
        p.is_some()
    }

    /// All folders.
    pub fn get_all_folders(&self) -> (r: &Vec<BookmarkFolder>)
        ensures
            folder_views(r@) == self@.folders,
    {
        &self.folders
    }

    /// Takes the first bookmark with `bookmark_id` out and puts it before the first
    /// remaining bookmark with `before_bookmark_id`, or at the end when that is absent or
    /// names no bookmark. Nothing changes when no bookmark has `bookmark_id`.
    pub fn move_bookmark(&mut self, bookmark_id: &str, before_bookmark_id: Option<&str>)
        ensures
            final(self)@ == (BookmarkState {
                bookmarks: moved(
                    old(self)@.bookmarks,
                    by_id(),
                    bookmark_id@,
                    opt_view(before_bookmark_id),
                ),
                ..old(self)@
            }),
            final(self)@ == apply_edit(
                old(self)@,
                BookmarkEdit::Move { id: bookmark_id@, before: opt_view(before_bookmark_id) },
            ),
            final(self)@.bookmarks.to_multiset() == old(self)@.bookmarks.to_multiset(),
            ids_issued(old(self)@) ==> ids_issued(final(self)@),
    {
        proof {
            if ids_issued(old(self)@) {
                lemma_moved_keeps_issued(old(self)@, bookmark_id@, opt_view(before_bookmark_id));
            }
            lemma_moved_permutation(
                old(self)@.bookmarks,
                by_id(),
                bookmark_id@,
                opt_view(before_bookmark_id),
            );
        }
        match position_by(&self.bookmarks, bookmark_id, false) {
            Some(from) => {
                let moved_item = self.bookmarks.remove(from);
                proof {
                    assert(bookmark_views(self.bookmarks@) =~= old(self)@.bookmarks.remove(
                        from as int,
                    ));
                }
                match before_bookmark_id {
                    Some(before_id) => {
                        match position_by(&self.bookmarks, before_id, false) {
                            Some(to) => {
                                self.bookmarks.insert(to, moved_item);
                            },
                            None => {
                                self.bookmarks.push(moved_item);
                            },
                        }
                    },
                    None => {
                        self.bookmarks.push(moved_item);
                    },
                }
                proof {
                    assert(bookmark_views(self.bookmarks@) =~= moved(
                        old(self)@.bookmarks,
                        by_id(),
                        bookmark_id@,
                        opt_view(before_bookmark_id),
                    ));
                }
            },
            None => {},
        }
    }

    /// The id the next bookmark gets.
    pub fn next_id(&self) -> (r: u64)
        ensures
            r == self@.next_id,
    {
        self.next_id
    }

    /// A copy of everything the store persists.
    pub fn snapshot(&self) -> (d: BookmarkData)
        ensures
            d@ == self@,
    {
        let mut bookmarks: Vec<Bookmark> = Vec::new();
        let mut i: usize = 0;
        while i < self.bookmarks.len()
            invariant
                i <= self.bookmarks.len(),
                bookmark_views(bookmarks@) == bookmark_views(self.bookmarks@).take(i as int),
            decreases self.bookmarks.len() - i,
        {
            let ghost before = bookmark_views(bookmarks@);
            bookmarks.push(self.bookmarks[i].duplicate());
            assert(bookmark_views(bookmarks@) =~= before.push(self.bookmarks@[i as int]@));
            assert(bookmark_views(self.bookmarks@).take(i + 1) =~= bookmark_views(
                self.bookmarks@,
            ).take(i as int).push(self.bookmarks@[i as int]@));
            i = i + 1;
            proof {
                assert(bookmark_views(bookmarks@) =~= bookmark_views(self.bookmarks@).take(
                    i as int,
                ));
            }
        }
        let mut folders: Vec<BookmarkFolder> = Vec::new();
        let mut j: usize = 0;
        while j < self.folders.len()
            invariant
                j <= self.folders.len(),
                folder_views(folders@) == folder_views(self.folders@).take(j as int),
            decreases self.folders.len() - j,
        {
            let ghost before = folder_views(folders@);
            folders.push(self.folders[j].duplicate());
            assert(folder_views(folders@) =~= before.push(self.folders@[j as int]@));
            assert(folder_views(self.folders@).take(j + 1) =~= folder_views(self.folders@).take(
                j as int,
            ).push(self.folders@[j as int]@));
            j = j + 1;
            proof {
                assert(folder_views(folders@) =~= folder_views(self.folders@).take(j as int));
            }
        }
        proof {
            assert(bookmark_views(bookmarks@) =~= bookmark_views(self.bookmarks@));
            assert(folder_views(folders@) =~= folder_views(self.folders@));
        }
        BookmarkData { bookmarks, folders, next_id: self.next_id }
    }
}

/// Removing the bookmark that `add_bookmark` has just created gives the list back as it was,
/// when the store's ids were all issued by it.
pub proof fn lemma_remove_undoes_add(
    s: BookmarkState,
    url: Seq<char>,
    title: Seq<char>,
    folder_id: Seq<char>,
    favicon: Seq<char>,
    created_at: u64,
)
    requires
        ids_issued(s),
    ensures
        ({
            let b = new_bookmark(s.next_id, url, title, folder_id, favicon, created_at);
            s.bookmarks.push(b).filter(|x: BookmarkView| x.id != b.id) == s.bookmarks
        }),
{
    let b = new_bookmark(s.next_id, url, title, folder_id, favicon, created_at);
    let pred = |x: BookmarkView| x.id != b.id;
    assert forall|i: int| 0 <= i < s.bookmarks.len() implies pred(s.bookmarks[i]) by {
        let k = choose|k: nat| k < s.next_id && #[trigger] decimal(k) == s.bookmarks[i].id;
        if s.bookmarks[i].id == b.id {
            lemma_decimal_injective(k, s.next_id as nat);
        }
    }
    s.bookmarks.lemma_filter_push(b, pred);
    lemma_filter_keeps_all(s.bookmarks, pred);
}

/// Filtering with a predicate that every item satisfies keeps every item.
proof fn lemma_filter_keeps_all<A>(s: Seq<A>, pred: spec_fn(A) -> bool)
    requires
        forall|i: int| 0 <= i < s.len() ==> pred(#[trigger] s[i]),
    ensures
        s.filter(pred) == s,
    decreases s.len(),
{
    reveal_with_fuel(Seq::filter, 1);
    if s.len() > 0 {
        let t = s.drop_last();
        assert forall|i: int| 0 <= i < t.len() implies pred(#[trigger] t[i]) by {
            assert(t[i] == s[i]);
        }
        lemma_filter_keeps_all(t, pred);
        assert(pred(s[s.len() - 1]));
        assert(t.push(s.last()) =~= s);
    }
}

/// Keeping some of the bookmarks keeps their ids issued.
proof fn lemma_filter_keeps_issued(s: BookmarkState, pred: spec_fn(BookmarkView) -> bool)
    requires
        ids_issued(s),
    ensures
        ids_issued(BookmarkState { bookmarks: s.bookmarks.filter(pred), ..s }),
{
    assert(keys_distinct(s.bookmarks, by_id()));
    lemma_filter_keys_distinct(s.bookmarks, pred, by_id());
    let f = s.bookmarks.filter(pred);
    assert forall|i: int, j: int| 0 <= i < j < f.len() implies f[i].id != f[j].id by {
        assert(by_id()(f[i]) != by_id()(f[j]));
    }
    assert forall|i: int| 0 <= i < f.len() implies is_issued(#[trigger] f[i].id, s.next_id) by {
        assert(s.bookmarks.contains(f[i]));
        let x = choose|x: int| 0 <= x < s.bookmarks.len() && s.bookmarks[x] == f[i];
        assert(is_issued(s.bookmarks[x].id, s.next_id));
    }
}

/// Reordering the bookmarks keeps their ids issued.
proof fn lemma_moved_keeps_issued(s: BookmarkState, id: Seq<char>, before: Option<Seq<char>>)
    requires
        ids_issued(s),
    ensures
        ids_issued(BookmarkState { bookmarks: moved(s.bookmarks, by_id(), id, before), ..s }),
{
    assert(keys_distinct(s.bookmarks, by_id()));
    lemma_moved_keys_distinct(s.bookmarks, by_id(), id, before);
    let m = moved(s.bookmarks, by_id(), id, before);
    assert forall|i: int, j: int| 0 <= i < j < m.len() implies m[i].id != m[j].id by {
        assert(by_id()(m[i]) != by_id()(m[j]));
    }
    assert forall|i: int| 0 <= i < m.len() implies is_issued(#[trigger] m[i].id, s.next_id) by {
        assert(s.bookmarks.contains(m[i]));
        let x = choose|x: int| 0 <= x < s.bookmarks.len() && s.bookmarks[x] == m[i];
        assert(is_issued(s.bookmarks[x].id, s.next_id));
    }
}

/// No series of bookmark edits adds, removes or changes a folder.
pub proof fn lemma_edits_keep_folders(s: BookmarkState, edits: Seq<BookmarkEdit>)
    ensures
        apply_edits(s, edits).folders == s.folders,
    decreases edits.len(),
{
    if edits.len() > 0 {
        lemma_edits_keep_folders(s, edits.drop_last());
    }
}

} // verus!
