//! Browsing history: visits oldest first, capped at a fixed number of entries, listed and
//! searched newest first.
use vstd::prelude::*;
use crate::clock;
use crate::text::{
    chars_of, contains_chars, contains_text, decimal, decimal_string, has_prefix, lowercase,
    owned, starts_with, text_eq, to_lowercase,
};

verus! {

/// One visit.
#[derive(Debug, Clone)]
pub struct HistoryEntry {
    pub id: String,
    pub url: String,
    pub title: String,
    pub visited_at: u64,
}

/// The mathematical value of a visit.
pub ghost struct EntryView {
    pub id: Seq<char>,
    pub url: Seq<char>,
    pub title: Seq<char>,
    pub visited_at: u64,
}

impl View for HistoryEntry {
    type V = EntryView;

    open spec fn view(&self) -> EntryView {
        EntryView { id: self.id@, url: self.url@, title: self.title@, visited_at: self.visited_at }
    }
}

impl HistoryEntry {
    /// A copy with the same value.
    pub fn duplicate(&self) -> (r: HistoryEntry)
        ensures
            r@ == self@,
    {
        HistoryEntry {
            id: self.id.clone(),
            url: self.url.clone(),
            title: self.title.clone(),
            visited_at: self.visited_at,
        }
    }
}

/// What the history store persists.
#[derive(Debug)]
pub struct HistoryData {
    pub entries: Vec<HistoryEntry>,
    pub next_id: u64,
}

/// The visits, the next id to hand out, the cap, and whether anything changed since the
/// store was opened.
pub struct HistoryManager {
    entries: Vec<HistoryEntry>,
    next_id: u64,
    dirty: bool,
    unsaved: u64,
}

/// The mathematical value of the history store.
pub ghost struct HistoryState {
    pub entries: Seq<EntryView>,
    pub next_id: u64,
    pub dirty: bool,
    /// Visits recorded since the store was last written (or opened).
    pub unsaved: u64,
}

/// The number of visits the store keeps.
pub const MAX_HISTORY_ENTRIES: usize = 10000;

pub open spec fn entry_views(s: Seq<HistoryEntry>) -> Seq<EntryView> {
    s.map_values(|e: HistoryEntry| e@)
}

pub open spec fn entry_ref_views(s: Seq<&HistoryEntry>) -> Seq<EntryView> {
    s.map_values(|e: &HistoryEntry| e@)
}

impl View for HistoryManager {
    type V = HistoryState;

    closed spec fn view(&self) -> HistoryState {
        HistoryState {
            entries: entry_views(self.entries@),
            next_id: self.next_id,
            dirty: self.dirty,
            unsaved: self.unsaved,
        }
    }
}

impl View for HistoryData {
    type V = (Seq<EntryView>, u64);

    open spec fn view(&self) -> (Seq<EntryView>, u64) {
        (entry_views(self.entries@), self.next_id)
    }
}

/// Urls that are never recorded: the empty url, `about:blank`, local files and developer
/// tools pages.
pub open spec fn is_untracked_url(url: Seq<char>) -> bool {
    ||| url.len() == 0
    ||| url == "about:blank"@
    ||| has_prefix(url, "file://"@)
    ||| has_prefix(url, "devtools://"@)
}

/// Whether a visit to the url is recorded.
pub fn is_recorded_url(url: &str) -> (r: bool)
    ensures
        r == !is_untracked_url(url@),
{
    !(url.is_empty() || text_eq(url, "about:blank") || starts_with(url, "file://")
        || starts_with(url, "devtools://"))
}

/// The visit `add_entry` records: its id is the decimal notation of the next id, an empty
/// title falls back to the url.
pub open spec fn new_entry(id: u64, url: Seq<char>, title: Seq<char>, visited_at: u64) -> EntryView {
    EntryView {
        id: decimal(id as nat),
        url: url,
        title: if title.len() == 0 {
            url
        } else {
            title
        },
        visited_at: visited_at,
    }
}

/// The newest `max` visits of `s` (all of them when there are no more than `max`).
pub open spec fn keep_newest<A>(s: Seq<A>, max: nat) -> Seq<A> {
    if s.len() > max {
        s.subrange(s.len() - max, s.len() as int)
    } else {
        s
    }
}

/// A visit matches a lowercased query when the query occurs in its lowercased url or title.
pub open spec fn entry_matches(e: EntryView, q_lower: Seq<char>) -> bool {
    contains_text(lowercase(e.url), q_lower) || contains_text(lowercase(e.title), q_lower)
}

/// The window of `s` that skipping `offset` items and then taking `limit` items leaves.
pub open spec fn window<A>(s: Seq<A>, offset: nat, limit: nat) -> Seq<A> {
    let from = if offset <= s.len() {
        offset as int
    } else {
        s.len() as int
    };
    let to = if offset + limit <= s.len() {
        (offset + limit) as int
    } else {
        s.len() as int
    };
    s.subrange(from, to)
}

/// What `get_entries` lists: visits newest first, those matching the query when one is
/// given, then the window at `offset` of at most `limit` visits.
pub open spec fn listed_entries(
    entries: Seq<EntryView>,
    query: Option<Seq<char>>,
    limit: nat,
    offset: nat,
) -> Seq<EntryView> {
    let newest_first = entries.reverse();
    let matched = match query {
        Some(q) => newest_first.filter(|e: EntryView| entry_matches(e, lowercase(q))),
        None => newest_first,
    };
    window(matched, offset, limit)
}

/// The urls of a list of visits.
pub open spec fn urls_of(s: Seq<EntryView>) -> Seq<Seq<char>> {
    s.map_values(|e: EntryView| e.url)
}

/// Walking `s` in order, the visits that match and whose url no earlier kept visit has.
pub open spec fn distinct_matches(s: Seq<EntryView>, q_lower: Seq<char>) -> Seq<EntryView>
    decreases s.len(),
{
    if s.len() == 0 {
        Seq::empty()
    } else {
        let r = distinct_matches(s.drop_last(), q_lower);
        let e = s.last();
        if !urls_of(r).contains(e.url) && entry_matches(e, q_lower) {
            r.push(e)
        } else {
            r
        }
    }
}

/// What `search` returns: for a non-empty query, the newest visits that match, one per url,
/// at most `limit` of them.
pub open spec fn searched_entries(entries: Seq<EntryView>, query: Seq<char>, limit: nat) -> Seq<
    EntryView,
> {
    if query.len() == 0 {
        Seq::empty()
    } else {
        let d = distinct_matches(entries.reverse(), lowercase(query));
        if d.len() <= limit {
            d
        } else {
            d.take(limit as int)
        }
    }
}

/// The number of visits after which the store is written.
pub const SAVE_EVERY: u64 = 50;

/// Recording a visit when `unsaved` visits are pending: whether the store is written now,
/// and how many visits are pending after it. The store is written when the count of
/// visits since the last write reaches `SAVE_EVERY`.
pub open spec fn after_visit(unsaved: u64) -> (bool, u64) {
    if unsaved + 1 >= SAVE_EVERY {
        (true, 0)
    } else {
        (false, (unsaved + 1) as u64)
    }
}

/// How many writes `k` recorded visits ask for, starting with `unsaved` pending.
pub open spec fn saves_in(unsaved: u64, k: nat) -> nat
    decreases k,
{
    if k == 0 {
        0
    } else {
        let (save, next) = after_visit(unsaved);
        (if save {
            1nat
        } else {
            0nat
        }) + saves_in(next, (k - 1) as nat)
    }
}

/// Recording a visit in a store that held `old_len` visits with `unsaved` of them pending:
/// whether the store is written now, and how many visits are pending after it. Below the
/// cap the store is written whenever the number of visits it keeps is a multiple of
/// `SAVE_EVERY`; once it is full (the count no longer moves) the writes are debounced, one
/// per `SAVE_EVERY` visits since the last write (see `after_visit`).
pub open spec fn visit_write(old_len: nat, unsaved: u64) -> (bool, u64) {
    if old_len < MAX_HISTORY_ENTRIES {
        if (old_len + 1) % (SAVE_EVERY as nat) == 0 {
            (true, 0)
        } else {
            (false, if unsaved < u64::MAX {
                (unsaved + 1) as u64
            } else {
                unsaved
            })
        }
    } else {
        after_visit(unsaved)
    }
}

/// Whether a visit with the lowercased url and title matches the lowercased query.
pub fn matches_lowercased(url_lower: &str, title_lower: &str, q_lower: &Vec<char>) -> (r: bool)
    ensures
        r == (contains_text(url_lower@, q_lower@) || contains_text(title_lower@, q_lower@)),
{
    let uc = chars_of(url_lower);
    if contains_chars(&uc, q_lower) {
        return true;
    }
    let tc = chars_of(title_lower);
    contains_chars(&tc, q_lower)
}

/// Whether the visit matches the lowercased query.
fn matches_query(e: &HistoryEntry, q_lower: &Vec<char>) -> (r: bool)
    ensures
        r == entry_matches(e@, q_lower@),
{
    let u = to_lowercase(&e.url);
    let t = to_lowercase(&e.title);
    matches_lowercased(u.as_str(), t.as_str(), q_lower)
}

impl HistoryManager {
    /// A store holding `stored` (what the history file held, if it could be read and
    /// parsed), or nothing, with nothing unsaved.
    pub fn new(stored: Option<HistoryData>) -> (r: HistoryManager)
        ensures
            r@.entries == (match stored {
                Some(d) => d@.0,
                None => Seq::empty(),
            }),
            r@.next_id == (match stored {
                Some(d) => d@.1,
                None => 1,
            }),
            !r@.dirty,
            r@.unsaved == 0,
    {
        match stored {
            Some(d) => HistoryManager {
                entries: d.entries,
                next_id: d.next_id,
                dirty: false,
                unsaved: 0,
            },
            None => {
                let m = HistoryManager {
                    entries: Vec::new(),
                    next_id: 1,
                    dirty: false,
                    unsaved: 0,
                };
                assert(entry_views(m.entries@) =~= Seq::empty());
                m
            },
        }
    }

    /// Whether there are changes to write when the browser closes.
    pub fn flush_save(&self) -> (r: bool)
        ensures
            r == self@.dirty,
    {
        self.dirty
    }

    /// Records a visit made at `visited_at`, unless the url is one that is never recorded.
    /// The oldest visits are dropped beyond `MAX_HISTORY_ENTRIES`. Returns whether the store should be
    /// written now (see `visit_write`): below the cap when the number of visits kept is a
    /// multiple of `SAVE_EVERY`, at the cap once `SAVE_EVERY` visits are pending.
    pub fn add_entry_at(&mut self, url: &str, title: &str, visited_at: u64) -> (save_now: bool)
        requires
            !is_untracked_url(url@) ==> old(self)@.next_id < u64::MAX,
        ensures
            is_untracked_url(url@) ==> final(self)@ == old(self)@ && !save_now,
            !is_untracked_url(url@) ==> {
                &&& final(self)@.entries == keep_newest(
                    old(self)@.entries.push(new_entry(old(self)@.next_id, url@, title@, visited_at)),
                    MAX_HISTORY_ENTRIES as nat,
                )
                &&& final(self)@.next_id == old(self)@.next_id + 1
                &&& final(self)@.dirty
                &&& (save_now, final(self)@.unsaved) == visit_write(
                    old(self)@.entries.len(),
                    old(self)@.unsaved,
                )
            },
    {
        if !is_recorded_url(url) {
            return false;
        }
        let was_full = self.entries.len() >= MAX_HISTORY_ENTRIES;
        let entry = HistoryEntry {
            id: decimal_string(self.next_id),
            url: owned(url),
            title: if title.is_empty() {
                owned(url)
            } else {
                owned(title)
            },
            visited_at: visited_at,
        };
        let ghost e = entry@;
        self.next_id = self.next_id + 1;
        self.entries.push(entry);
        proof {
            assert(entry_views(self.entries@) =~= old(self)@.entries.push(e));
        }
        if self.entries.len() > MAX_HISTORY_ENTRIES {
            let drain = self.entries.len() - MAX_HISTORY_ENTRIES;
            let ghost all = self.entries@;
            let tail = self.entries.split_off(drain);
            self.entries = tail;
            proof {
                assert(entry_views(self.entries@) =~= entry_views(all).subrange(
                    drain as int,
                    all.len() as int,
                ));
            }
        }
        self.dirty = true;
        if !was_full {
            if self.entries.len() as u64 % SAVE_EVERY == 0 {
                self.unsaved = 0;
                true
            } else {
                self.unsaved = self.unsaved.saturating_add(1);
                false
            }
        } else if self.unsaved >= SAVE_EVERY - 1 {
            self.unsaved = 0;
            true
        } else {
            self.unsaved = self.unsaved + 1;
            false
        }
    }

    /// Records a visit stamped with the current time (see `add_entry_at`; the stamp is
    /// whatever the clock reads). Returns whether the store should be written now.
    pub fn add_entry(&mut self, url: &str, title: &str) -> (save_now: bool)
        requires
            !is_untracked_url(url@) ==> old(self)@.next_id < u64::MAX,
        ensures
            is_untracked_url(url@) ==> final(self)@ == old(self)@ && !save_now,
            !is_untracked_url(url@) ==> {
                &&& final(self)@.entries.len() >= 1
                &&& final(self)@.entries == keep_newest(
                    old(self)@.entries.push(
                        new_entry(
                            old(self)@.next_id,
                            url@,
                            title@,
                            final(self)@.entries.last().visited_at,
                        ),
                    ),
                    MAX_HISTORY_ENTRIES as nat,
                )
                &&& final(self)@.next_id == old(self)@.next_id + 1
                &&& final(self)@.dirty
                &&& (save_now, final(self)@.unsaved) == visit_write(
                    old(self)@.entries.len(),
                    old(self)@.unsaved,
                )
            },
    {
        let now = clock::now_millis();
        let r = self.add_entry_at(url, title, now);
        proof {
            if !is_untracked_url(url@) {
                let pushed = old(self)@.entries.push(
                    new_entry(old(self)@.next_id, url@, title@, now),
                );
                assert(pushed.last().visited_at == now);
                if pushed.len() > MAX_HISTORY_ENTRIES {
                    let kept = pushed.subrange(
                        pushed.len() - MAX_HISTORY_ENTRIES,
                        pushed.len() as int,
                    );
                    assert(kept.last() == pushed.last());
                }
            }
        }
        r
    }

    /// Visits newest first; with a query, only those whose lowercased url or title contains
    /// the lowercased query; then `offset` of them are skipped and at most `limit` listed.
    pub fn get_entries(&self, query: Option<&str>, limit: usize, offset: usize) -> (r: Vec<
        &HistoryEntry,
    >)
        ensures
            entry_ref_views(r@) == listed_entries(
                self@.entries,
                crate::text::opt_view(query),
                limit as nat,
                offset as nat,
            ),
    {
        let ghost all = entry_views(self.entries@);
        let ghost rev = all.reverse();
        let q_lower: Option<Vec<char>> = match query {
            Some(q) => {
                let l = to_lowercase(q);
                Some(chars_of(&l))
            },
            None => None,
        };
        let ghost pred = |e: EntryView|
            match query {
                Some(q) => entry_matches(e, lowercase(q@)),
                None => true,
            };
        let n = self.entries.len();
        let mut matched: Vec<&HistoryEntry> = Vec::new();
        let mut k: usize = 0;
        while k < n
            invariant
                n == self.entries.len(),
                all == entry_views(self.entries@),
                rev == all.reverse(),
                k <= n,
                pred == (|e: EntryView|
                    match query {
                        Some(q) => entry_matches(e, lowercase(q@)),
                        None => true,
                    }),
                match query {
                    Some(q) => q_lower matches Some(ql) && ql@ == lowercase(q@),
                    None => q_lower is None,
                },
                entry_ref_views(matched@) == rev.take(k as int).filter(pred),
            decreases n - k,
        {
            let idx = n - 1 - k;
            let e = &self.entries[idx];
            assert(rev[k as int] == e@);
            let keep = match &q_lower {
                Some(ql) => matches_query(e, ql),
                None => true,
            };
            let ghost before = entry_ref_views(matched@);
            if keep {
                matched.push(e);
                assert(pred(rev[k as int]));
                assert(entry_ref_views(matched@) =~= before.push(rev[k as int]));
            } else {
                assert(!pred(rev[k as int]));
            }
            proof {
                assert(rev.take(k + 1) =~= rev.take(k as int).push(rev[k as int]));
                rev.take(k as int).lemma_filter_push(rev[k as int], pred);
            }
            k = k + 1;
        }
        proof {
            assert(rev.take(n as int) =~= rev);
            match query {
                Some(q) => {
                    assert(pred == (|e: EntryView| entry_matches(e, lowercase(q@))));
                },
                None => {
                    assert forall|x: EntryView| #[trigger] pred(x) by {}
                    lemma_filter_all(rev, pred);
                },
            }
        }
        let ghost matched_all = entry_ref_views(matched@);
        let m = matched.len();
        let from = if offset <= m {
            offset
        } else {
            m
        };
        let to = if offset <= m && limit <= m - offset {
            offset + limit
        } else {
            m
        };
        let mut out: Vec<&HistoryEntry> = Vec::new();
        let mut j: usize = from;
        while j < to
            invariant
                from <= j <= to <= m,
                m == matched.len(),
                entry_ref_views(out@) == entry_ref_views(matched@).subrange(from as int, j as int),
            decreases to - j,
        {
            let ghost before = entry_ref_views(out@);
            let x = matched[j];
            out.push(x);
            assert(entry_ref_views(out@) =~= before.push(entry_ref_views(matched@)[j as int]));
            assert(entry_ref_views(matched@).subrange(from as int, j + 1) =~= entry_ref_views(
                matched@,
            ).subrange(from as int, j as int).push(entry_ref_views(matched@)[j as int]));
            j = j + 1;
            proof {
                assert(entry_ref_views(out@) =~= entry_ref_views(matched@).subrange(
                    from as int,
                    j as int,
                ));
            }
        }
        out
    }

    /// Removes every visit with the id. The store is written after it, so no visit is
    /// pending.
    pub fn delete_entry(&mut self, id: &str)
        ensures
            final(self)@ == (HistoryState {
                entries: old(self)@.entries.filter(|e: EntryView| e.id != id@),
                unsaved: 0,
                ..old(self)@
            }),
    {
        let ghost pred = |e: EntryView| e.id != id@;
        let mut kept: Vec<HistoryEntry> = Vec::new();
        let mut i: usize = 0;
        while i < self.entries.len()
            invariant
                i <= self.entries.len(),
                pred == (|e: EntryView| e.id != id@),
                self.entries == old(self).entries,
                self.next_id == old(self).next_id,
                self.dirty == old(self).dirty,
                entry_views(kept@) == entry_views(self.entries@).take(i as int).filter(pred),
            decreases self.entries.len() - i,
        {
            let ghost all = entry_views(self.entries@);
            let ghost before = entry_views(kept@);
            assert(all[i as int] == self.entries@[i as int]@);
            if !text_eq(&self.entries[i].id, id) {
                let e = self.entries[i].duplicate();
                kept.push(e);
                assert(pred(all[i as int]));
                assert(entry_views(kept@) =~= before.push(all[i as int]));
            } else {
                assert(!pred(all[i as int]));
            }
            proof {
                assert(all.take(i + 1) =~= all.take(i as int).push(all[i as int]));
                all.take(i as int).lemma_filter_push(all[i as int], pred);
            }
            i = i + 1;
        }
        proof {
            assert(entry_views(self.entries@).take(i as int) =~= entry_views(self.entries@));
        }
        self.entries = kept;
        self.unsaved = 0;
    }

    /// Forgets every visit and restarts ids at 1. The store is written after it, so no visit
    /// is pending.
    pub fn clear_all(&mut self)
        ensures
            final(self)@ == (HistoryState {
                entries: Seq::empty(),
                next_id: 1,
                unsaved: 0,
                ..old(self)@
            }),
    {
        self.entries.clear();
        self.next_id = 1;
        self.unsaved = 0;
        proof {
            assert(entry_views(self.entries@) =~= Seq::empty());
        }
    }

    /// Newest visits first, the first visit of each url that matches the query (lowercased,
    /// in url or title), at most `limit` of them; nothing for an empty query.
    pub fn search(&self, query: &str, limit: usize) -> (r: Vec<&HistoryEntry>)
        ensures
            entry_ref_views(r@) == searched_entries(self@.entries, query@, limit as nat),
    {
        if query.is_empty() {
            let r: Vec<&HistoryEntry> = Vec::new();
            assert(entry_ref_views(r@) =~= Seq::empty());
            return r;
        }
        let l = to_lowercase(query);
        let ql = chars_of(&l);
        let ghost all = entry_views(self.entries@);
        let ghost rev = all.reverse();
        let n = self.entries.len();
        let mut results: Vec<&HistoryEntry> = Vec::new();
        let mut k: usize = 0;
        while k < n
            invariant
                n == self.entries.len(),
                all == entry_views(self.entries@),
                rev == all.reverse(),
                ql@ == lowercase(query@),
                query@.len() != 0,
                k <= n,
                results.len() <= limit,
                entry_ref_views(results@) == distinct_matches(rev.take(k as int), ql@),
            decreases n - k,
        {
            if results.len() >= limit {
                proof {
                    lemma_distinct_matches_prefix(rev, ql@, k as int);
                    assert(rev.take(n as int) =~= rev);
                    let d = distinct_matches(rev, ql@);
                    let a = entry_ref_views(results@);
                    assert(a.len() == limit);
                    assert(d.take(a.len() as int) == a);
                    if d.len() <= limit {
                        assert(d.take(d.len() as int) =~= d);
                        assert(d == a);
                    } else {
                        assert(d.take(limit as int) == a);
                    }
                    assert(self@.entries == all);
                    assert(searched_entries(all, query@, limit as nat) == a);
                }
                return results;
            }
            let e = &self.entries[n - 1 - k];
            assert(rev[k as int] == e@);
            let ghost before = entry_ref_views(results@);
            let mut seen = false;
            let mut j: usize = 0;
            while j < results.len()
                invariant
                    j <= results.len(),
                    before == entry_ref_views(results@),
                    seen ==> urls_of(before).contains(e@.url),
                    !seen ==> forall|x: int| 0 <= x < j ==> before[x].url != e@.url,
                decreases results.len() - j,
            {
                if text_eq(&results[j].url, &e.url) {
                    seen = true;
                    assert(urls_of(before)[j as int] == e@.url);
                }
                j = j + 1;
            }
            proof {
                if urls_of(before).contains(e@.url) {
                    let x = choose|x: int| 0 <= x < urls_of(before).len() && urls_of(before)[x]
                        == e@.url;
                    assert(before[x].url == e@.url);
                }
            }
            if !seen && matches_query(e, &ql) {
                results.push(e);
                assert(entry_ref_views(results@) =~= before.push(e@));
            }
            proof {
                let t = rev.take(k + 1);
                assert(t.drop_last() =~= rev.take(k as int));
                assert(t.last() == e@);
            }
            k = k + 1;
        }
        proof {
            assert(rev.take(n as int) =~= rev);
        }
        results
    }

    /// The id the next visit gets.
    pub fn next_id(&self) -> (r: u64)
        ensures
            r == self@.next_id,
    {
        self.next_id
    }

    /// A copy of everything the store persists.
    pub fn snapshot(&self) -> (d: HistoryData)
        ensures
            d@ == (self@.entries, self@.next_id),
    {
        let mut entries: Vec<HistoryEntry> = Vec::new();
        let mut i: usize = 0;
        while i < self.entries.len()
            invariant
                i <= self.entries.len(),
                entry_views(entries@) == entry_views(self.entries@).take(i as int),
            decreases self.entries.len() - i,
        {
            let ghost before = entry_views(entries@);
            entries.push(self.entries[i].duplicate());
            assert(entry_views(entries@) =~= before.push(self.entries@[i as int]@));
            assert(entry_views(self.entries@).take(i + 1) =~= entry_views(self.entries@).take(
                i as int,
            ).push(self.entries@[i as int]@));
            i = i + 1;
        }
        proof {
            assert(entry_views(entries@) =~= entry_views(self.entries@));
        }
        HistoryData { entries, next_id: self.next_id }
    }
}

/// Search results never repeat a url, all of them match the query, there are at most
/// `limit` of them, and each is a visit of the store.
pub proof fn lemma_search_results_distinct(entries: Seq<EntryView>, query: Seq<char>, limit: nat)
    ensures
        ({
            let r = searched_entries(entries, query, limit);
            &&& r.len() <= limit
            &&& forall|i: int, j: int| 0 <= i < j < r.len() ==> r[i].url != r[j].url
            &&& forall|i: int| 0 <= i < r.len() ==> entry_matches(#[trigger] r[i], lowercase(query))
            &&& forall|i: int| 0 <= i < r.len() ==> entries.contains(#[trigger] r[i])
        }),
{
    if query.len() != 0 {
        let rev = entries.reverse();
        lemma_distinct_matches_props(rev, lowercase(query));
        let d = distinct_matches(rev, lowercase(query));
        assert forall|i: int| 0 <= i < d.len() implies entries.contains(#[trigger] d[i]) by {
            let x = choose|x: int| 0 <= x < rev.len() && rev[x] == d[i];
            assert(entries[entries.len() - 1 - x] == d[i]);
        }
    }
}

/// Recording a visit never leaves more than `MAX_HISTORY_ENTRIES` visits: the count grows
/// by one up to the cap, the visit just recorded is the newest one kept, and only the
/// oldest visits are dropped, the rest keeping their order.
pub proof fn lemma_add_respects_cap(entries: Seq<EntryView>, e: EntryView)
    ensures
        ({
            let p = entries.push(e);
            let k = keep_newest(p, MAX_HISTORY_ENTRIES as nat);
            &&& k.len() <= MAX_HISTORY_ENTRIES
            &&& k.len() == if p.len() > MAX_HISTORY_ENTRIES {
                MAX_HISTORY_ENTRIES as int
            } else {
                p.len() as int
            }
            &&& k.last() == e
            &&& k == p.subrange(p.len() - k.len(), p.len() as int)
        }),
{
    let p = entries.push(e);
    if p.len() > MAX_HISTORY_ENTRIES {
        assert(p.subrange(p.len() - MAX_HISTORY_ENTRIES, p.len() as int).last() == e);
    }
}

/// `k` recorded visits starting with `unsaved` pending ask for `(unsaved + k) / SAVE_EVERY` writes.
proof fn lemma_saves_in(unsaved: u64, k: nat)
    requires
        unsaved < SAVE_EVERY,
    ensures
        saves_in(unsaved, k) == (unsaved + k) / (SAVE_EVERY as int),
    decreases k,
{
    if k > 0 {
        let (save, next) = after_visit(unsaved);
        lemma_saves_in(next, (k - 1) as nat);
        if save {
            assert(1 + (k - 1) / 50 == (49 + k) / 50) by (nonlinear_arith)
                requires
                    k >= 1,
            ;
        }
    }
}

/// Saving a full store is debounced: a full store stays full, and from one with fewer than
/// `SAVE_EVERY` visits pending, `k` recorded visits ask for `(unsaved + k) / SAVE_EVERY`
/// writes, so any `SAVE_EVERY` consecutive visits ask for exactly one.
pub proof fn lemma_save_debounced(unsaved: u64, k: nat)
    requires
        unsaved < SAVE_EVERY,
    ensures
        forall|len: nat| len >= MAX_HISTORY_ENTRIES ==> #[trigger] visit_write(len, unsaved) == after_visit(unsaved),
        saves_in(unsaved, k) == (unsaved + k) / (SAVE_EVERY as int),
        saves_in(unsaved, SAVE_EVERY as nat) == 1,
{
    lemma_saves_in(unsaved, k);
    lemma_saves_in(unsaved, SAVE_EVERY as nat);
    assert((unsaved + 50) / 50 == 1) by (nonlinear_arith)
        requires
            unsaved < 50,
    ;
}

/// Listing never returns more than `limit` visits.
pub proof fn lemma_listing_bounded(
    entries: Seq<EntryView>,
    query: Option<Seq<char>>,
    limit: nat,
    offset: nat,
)
    ensures
        listed_entries(entries, query, limit, offset).len() <= limit,
{
}

/// The distinct matches of `s` have pairwise distinct urls, all match, and all come from `s`.
proof fn lemma_distinct_matches_props(s: Seq<EntryView>, q: Seq<char>)
    ensures
        ({
            let d = distinct_matches(s, q);
            &&& forall|i: int, j: int| 0 <= i < j < d.len() ==> d[i].url != d[j].url
            &&& forall|i: int| 0 <= i < d.len() ==> entry_matches(#[trigger] d[i], q)
            &&& forall|i: int| 0 <= i < d.len() ==> s.contains(#[trigger] d[i])
        }),
    decreases s.len(),
{
    if s.len() > 0 {
        let t = s.drop_last();
        lemma_distinct_matches_props(t, q);
        let r = distinct_matches(t, q);
        let d = distinct_matches(s, q);
        assert forall|i: int| 0 <= i < d.len() implies s.contains(#[trigger] d[i]) by {
            if i < r.len() {
                assert(d[i] == r[i]);
                let x = choose|x: int| 0 <= x < t.len() && t[x] == r[i];
                assert(s[x] == r[i]);
            } else {
                assert(s[s.len() - 1] == d[i]);
            }
        }
        assert forall|i: int, j: int| 0 <= i < j < d.len() implies d[i].url != d[j].url by {
            if j == r.len() {
                assert(urls_of(r)[i] == r[i].url);
            }
        }
    }
}

/// Filtering with a predicate that holds everywhere keeps everything.
proof fn lemma_filter_all<A>(s: Seq<A>, pred: spec_fn(A) -> bool)
    requires
        forall|x: A| #[trigger] pred(x),
    ensures
        s.filter(pred) == s,
    decreases s.len(),
{
    reveal_with_fuel(Seq::filter, 1);
    if s.len() > 0 {
        lemma_filter_all(s.drop_last(), pred);
        assert(s.drop_last().push(s.last()) =~= s);
    }
}

/// The distinct matches of a prefix are a prefix of the distinct matches of the whole.
proof fn lemma_distinct_matches_prefix(s: Seq<EntryView>, q: Seq<char>, k: int)
    requires
        0 <= k <= s.len(),
    ensures
        distinct_matches(s.take(k), q).len() <= distinct_matches(s, q).len(),
        distinct_matches(s, q).take(distinct_matches(s.take(k), q).len() as int)
            == distinct_matches(s.take(k), q),
    decreases s.len() - k,
{
    if k == s.len() {
        assert(s.take(k) =~= s);
        assert(distinct_matches(s, q).take(distinct_matches(s, q).len() as int) =~= distinct_matches(
            s,
            q,
        ));
    } else {
        lemma_distinct_matches_prefix(s, q, k + 1);
        let t = s.take(k + 1);
        assert(t.drop_last() =~= s.take(k));
        let a = distinct_matches(s.take(k), q);
        let b = distinct_matches(t, q);
        let whole = distinct_matches(s, q);
        assert(b.take(a.len() as int) =~= a);
        assert(whole.take(a.len() as int) =~= whole.take(b.len() as int).take(a.len() as int));
    }
}

/// Only four kinds of url are left out of history: the empty url, `about:blank`, local
/// files and developer tools pages. Web pages, `http://` and `https://` alike, are always
/// recorded.
pub proof fn lemma_web_pages_are_recorded(url: Seq<char>)
    ensures
        has_prefix(url, "http://"@) ==> !is_untracked_url(url),
        has_prefix(url, "https://"@) ==> !is_untracked_url(url),
        url.len() == 0 || url == "about:blank"@ || has_prefix(url, "file://"@) || has_prefix(
            url,
            "devtools://"@,
        ) ==> is_untracked_url(url),
{
    reveal_strlit("http://");
    reveal_strlit("https://");
    reveal_strlit("about:blank");
    reveal_strlit("file://");
    reveal_strlit("devtools://");
    if has_prefix(url, "http://"@) {
        assert(url.subrange(0, 7)[0] == url[0]);
    }
    if has_prefix(url, "https://"@) {
        assert(url.subrange(0, 8)[0] == url[0]);
    }
    if has_prefix(url, "file://"@) {
        assert(url.subrange(0, 7)[0] == url[0]);
    }
    if has_prefix(url, "devtools://"@) {
        assert(url.subrange(0, 11)[0] == url[0]);
    }
}

} // verus!
