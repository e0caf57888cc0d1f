//! The tab strip: which tabs are open, in what order, which one is active, the tabs that
//! can be reopened, and the geometry of the tab content area.
use vstd::prelude::*;
use crate::seqs::{
    as_index, first_index, is_first_index, lemma_first_index_absent, lemma_first_index_found,
    lemma_first_index_props, lemma_moved_permutation, moved, keys_distinct, lemma_moved_keys_distinct,
};
use crate::urlcodec::{url_encode, url_encoded};
use crate::text::{
    concat, contains, contains_text, decimal, decimal_string, has_prefix, owned, replace_all,
    replace_char, starts_with, text_eq,
};

verus! {

/// An open tab. (Its zoom factor is kept by the window layer, which owns the webviews.)
#[derive(Debug, Clone)]
pub struct Tab {
    pub id: u32,
    pub title: String,
    pub url: String,
    pub favicon: String,
    pub pinned: bool,
}

/// The mathematical value of a tab.
pub ghost struct TabView {
    pub id: u32,
    pub title: Seq<char>,
    pub url: Seq<char>,
    pub favicon: Seq<char>,
    pub pinned: bool,
}

impl View for Tab {
    type V = TabView;

    open spec fn view(&self) -> TabView {
        TabView {
            id: self.id,
            title: self.title@,
            url: self.url@,
            favicon: self.favicon@,
            pinned: self.pinned,
        }
    }
}

impl Tab {
    /// A copy with the same value.
    pub fn duplicate(&self) -> (r: Tab)
        ensures
            r@ == self@,
    {
        Tab {
            id: self.id,
            title: self.title.clone(),
            url: self.url.clone(),
            favicon: self.favicon.clone(),
            pinned: self.pinned,
        }
    }
}

/// A closed tab that can be reopened.
#[derive(Debug, Clone)]
pub struct ClosedTabInfo {
    pub url: String,
    pub title: String,
}

/// A size in physical pixels.
#[derive(Debug, Clone, Copy, PartialEq, Eq)]
pub struct PixelSize {
    pub width: u32,
    pub height: u32,
}

/// Where a tab's content is put when the active tab changes.
#[derive(Debug, Clone, Copy, PartialEq, Eq)]
pub struct TabPlacement {
    pub tab_id: u32,
    pub x: i32,
    pub y: i32,
}

/// The position that keeps an inactive tab's content out of sight.
pub const OFF_SCREEN: i32 = -10000;

/// Where the active tab's content goes.
#[derive(Debug, Clone, Copy, PartialEq, Eq)]
pub struct TabBounds {
    pub tab_id: u32,
    pub x: i32,
    pub y: i32,
    pub width: u32,
    pub height: u32,
}

/// What closing a tab led to.
#[derive(Debug, Clone, Copy, PartialEq, Eq)]
pub struct TabClosure {
    /// The tab that became active because the active tab was closed.
    pub switch_to: Option<u32>,
    /// No tab is left open.
    pub no_tabs_left: bool,
}

/// What a change of the content offset asks of the window layer.
#[derive(Debug, Clone, Copy, PartialEq, Eq)]
pub enum TabOffsetAction {
    /// Move the active tab's content off screen.
    HideActive,
    /// Lay the active tab out again.
    Relayout,
}

/// One line of the tab list.
#[derive(Debug, Clone)]
pub struct TabListing {
    pub id: u32,
    pub title: String,
    pub url: String,
    pub active: bool,
    pub pinned: bool,
}

/// The number of closed tabs kept for reopening.
pub const MAX_CLOSED_TABS: usize = 10;

/// The offset that hides the active tab completely.
pub const HIDE_OFFSET: u32 = 9999;

/// The tab strip.
pub struct TabManager {
    tabs: Vec<Tab>,
    active_tab_id: Option<u32>,
    next_tab_id: u32,
    closed_tabs: Vec<ClosedTabInfo>,
    home_page: String,
    chrome_height: u32,
    extra_offset: u32,
    tab_hidden: bool,
    last_window_size: Option<PixelSize>,
}

/// The mathematical value of the tab strip.
pub ghost struct TabsState {
    pub tabs: Seq<TabView>,
    pub active: Option<u32>,
    pub next_tab_id: u32,
    /// Reopenable tabs as (url, title), most recently closed last.
    pub closed: Seq<(Seq<char>, Seq<char>)>,
    pub home_page: Seq<char>,
    pub chrome_height: u32,
    pub extra_offset: u32,
    pub hidden: bool,
    pub last_window_size: Option<PixelSize>,
}

pub open spec fn tab_views(s: Seq<Tab>) -> Seq<TabView> {
    s.map_values(|t: Tab| t@)
}

pub open spec fn closed_views(s: Seq<ClosedTabInfo>) -> Seq<(Seq<char>, Seq<char>)> {
    s.map_values(|c: ClosedTabInfo| (c.url@, c.title@))
}

/// The ids of the tabs, in order.
pub open spec fn tab_ids(s: Seq<TabView>) -> Seq<u32> {
    s.map_values(|t: TabView| t.id)
}

/// The key tabs are found by: their id.
pub open spec fn by_tab_id() -> spec_fn(TabView) -> u32 {
    |t: TabView| t.id
}

impl View for TabManager {
    type V = TabsState;

    closed spec fn view(&self) -> TabsState {
        TabsState {
            tabs: tab_views(self.tabs@),
            active: self.active_tab_id,
            next_tab_id: self.next_tab_id,
            closed: closed_views(self.closed_tabs@),
            home_page: self.home_page@,
            chrome_height: self.chrome_height,
            extra_offset: self.extra_offset,
            hidden: self.tab_hidden,
            last_window_size: self.last_window_size,
        }
    }
}

impl TabsState {
    /// The invariant of the tab strip: tab ids are distinct and below the next id; a tab is
    /// active exactly when some tab is open, and the active tab is open; at most
    /// `MAX_CLOSED_TABS` closed tabs are kept.
    pub open spec fn wf(self) -> bool {
        &&& forall|i: int, j: int|
            0 <= i < j < self.tabs.len() ==> self.tabs[i].id != self.tabs[j].id
        &&& forall|i: int| 0 <= i < self.tabs.len() ==> self.tabs[i].id < self.next_tab_id
        &&& (self.active is None <==> self.tabs.len() == 0)
        &&& (self.active matches Some(a) ==> tab_ids(self.tabs).contains(a))
        &&& self.closed.len() <= MAX_CLOSED_TABS
    }

    /// The position of the tab with the id.
    pub open spec fn position(self, id: u32) -> Option<int> {
        first_index(tab_ids(self.tabs), id)
    }
}

/// Whether a closed tab's url is worth reopening.
pub open spec fn reopenable_url(url: Seq<char>) -> bool {
    url.len() != 0 && url != "about:blank"@
}

/// The reopen list after closing a tab at `url` titled `title`.
pub open spec fn remember_closed(
    closed: Seq<(Seq<char>, Seq<char>)>,
    url: Seq<char>,
    title: Seq<char>,
) -> Seq<(Seq<char>, Seq<char>)> {
    if reopenable_url(url) {
        let c = closed.push((url, title));
        if c.len() > MAX_CLOSED_TABS {
            c.remove(0)
        } else {
            c
        }
    } else {
        closed
    }
}

/// The tab that becomes active when the tab at `idx` of `tabs` is closed: the one that takes
/// its place, or the last one when it was the last.
pub open spec fn successor_after_close(rest: Seq<TabView>, idx: int) -> Option<u32> {
    if rest.len() == 0 {
        None
    } else if idx < rest.len() {
        Some(rest[idx].id)
    } else {
        Some(rest[rest.len() - 1].id)
    }
}

/// A new tab.
pub open spec fn new_tab(id: u32, url: Seq<char>) -> TabView {
    TabView { id, title: "New Tab"@, url, favicon: Seq::empty(), pinned: false }
}

/// The url of an optional owned text, or `default` when it is absent.
pub open spec fn string_or(o: Option<String>, default: Seq<char>) -> Seq<char> {
    match o {
        Some(s) => s@,
        None => default,
    }
}

/// The tab at position `i` with `f` applied.
pub open spec fn edit_tab(tabs: Seq<TabView>, id: u32, f: spec_fn(TabView) -> TabView) -> Seq<
    TabView,
> {
    match first_index(tab_ids(tabs), id) {
        Some(i) => tabs.update(i, f(tabs[i])),
        None => tabs,
    }
}

/// The tab with its pinned flag flipped.
pub open spec fn flip_pin() -> spec_fn(TabView) -> TabView {
    |t: TabView| TabView { pinned: !t.pinned, ..t }
}

/// Where a tab's content goes when `active` is the active tab and the content area starts
/// `top` pixels down.
pub open spec fn placement_of(t: TabView, active: Option<u32>, top: u32) -> TabPlacement {
    if active == Some(t.id) {
        TabPlacement { tab_id: t.id, x: 0, y: top as i32 }
    } else {
        TabPlacement { tab_id: t.id, x: OFF_SCREEN, y: OFF_SCREEN }
    }
}

/// Where every tab's content goes, in tab order.
pub open spec fn switch_placements(tabs: Seq<TabView>, active: Option<u32>, top: u32) -> Seq<
    TabPlacement,
> {
    tabs.map_values(|t: TabView| placement_of(t, active, top))
}

/// Whether `url::Url::parse` accepts the text as an absolute url. It depends on the text
/// alone; which texts it accepts is the `url` crate's WHATWG parser and is not stated here.
pub uninterp spec fn url_parses(s: Seq<char>) -> bool;

/// Whether `url::Url::parse` accepts the text (its result is named `url_parses`).
#[verifier::external_body]
fn parses_as_url(s: &str) -> (r: bool)
    ensures
        r == url_parses(s@),
{
    url::Url::parse(s).is_ok()
}

/// The page a new tab's webview is opened at when this is the tab's url.
pub open spec fn start_page(url: Seq<char>) -> Seq<char> {
    if url_parses(url) {
        url
    } else {
        "https://www.youtube.com"@
    }
}

/// The url a new tab's webview opens: the tab's url when it parses as a url, else the
/// YouTube home page.
pub fn webview_start_url(url: &str) -> (r: String)
    ensures
        r@ == start_page(url@),
{
    if parses_as_url(url) {
        owned(url)
    } else {
        owned("https://www.youtube.com")
    }
}

/// The id of the tab after the active one, going round.
pub open spec fn next_tab(s: TabsState) -> Option<u32> {
    if s.tabs.len() <= 1 {
        None
    } else {
        match s.active {
            Some(a) => match s.position(a) {
                Some(i) => Some(s.tabs[(i + 1) % (s.tabs.len() as int)].id),
                None => None,
            },
            None => None,
        }
    }
}

/// The id of the tab before the active one, going round.
pub open spec fn prev_tab(s: TabsState) -> Option<u32> {
    if s.tabs.len() <= 1 {
        None
    } else {
        match s.active {
            Some(a) => match s.position(a) {
                Some(i) => Some(
                    s.tabs[if i == 0 {
                        s.tabs.len() - 1
                    } else {
                        i - 1
                    }].id,
                ),
                None => None,
            },
            None => None,
        }
    }
}

/// With distinct ids, the position of the id found at `i` is `i`.
proof fn lemma_position_of_distinct(tabs: Seq<TabView>, i: int)
    requires
        0 <= i < tabs.len(),
        forall|a: int, b: int| 0 <= a < b < tabs.len() ==> tabs[a].id != tabs[b].id,
    ensures
        first_index(tab_ids(tabs), tabs[i].id) == Some(i),
{
    let ids = tab_ids(tabs);
    assert forall|j: int| 0 <= j < i implies ids[j] != tabs[i].id by {
        assert(ids[j] == tabs[j].id);
    }
    lemma_first_index_found(ids, tabs[i].id, i);
}

/// An id that names an open tab has a position.
proof fn lemma_contains_has_position(tabs: Seq<TabView>, id: u32)
    requires
        tab_ids(tabs).contains(id),
    ensures
        first_index(tab_ids(tabs), id) is Some,
{
    lemma_first_index_props(tab_ids(tabs), id);
    let k = choose|k: int| 0 <= k < tab_ids(tabs).len() && tab_ids(tabs)[k] == id;
    assert(tab_ids(tabs)[k] == id);
}

/// The position of the tab with the id.
fn position_of(tabs: &Vec<Tab>, id: u32) -> (r: Option<usize>)
    ensures
        as_index(r) == first_index(tab_ids(tab_views(tabs@)), id),
{
    let ghost ids = tab_ids(tab_views(tabs@));
    let mut i: usize = 0;
    while i < tabs.len()
        invariant
            i <= tabs.len(),
            ids == tab_ids(tab_views(tabs@)),
            forall|j: int| 0 <= j < i ==> ids[j] != id,
        decreases tabs.len() - i,
    {
        if tabs[i].id == id {
            proof {
                assert(ids[i as int] == id);
                lemma_first_index_found(ids, id, i as int);
            }
            return Some(i);
        }
        proof {
            assert(ids[i as int] == tabs@[i as int].id);
        }
        i = i + 1;
    }
    proof {
        lemma_first_index_absent(ids, id);
    }
    None
}

/// The page a new tab opens when none is configured.
pub open spec fn default_home_page() -> Seq<char> {
    "https://www.youtube.com"@
}

impl TabManager {
    /// An empty tab strip with the home page read from the settings, or YouTube when none
    /// was configured; the chrome above the tabs is 114 pixels high.
    pub fn new(home_page: Option<String>) -> (r: TabManager)
        ensures
            r@.wf(),
            r@.tabs.len() == 0,
            r@.active is None,
            r@.next_tab_id == 1,
            r@.closed.len() == 0,
            r@.home_page == string_or(home_page, default_home_page()),
            r@.chrome_height == 114,
            r@.extra_offset == 0,
            !r@.hidden,
            r@.last_window_size is None,
    {
        let home = match home_page {
            Some(h) => h,
            None => owned("https://www.youtube.com"),
        };
        let r = TabManager {
            tabs: Vec::new(),
            active_tab_id: None,
            next_tab_id: 1,
            closed_tabs: Vec::new(),
            home_page: home,
            chrome_height: 114,
            extra_offset: 0,
            tab_hidden: false,
            last_window_size: None,
        };
        assert(tab_views(r.tabs@) =~= Seq::empty());
        assert(closed_views(r.closed_tabs@) =~= Seq::empty());
        r
    }

    /// The id the next tab gets.
    pub fn next_tab_id(&self) -> (r: u32)
        ensures
            r == self@.next_tab_id,
    {
        self.next_tab_id
    }

    /// How many closed tabs can be reopened.
    pub fn closed_tab_count(&self) -> (r: usize)
        ensures
            r == self@.closed.len(),
    {
        self.closed_tabs.len()
    }

    /// The page new tabs open.
    pub fn get_home_page(&self) -> (r: String)
        ensures
            r@ == self@.home_page,
    {
        self.home_page.clone()
    }

    /// Sets the page new tabs open.
    pub fn set_home_page(&mut self, url: &str)
        ensures
            final(self)@ == (TabsState { home_page: url@, ..old(self)@ }),
    {
        self.home_page = owned(url);
    }

    /// Opens a tab at `url` (the home page when absent), titled "New Tab", makes it active
    /// and returns its id, the next id.
    pub fn create_tab(&mut self, url: Option<String>) -> (id: u32)
        requires
            old(self)@.wf(),
            old(self)@.next_tab_id < u32::MAX,
        ensures
            final(self)@.wf(),
            id == old(self)@.next_tab_id,
            final(self)@ == (TabsState {
                tabs: old(self)@.tabs.push(new_tab(id, string_or(url, old(self)@.home_page))),
                active: Some(id),
                next_tab_id: (id + 1) as u32,
                ..old(self)@
            }),
    {
        let url = match url {
            Some(u) => u,
            None => self.home_page.clone(),
        };
        let id = self.next_tab_id;
        self.next_tab_id = self.next_tab_id + 1;
        let tab = Tab {
            id,
            title: owned("New Tab"),
            url,
            favicon: String::new(),
            pinned: false,
        };
        let ghost v = tab@;
        self.tabs.push(tab);
        self.active_tab_id = Some(id);
        proof {
            assert(tab_views(self.tabs@) =~= old(self)@.tabs.push(v));
            let n = old(self)@.tabs.len();
            assert(tab_ids(self@.tabs)[n as int] == id);
        }
        id
    }

    /// Closes the tab with the id. A tab with a url other than the empty one and
    /// `about:blank` is remembered for reopening, forgetting the oldest beyond
    /// `MAX_CLOSED_TABS`. When the active tab closes, the tab that takes its place (or the
    /// last tab) becomes active. Returns `None` when no tab has the id.
    pub fn close_tab(&mut self, id: u32) -> (r: Option<TabClosure>)
        requires
            old(self)@.wf(),
        ensures
            final(self)@.wf(),
            match old(self)@.position(id) {
                None => r is None && final(self)@ == old(self)@,
                Some(idx) => {
                    let s = old(self)@;
                    let rest = s.tabs.remove(idx);
                    let was_active = s.active == Some(id);
                    let active = if was_active {
                        successor_after_close(rest, idx)
                    } else {
                        s.active
                    };
                    &&& final(self)@ == (TabsState {
                        tabs: rest,
                        active: active,
                        closed: remember_closed(s.closed, s.tabs[idx].url, s.tabs[idx].title),
                        ..s
                    })
                    &&& r == Some(
                        TabClosure {
                            switch_to: if was_active {
                                active
                            } else {
                                None
                            },
                            no_tabs_left: rest.len() == 0,
                        },
                    )
                },
            },
    {
        let idx = match position_of(&self.tabs, id) {
            Some(i) => i,
            None => {
                return None;
            },
        };
        let ghost s = old(self)@;
        proof {
            lemma_first_index_props(tab_ids(s.tabs), id);
        }
        let url_ok = !self.tabs[idx].url.as_str().is_empty() && !text_eq(&self.tabs[idx].url, "about:blank");
        if url_ok {
            let info = ClosedTabInfo {
                url: self.tabs[idx].url.clone(),
                title: self.tabs[idx].title.clone(),
            };
            self.closed_tabs.push(info);
            if self.closed_tabs.len() > MAX_CLOSED_TABS {
                self.closed_tabs.remove(0);
            }
        }
        proof {
            assert(s.tabs[idx as int] == self.tabs@[idx as int]@);
            let c = s.closed.push((s.tabs[idx as int].url, s.tabs[idx as int].title));
            if url_ok {
                if c.len() > MAX_CLOSED_TABS {
                    assert(closed_views(self.closed_tabs@) =~= c.remove(0));
                } else {
                    assert(closed_views(self.closed_tabs@) =~= c);
                }
            }
            assert(closed_views(self.closed_tabs@) == remember_closed(
                s.closed,
                s.tabs[idx as int].url,
                s.tabs[idx as int].title,
            ));
        }
        self.tabs.remove(idx);
        let ghost rest = s.tabs.remove(idx as int);
        proof {
            assert(tab_views(self.tabs@) =~= rest);
        }
        let was_active = match self.active_tab_id {
            Some(a) => a == id,
            None => false,
        };
        let mut switch_to: Option<u32> = None;
        if was_active {
            if self.tabs.len() > 0 {
                let new_idx = if idx < self.tabs.len() {
                    idx
                } else {
                    self.tabs.len() - 1
                };
                let new_active = self.tabs[new_idx].id;
                self.active_tab_id = Some(new_active);
                switch_to = Some(new_active);
                proof {
                    assert(tab_ids(rest)[new_idx as int] == new_active);
                }
            } else {
                self.active_tab_id = None;
            }
        }
        proof {
            // the invariant holds afterwards
            assert forall|i: int, j: int| 0 <= i < j < rest.len() implies rest[i].id
                != rest[j].id by {
                let oi = if i < idx {
                    i
                } else {
                    i + 1
                };
                let oj = if j < idx {
                    j
                } else {
                    j + 1
                };
                assert(rest[i] == s.tabs[oi]);
                assert(rest[j] == s.tabs[oj]);
            }
            assert forall|i: int| 0 <= i < rest.len() implies rest[i].id < s.next_tab_id by {
                let oi = if i < idx {
                    i
                } else {
                    i + 1
                };
                assert(rest[i] == s.tabs[oi]);
            }
            if !was_active {
                if let Some(a) = s.active {
                    let k = choose|k: int| 0 <= k < tab_ids(s.tabs).len() && tab_ids(s.tabs)[k]
                        == a;
                    assert(k != idx);
                    let nk = if k < idx {
                        k
                    } else {
                        k - 1
                    };
                    assert(tab_ids(rest)[nk] == a);
                    assert(rest.len() > 0);
                }
            }
        }
        Some(TabClosure { switch_to, no_tabs_left: self.tabs.len() == 0 })
    }

    /// Makes the tab with the id active and returns a copy of it; nothing changes when no
    /// tab has the id.
    pub fn switch_tab(&mut self, id: u32) -> (r: Option<Tab>)
        requires
            old(self)@.wf(),
        ensures
            final(self)@.wf(),
            match old(self)@.position(id) {
                Some(i) => r matches Some(t) && t@ == old(self)@.tabs[i] && final(self)@ == (
                TabsState { active: Some(id), ..old(self)@ }),
                None => r is None && final(self)@ == old(self)@,
            },
    {
        match position_of(&self.tabs, id) {
            Some(i) => {
                self.active_tab_id = Some(id);
                proof {
                    lemma_first_index_props(tab_ids(old(self)@.tabs), id);
                    assert(tab_ids(self@.tabs)[i as int] == id);
                }
                Some(self.tabs[i].duplicate())
            },
            None => None,
        }
    }

    /// Reopens the most recently closed tab, if any, as a new active tab and returns its id.
    pub fn restore_closed_tab(&mut self) -> (r: Option<u32>)
        requires
            old(self)@.wf(),
            old(self)@.closed.len() > 0 ==> old(self)@.next_tab_id < u32::MAX,
        ensures
            final(self)@.wf(),
            old(self)@.closed.len() == 0 ==> r is None && final(self)@ == old(self)@,
            old(self)@.closed.len() > 0 ==> {
                let s = old(self)@;
                &&& r == Some(s.next_tab_id)
                &&& final(self)@ == (TabsState {
                    tabs: s.tabs.push(new_tab(s.next_tab_id, s.closed.last().0)),
                    active: Some(s.next_tab_id),
                    next_tab_id: (s.next_tab_id + 1) as u32,
                    closed: s.closed.drop_last(),
                    ..s
                })
            },
    {
        match self.closed_tabs.pop() {
            Some(closed) => {
                proof {
                    assert(closed_views(self.closed_tabs@) =~= old(self)@.closed.drop_last());
                }
                let id = self.create_tab(Some(closed.url));
                Some(id)
            },
            None => None,
        }
    }

    /// Activates the tab after the active one, going round; returns its id. Nothing
    /// changes with fewer than two tabs.
    pub fn switch_to_next_tab(&mut self) -> (r: Option<u32>)
        requires
            old(self)@.wf(),
        ensures
            final(self)@.wf(),
            r == next_tab(old(self)@),
            final(self)@ == (match r {
                Some(n) => TabsState { active: Some(n), ..old(self)@ },
                None => old(self)@,
            }),
    {
        if self.tabs.len() <= 1 {
            return None;
        }
        match self.active_tab_id {
            Some(active_id) => match position_of(&self.tabs, active_id) {
                Some(idx) => {
                    let next_idx = (idx + 1) % self.tabs.len();
                    let next_id = self.tabs[next_idx].id;
                    self.active_tab_id = Some(next_id);
                    proof {
                        assert(tab_ids(self@.tabs)[next_idx as int] == next_id);
                    }
                    Some(next_id)
                },
                None => None,
            },
            None => None,
        }
    }

    /// Activates the tab before the active one, going round; returns its id. Nothing
    /// changes with fewer than two tabs.
    pub fn switch_to_prev_tab(&mut self) -> (r: Option<u32>)
        requires
            old(self)@.wf(),
        ensures
            final(self)@.wf(),
            r == prev_tab(old(self)@),
            final(self)@ == (match r {
                Some(n) => TabsState { active: Some(n), ..old(self)@ },
                None => old(self)@,
            }),
    {
        if self.tabs.len() <= 1 {
            return None;
        }
        match self.active_tab_id {
            Some(active_id) => match position_of(&self.tabs, active_id) {
                Some(idx) => {
                    let prev_idx = if idx == 0 {
                        self.tabs.len() - 1
                    } else {
                        idx - 1
                    };
                    let prev_id = self.tabs[prev_idx].id;
                    self.active_tab_id = Some(prev_id);
                    proof {
                        assert(tab_ids(self@.tabs)[prev_idx as int] == prev_id);
                    }
                    Some(prev_id)
                },
                None => None,
            },
            None => None,
        }
    }

    /// Flips the pinned flag of the tab with the id and returns the new flag.
    pub fn toggle_pin_tab(&mut self, id: u32) -> (r: Option<bool>)
        requires
            old(self)@.wf(),
        ensures
            final(self)@.wf(),
            final(self)@ == (TabsState {
                tabs: edit_tab(old(self)@.tabs, id, flip_pin()),
                ..old(self)@
            }),
            r == (match old(self)@.position(id) {
                Some(i) => Some(!old(self)@.tabs[i].pinned),
                None => None,
            }),
    {
        match position_of(&self.tabs, id) {
            Some(i) => {
                let mut t = self.tabs[i].duplicate();
                t.pinned = !t.pinned;
                let p = t.pinned;
                self.tabs.set(i, t);
                proof {
                    assert(tab_views(self.tabs@) =~= edit_tab(old(self)@.tabs, id, flip_pin()));
                    assert(tab_ids(self@.tabs) =~= tab_ids(old(self)@.tabs));
                }
                Some(p)
            },
            None => None,
        }
    }

    /// Takes the tab with `tab_id` out and puts it before the tab with `before_tab_id`, or
    /// at the end when that is absent or names no other tab. Returns whether a tab moved.
    pub fn move_tab(&mut self, tab_id: u32, before_tab_id: Option<u32>) -> (r: bool)
        requires
            old(self)@.wf(),
        ensures
            final(self)@.wf(),
            r == (old(self)@.position(tab_id) is Some),
            final(self)@ == (TabsState {
                tabs: moved(old(self)@.tabs, by_tab_id(), tab_id, before_tab_id),
                ..old(self)@
            }),
            final(self)@.tabs.to_multiset() == old(self)@.tabs.to_multiset(),
    {
        proof {
            lemma_moved_keeps_wf(old(self)@, tab_id, before_tab_id);
            lemma_moved_permutation(old(self)@.tabs, by_tab_id(), tab_id, before_tab_id);
        }
        match position_of(&self.tabs, tab_id) {
            Some(from) => {
                let item = self.tabs.remove(from);
                proof {
                    assert(tab_views(self.tabs@) =~= old(self)@.tabs.remove(from as int));
                    assert(tab_ids(tab_views(self.tabs@)) =~= old(self)@.tabs.remove(
                        from as int,
                    ).map_values(by_tab_id()));
                }
                match before_tab_id {
                    Some(before_id) => match position_of(&self.tabs, before_id) {
                        Some(to) => {
                            self.tabs.insert(to, item);
                        },
                        None => {
                            self.tabs.push(item);
                        },
                    },
                    None => {
                        self.tabs.push(item);
                    },
                }
                proof {
                    assert(old(self)@.tabs.map_values(by_tab_id()) =~= tab_ids(old(self)@.tabs));
                    assert(tab_views(self.tabs@) =~= moved(
                        old(self)@.tabs,
                        by_tab_id(),
                        tab_id,
                        before_tab_id,
                    ));
                }
                true
            },
            None => {
                proof {
                    assert(old(self)@.tabs.map_values(by_tab_id()) =~= tab_ids(old(self)@.tabs));
                }
                false
            },
        }
    }

    /// Points the active tab at `url` as `resolve_url` reads it; returns the active tab's id
    /// and the resolved url for the window layer to load.
    pub fn navigate_to(&mut self, url: &str) -> (r: Option<(u32, String)>)
        requires
            old(self)@.wf(),
        ensures
            final(self)@.wf(),
            match old(self)@.active {
                None => r is None && final(self)@ == old(self)@,
                Some(a) => r matches Some((id, u)) && id == a && u@ == resolved_url(url@)
                    && final(self)@ == (TabsState {
                    tabs: edit_tab(
                        old(self)@.tabs,
                        a,
                        |t: TabView| TabView { url: resolved_url(url@), ..t },
                    ),
                    ..old(self)@
                }),
            },
    {
        let resolved = resolve_url(url);
        match self.active_tab_id {
            Some(active_id) => {
                let u = resolved.clone();
                self.update_tab_url(active_id, &u);
                Some((active_id, resolved))
            },
            None => None,
        }
    }

    /// Points the active tab at the home page (see `navigate_to`).
    pub fn go_home(&mut self) -> (r: Option<(u32, String)>)
        requires
            old(self)@.wf(),
        ensures
            final(self)@.wf(),
            match old(self)@.active {
                None => r is None && final(self)@ == old(self)@,
                Some(a) => r matches Some((id, u)) && id == a && u@ == resolved_url(
                    old(self)@.home_page,
                ) && final(self)@ == (TabsState {
                    tabs: edit_tab(
                        old(self)@.tabs,
                        a,
                        |t: TabView| TabView { url: resolved_url(old(self)@.home_page), ..t },
                    ),
                    ..old(self)@
                }),
            },
    {
        let home = self.home_page.clone();
        self.navigate_to(&home)
    }

    /// Sets the url of the tab with the id.
    pub fn update_tab_url(&mut self, id: u32, url: &str)
        requires
            old(self)@.wf(),
        ensures
            final(self)@.wf(),
            final(self)@ == (TabsState {
                tabs: edit_tab(old(self)@.tabs, id, |t: TabView| TabView { url: url@, ..t }),
                ..old(self)@
            }),
    {
        if let Some(i) = position_of(&self.tabs, id) {
            let mut t = self.tabs[i].duplicate();
            t.url = owned(url);
            self.tabs.set(i, t);
            proof {
                assert(tab_views(self.tabs@) =~= edit_tab(
                    old(self)@.tabs,
                    id,
                    |t: TabView| TabView { url: url@, ..t },
                ));
                assert(tab_ids(self@.tabs) =~= tab_ids(old(self)@.tabs));
            }
        }
    }

    /// Sets the title of the tab with the id.
    pub fn update_tab_title(&mut self, id: u32, title: &str)
        requires
            old(self)@.wf(),
        ensures
            final(self)@.wf(),
            final(self)@ == (TabsState {
                tabs: edit_tab(old(self)@.tabs, id, |t: TabView| TabView { title: title@, ..t }),
                ..old(self)@
            }),
    {
        if let Some(i) = position_of(&self.tabs, id) {
            let mut t = self.tabs[i].duplicate();
            t.title = owned(title);
            self.tabs.set(i, t);
            proof {
                assert(tab_views(self.tabs@) =~= edit_tab(
                    old(self)@.tabs,
                    id,
                    |t: TabView| TabView { title: title@, ..t },
                ));
                assert(tab_ids(self@.tabs) =~= tab_ids(old(self)@.tabs));
            }
        }
    }

    /// Sets the favicon of the tab with the id.
    pub fn update_tab_favicon(&mut self, id: u32, favicon: &str)
        requires
            old(self)@.wf(),
        ensures
            final(self)@.wf(),
            final(self)@ == (TabsState {
                tabs: edit_tab(
                    old(self)@.tabs,
                    id,
                    |t: TabView| TabView { favicon: favicon@, ..t },
                ),
                ..old(self)@
            }),
    {
        if let Some(i) = position_of(&self.tabs, id) {
            let mut t = self.tabs[i].duplicate();
            t.favicon = owned(favicon);
            self.tabs.set(i, t);
            proof {
                assert(tab_views(self.tabs@) =~= edit_tab(
                    old(self)@.tabs,
                    id,
                    |t: TabView| TabView { favicon: favicon@, ..t },
                ));
                assert(tab_ids(self@.tabs) =~= tab_ids(old(self)@.tabs));
            }
        }
    }

    /// The tabs in order, each with whether it is the active one.
    pub fn list_tabs(&self) -> (r: Vec<TabListing>)
        ensures
            r.len() == self@.tabs.len(),
            forall|i: int|
                0 <= i < r.len() ==> {
                    let t = self@.tabs[i];
                    let l = #[trigger] r@[i];
                    &&& l.id == t.id
                    &&& l.title@ == t.title
                    &&& l.url@ == t.url
                    &&& l.pinned == t.pinned
                    &&& l.active == (self@.active == Some(t.id))
                },
    {
        let mut out: Vec<TabListing> = Vec::new();
        let mut i: usize = 0;
        while i < self.tabs.len()
            invariant
                i <= self.tabs.len(),
                out.len() == i,
                forall|k: int|
                    0 <= k < i ==> {
                        let t = self@.tabs[k];
                        let l = #[trigger] out@[k];
                        &&& l.id == t.id
                        &&& l.title@ == t.title
                        &&& l.url@ == t.url
                        &&& l.pinned == t.pinned
                        &&& l.active == (self@.active == Some(t.id))
                    },
            decreases self.tabs.len() - i,
        {
            let t = &self.tabs[i];
            let active = match self.active_tab_id {
                Some(a) => a == t.id,
                None => false,
            };
            out.push(
                TabListing {
                    id: t.id,
                    title: t.title.clone(),
                    url: t.url.clone(),
                    active,
                    pinned: t.pinned,
                },
            );
            assert(self@.tabs[i as int] == t@);
            i = i + 1;
        }
        out
    }

    /// The active tab.
    pub fn get_active_tab(&self) -> (r: Option<&Tab>)
        ensures
            match self@.active {
                Some(a) => match self@.position(a) {
                    Some(i) => r matches Some(t) && t@ == self@.tabs[i],
                    None => r is None,
                },
                None => r is None,
            },
    {
        match self.active_tab_id {
            Some(id) => match position_of(&self.tabs, id) {
                Some(i) => Some(&self.tabs[i]),
                None => None,
            },
            None => None,
        }
    }

    /// The active tab's id.
    pub fn get_active_tab_id(&self) -> (r: Option<u32>)
        ensures
            r == self@.active,
    {
        self.active_tab_id
    }

    /// Sets the height of the browser chrome above the tab content.
    pub fn set_chrome_height(&mut self, height: u32)
        ensures
            final(self)@ == (TabsState { chrome_height: height, ..old(self)@ }),
    {
        self.chrome_height = height;
    }

    /// The height of the browser chrome above the tab content.
    pub fn get_chrome_height(&self) -> (r: u32)
        ensures
            r == self@.chrome_height,
    {
        self.chrome_height
    }

    /// The extra offset pushing the tab content down (for popup menus).
    pub fn get_extra_offset(&self) -> (r: u32)
        ensures
            r == self@.extra_offset,
    {
        self.extra_offset
    }

    /// Whether the active tab is hidden behind a full-page panel.
    pub fn is_tab_hidden(&self) -> (r: bool)
        ensures
            r == self@.hidden,
    {
        self.tab_hidden
    }

    /// The window size last used to lay the tab out.
    pub fn get_last_window_size(&self) -> (r: Option<PixelSize>)
        ensures
            r == self@.last_window_size,
    {
        self.last_window_size
    }

    /// Where the tab content starts: below the chrome and the extra offset.
    pub fn content_top(&self) -> (r: u32)
        requires
            self@.chrome_height + self@.extra_offset <= u32::MAX,
        ensures
            r == self@.chrome_height + self@.extra_offset,
    {
        self.chrome_height + self.extra_offset
    }

    /// The size of the tab content in a window of the given size.
    pub fn content_size(&self, window: PixelSize) -> (r: PixelSize)
        requires
            self@.chrome_height + self@.extra_offset <= u32::MAX,
        ensures
            r.width == window.width,
            r.height == saturating_sub(window.height, (self@.chrome_height + self@.extra_offset) as u32),
    {
        let top = self.content_top();
        PixelSize { width: window.width, height: window.height.saturating_sub(top) }
    }

    /// Where each tab's content goes, in tab order: the active tab at the left edge just
    /// below the browser chrome, every other tab off screen.
    pub fn tab_placements(&self) -> (r: Vec<TabPlacement>)
        requires
            self@.chrome_height + self@.extra_offset <= u32::MAX,
        ensures
            r@ == switch_placements(
                self@.tabs,
                self@.active,
                (self@.chrome_height + self@.extra_offset) as u32,
            ),
    {
        let top = self.content_top();
        let mut r: Vec<TabPlacement> = Vec::new();
        let mut i: usize = 0;
        while i < self.tabs.len()
            invariant
                i <= self.tabs.len(),
                top == self@.chrome_height + self@.extra_offset,
                r@ == switch_placements(tab_views(self.tabs@).take(i as int), self.active_tab_id, top),
            decreases self.tabs.len() - i,
        {
            let id = self.tabs[i].id;
            let is_active = match self.active_tab_id {
                Some(a) => a == id,
                None => false,
            };
            let p = if is_active {
                TabPlacement { tab_id: id, x: 0, y: top as i32 }
            } else {
                TabPlacement { tab_id: id, x: OFF_SCREEN, y: OFF_SCREEN }
            };
            let ghost before = r@;
            r.push(p);
            proof {
                let all = tab_views(self.tabs@);
                assert(all[i as int].id == id);
                assert(all.take(i + 1) =~= all.take(i as int).push(all[i as int]));
                assert(r@ =~= switch_placements(all.take(i + 1), self.active_tab_id, top));
            }
            i = i + 1;
        }
        proof {
            assert(tab_views(self.tabs@).take(i as int) =~= tab_views(self.tabs@));
        }
        r
    }

    /// Records the window size and, unless the tab is hidden, returns where the active tab's
    /// content goes in a window of that size.
    pub fn resize_active_tab_with_size(&mut self, size: PixelSize) -> (r: Option<TabBounds>)
        requires
            !old(self)@.hidden && old(self)@.active is Some ==> old(self)@.chrome_height
                + old(self)@.extra_offset <= u32::MAX,
        ensures
            final(self)@ == (TabsState { last_window_size: Some(size), ..old(self)@ }),
            r == (if old(self)@.hidden {
                None
            } else {
                match old(self)@.active {
                    Some(a) => {
                        let top = (old(self)@.chrome_height + old(self)@.extra_offset) as u32;
                        Some(
                            TabBounds {
                                tab_id: a,
                                x: 0,
                                y: top as i32,
                                width: size.width,
                                height: saturating_sub(size.height, top),
                            },
                        )
                    },
                    None => None,
                }
            }),
    {
        self.last_window_size = Some(size);
        if self.tab_hidden {
            return None;
        }
        match self.active_tab_id {
            Some(active_id) => {
                let top = self.chrome_height + self.extra_offset;
                Some(
                    TabBounds {
                        tab_id: active_id,
                        x: 0,
                        y: top as i32,
                        width: size.width,
                        height: size.height.saturating_sub(top),
                    },
                )
            },
            None => None,
        }
    }

    /// Pushes the tab content down by `extra_top` pixels, or hides the active tab when
    /// `extra_top` is `HIDE_OFFSET`. Returns what the window layer has to do.
    pub fn set_tab_offset(&mut self, extra_top: u32) -> (r: TabOffsetAction)
        ensures
            extra_top == HIDE_OFFSET ==> r == TabOffsetAction::HideActive && final(self)@ == (
            TabsState { hidden: true, ..old(self)@ }),
            extra_top != HIDE_OFFSET ==> r == TabOffsetAction::Relayout && final(self)@ == (
            TabsState { hidden: false, extra_offset: extra_top, ..old(self)@ }),
    {
        if extra_top == HIDE_OFFSET {
            self.tab_hidden = true;
            TabOffsetAction::HideActive
        } else {
            self.tab_hidden = false;
            self.extra_offset = extra_top;
            TabOffsetAction::Relayout
        }
    }
}

/// `a - b`, or zero when `b` is larger.
pub open spec fn saturating_sub(a: u32, b: u32) -> u32 {
    if a >= b {
        (a - b) as u32
    } else {
        0
    }
}

/// How the address bar reads what was typed: a url with a scheme is kept; text with a dot
/// and no space gets `https://`; anything else becomes a Google search.
pub open spec fn resolved_url(u: Seq<char>) -> Seq<char> {
    if has_prefix(u, "http://"@) || has_prefix(u, "https://"@) {
        u
    } else if contains_text(u, "."@) && !contains_text(u, " "@) {
        "https://"@ + u
    } else {
        "https://www.google.com/search?q="@ + url_encoded(u)
    }
}

/// Reads what was typed in the address bar as a url (see `resolved_url`).
pub fn resolve_url(url: &str) -> (r: String)
    ensures
        r@ == resolved_url(url@),
{
    if starts_with(url, "http://") || starts_with(url, "https://") {
        return owned(url);
    }
    if contains(url, ".") && !contains(url, " ") {
        return concat("https://", url);
    }
    let encoded = url_encode(url);
    concat("https://www.google.com/search?q=", &encoded)
}

/// The label of the webview showing the tab: `tab-` and the id.
pub fn tab_label(id: u32) -> (r: String)
    ensures
        r@ == "tab-"@ + decimal(id as nat),
{
    let n = decimal_string(id as u64);
    concat("tab-", &n)
}

/// Pages that sponsored links and ad clicks land on.
pub open spec fn is_ad_redirect_url(u: Seq<char>) -> bool {
    ||| contains_text(u, "googleadservices.com"@)
    ||| contains_text(u, "doubleclick.net/"@)
    ||| contains_text(u, "googlesyndication.com"@)
    ||| contains_text(u, "/pagead/"@)
    ||| contains_text(u, "/aclk?"@)
}

/// Whether a page that finished loading is an ad redirect, which the tab closes.
pub fn is_ad_redirect(url: &str) -> (r: bool)
    ensures
        r == is_ad_redirect_url(url@),
{
    contains(url, "googleadservices.com") || contains(url, "doubleclick.net/") || contains(
        url,
        "googlesyndication.com",
    ) || contains(url, "/pagead/") || contains(url, "/aclk?")
}

/// Whether a page is on YouTube, where the Shorts and ad-skipping helpers are injected.
pub fn is_youtube_page(url: &str) -> (r: bool)
    ensures
        r == contains_text(url@, "youtube.com"@),
{
    contains(url, "youtube.com")
}

/// The search text as placed in the find script: quotes are escaped, then every backslash
/// is doubled (in that order).
pub open spec fn find_escaped(text: Seq<char>) -> Seq<char> {
    replace_char(replace_char(text, '\'', "\\'"@), '\\', "\\\\"@)
}

/// The script that searches the page for `text`, forward or backward.
pub open spec fn find_script_text(text: Seq<char>, forward: bool) -> Seq<char> {
    "window.find('"@ + find_escaped(text) + "', false, "@ + (if forward {
        "false"@
    } else {
        "true"@
    }) + ", true, false, true, false)"@
}

/// The script that searches the page for `text` (see `find_script_text`).
pub fn find_script(text: &str, forward: bool) -> (r: String)
    ensures
        r@ == find_script_text(text@, forward),
{
    let quoted = replace_all(text, '\'', "\\'");
    let escaped = replace_all(&quoted, '\\', "\\\\");
    let a = concat("window.find('", &escaped);
    let b = concat(&a, "', false, ");
    let c = if forward {
        concat(&b, "false")
    } else {
        concat(&b, "true")
    };
    concat(&c, ", true, false, true, false)")
}

/// The display name of a translation target, or the code itself when it is not one of
/// the known languages.
pub open spec fn language_name(code: Seq<char>) -> Seq<char> {
    if code == "ko"@ {
        "한국어"@
    } else if code == "en"@ {
        "English"@
    } else if code == "ja"@ {
        "日本語"@
    } else if code == "zh-CN"@ {
        "中文"@
    } else if code == "es"@ {
        "Español"@
    } else if code == "fr"@ {
        "Français"@
    } else if code == "de"@ {
        "Deutsch"@
    } else {
        code
    }
}

/// The display name of a translation target (see `language_name`).
pub fn language_label(code: &str) -> (r: String)
    ensures
        r@ == language_name(code@),
{
    if text_eq(code, "ko") {
        owned("한국어")
    } else if text_eq(code, "en") {
        owned("English")
    } else if text_eq(code, "ja") {
        owned("日本語")
    } else if text_eq(code, "zh-CN") {
        owned("中文")
    } else if text_eq(code, "es") {
        owned("Español")
    } else if text_eq(code, "fr") {
        owned("Français")
    } else if text_eq(code, "de") {
        owned("Deutsch")
    } else {
        owned(code)
    }
}

/// Whether a title change reports a visit to record: the url is not empty, not
/// `about:blank`, and differs from the url the active tab had.
pub fn should_record_visit(url: &str, previous_url: &str) -> (r: bool)
    ensures
        r == (url@.len() != 0 && url@ != "about:blank"@ && url@ != previous_url@),
{
    !url.is_empty() && !text_eq(url, "about:blank") && !text_eq(url, previous_url)
}

/// Whether a forwarded shortcut needs the keyboard on the main view: focusing the address
/// bar or opening find.
pub fn focuses_main_view(action: &str) -> (r: bool)
    ensures
        r == (action@ == "focus-url"@ || action@ == "find"@),
{
    text_eq(action, "focus-url") || text_eq(action, "find")
}

/// Moving a tab keeps the tab strip's invariant.
proof fn lemma_moved_keeps_wf(s: TabsState, id: u32, before: Option<u32>)
    requires
        s.wf(),
    ensures
        (TabsState { tabs: moved(s.tabs, by_tab_id(), id, before), ..s }).wf(),
{
    let m = moved(s.tabs, by_tab_id(), id, before);
    assert(keys_distinct(s.tabs, by_tab_id()));
    lemma_moved_keys_distinct(s.tabs, by_tab_id(), id, before);
    lemma_moved_permutation(s.tabs, by_tab_id(), id, before);
    assert forall|i: int, j: int| 0 <= i < j < m.len() implies m[i].id != m[j].id by {
        assert(by_tab_id()(m[i]) != by_tab_id()(m[j]));
    }
    assert forall|i: int| 0 <= i < m.len() implies m[i].id < s.next_tab_id by {
        assert(s.tabs.contains(m[i]));
    }
    if let Some(a) = s.active {
        let k = choose|k: int| 0 <= k < tab_ids(s.tabs).len() && tab_ids(s.tabs)[k] == a;
        assert(m.contains(s.tabs[k]));
        let j = choose|j: int| 0 <= j < m.len() && m[j] == s.tabs[k];
        assert(tab_ids(m)[j] == a);
    }
}

/// Pinning a tab and pinning it again leaves every tab as it was.
pub proof fn lemma_pin_twice_restores(tabs: Seq<TabView>, id: u32)
    ensures
        edit_tab(edit_tab(tabs, id, flip_pin()), id, flip_pin()) == tabs,
{
    let once = edit_tab(tabs, id, flip_pin());
    lemma_first_index_props(tab_ids(tabs), id);
    match first_index(tab_ids(tabs), id) {
        Some(i) => {
            assert(tab_ids(once) =~= tab_ids(tabs));
            assert(once.update(i, flip_pin()(once[i])) =~= tabs);
        },
        None => {},
    }
}


/// Going to the next tab and then to the previous one comes back to the tab that was
/// active.
pub proof fn lemma_next_then_prev(s: TabsState)
    requires
        s.wf(),
        next_tab(s) is Some,
    ensures
        prev_tab(TabsState { active: next_tab(s), ..s }) == s.active,
{
    let a = s.active.unwrap();
    lemma_contains_has_position(s.tabs, a);
    let i = s.position(a).unwrap();
    lemma_first_index_props(tab_ids(s.tabs), a);
    let n = s.tabs.len() as int;
    let j = (i + 1) % n;
    lemma_position_of_distinct(s.tabs, j);
    assert(s.tabs[i].id == a) by {
        assert(tab_ids(s.tabs)[i] == a);
    }
    if i == n - 1 {
        assert(j == 0) by (nonlinear_arith)
            requires
                j == (i + 1) % n,
                i == n - 1,
                n > 1,
        ;
    } else {
        assert(j == i + 1) by (nonlinear_arith)
            requires
                j == (i + 1) % n,
                0 <= i < n - 1,
        ;
    }
}

/// Going to the previous tab and then to the next one comes back to the tab that was
/// active.
pub proof fn lemma_prev_then_next(s: TabsState)
    requires
        s.wf(),
        prev_tab(s) is Some,
    ensures
        next_tab(TabsState { active: prev_tab(s), ..s }) == s.active,
{
    let a = s.active.unwrap();
    lemma_contains_has_position(s.tabs, a);
    let i = s.position(a).unwrap();
    lemma_first_index_props(tab_ids(s.tabs), a);
    let n = s.tabs.len() as int;
    let j = if i == 0 {
        n - 1
    } else {
        i - 1
    };
    lemma_position_of_distinct(s.tabs, j);
    assert(s.tabs[i].id == a) by {
        assert(tab_ids(s.tabs)[i] == a);
    }
    if i == 0 {
        assert((j + 1) % n == 0) by (nonlinear_arith)
            requires
                j == n - 1,
                n > 1,
        ;
    } else {
        assert((j + 1) % n == i) by (nonlinear_arith)
            requires
                j == i - 1,
                0 < i < n,
        ;
    }
}

/// Reading an address twice changes nothing more: a resolved url is kept as it is.
pub proof fn lemma_resolve_idempotent(u: Seq<char>)
    ensures
        resolved_url(resolved_url(u)) == resolved_url(u),
{
    reveal_strlit("https://");
    reveal_strlit("https://www.google.com/search?q=");
    let r = resolved_url(u);
    if !(has_prefix(u, "http://"@) || has_prefix(u, "https://"@)) {
        if contains_text(u, "."@) && !contains_text(u, " "@) {
            assert(r.subrange(0, 8) =~= "https://"@);
        } else {
            assert(r.subrange(0, 8) =~= "https://"@);
        }
        assert(has_prefix(r, "https://"@));
    }
}

/// A closed tab with a url worth reopening is the one that reopening brings back.
pub proof fn lemma_reopen_brings_back_last_closed(
    closed: Seq<(Seq<char>, Seq<char>)>,
    url: Seq<char>,
    title: Seq<char>,
)
    requires
        reopenable_url(url),
    ensures
        remember_closed(closed, url, title).len() > 0,
        remember_closed(closed, url, title).last() == (url, title),
        remember_closed(closed, url, title).len() <= MAX_CLOSED_TABS || closed.len()
            >= MAX_CLOSED_TABS,
{
    let c = closed.push((url, title));
    if c.len() > MAX_CLOSED_TABS {
        assert(c.remove(0).last() == c.last());
    }
}


/// Closing the active tab at position `i` of `tabs` hands the focus to a neighbour: the tab
/// that followed it, or, when it was the last tab, the one just before it (now the last);
/// no tab is active once the only tab is closed.
pub proof fn lemma_close_picks_neighbour(tabs: Seq<TabView>, i: int)
    requires
        0 <= i < tabs.len(),
    ensures
        successor_after_close(tabs.remove(i), i) == (if i + 1 < tabs.len() {
            Some(tabs[i + 1].id)
        } else if i > 0 {
            Some(tabs[i - 1].id)
        } else {
            None::<u32>
        }),
        i == tabs.len() - 1 && i > 0 ==> successor_after_close(tabs.remove(i), i) == Some(
            tabs.remove(i).last().id,
        ),
{
    let rest = tabs.remove(i);
    if i + 1 < tabs.len() {
        assert(rest[i] == tabs[i + 1]);
    } else if i > 0 {
        assert(rest[rest.len() - 1] == tabs[i - 1]);
    }
}

} // verus!
