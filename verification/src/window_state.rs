//! The main window's saved geometry, and where to put the window when restoring it.
use vstd::prelude::*;

verus! {

/// The main window's position, size and maximized flag.
#[derive(Debug, Clone, Copy, PartialEq, Eq)]
pub struct WindowState {
    pub x: i32,
    pub y: i32,
    pub width: u32,
    pub height: u32,
    pub is_maximized: bool,
}

impl Default for WindowState {
    /// No saved position, 1280 by 800, not maximized.
    fn default() -> (r: WindowState)
        ensures
            r.x == -1 && r.y == -1,
            r.width == 1280 && r.height == 800,
            !r.is_maximized,
    {
        WindowState { x: -1, y: -1, width: 1280, height: 800, is_maximized: false }
    }
}

/// The path of the geometry file in the data directory `dir`.
pub open spec fn window_state_path(dir: Seq<char>) -> Seq<char> {
    dir + "/window-state.json"@
}

/// Where the window geometry is kept.
pub struct WindowStateManager {
    file_path: String,
}

impl WindowStateManager {
    /// The path of the file the geometry is kept in, fixed when the manager is made.
    pub closed spec fn path_text(&self) -> Seq<char> {
        self.file_path@
    }

    /// The manager for `window-state.json` in the data directory `data_dir`.
    pub fn new(data_dir: String) -> (r: WindowStateManager)
        ensures
            r.path_text() == window_state_path(data_dir@),
    {
        let file_path = crate::text::concat(data_dir.as_str(), "/window-state.json");
        WindowStateManager { file_path }
    }

    /// The file the geometry is kept in.
    pub fn file_path(&self) -> (r: &str)
        ensures
            r@ == self.path_text(),
    {
        self.file_path.as_str()
    }
}

/// A monitor's position and size.
#[derive(Debug, Clone, Copy, PartialEq, Eq)]
pub struct MonitorArea {
    pub x: i32,
    pub y: i32,
    pub width: u32,
    pub height: u32,
}

/// What to do with the window when the browser starts.
#[derive(Debug, Clone, Copy, PartialEq, Eq)]
pub enum WindowPlacement {
    /// Resize to `size` when one is given, then maximize.
    Maximized { size: Option<(u32, u32)> },
    /// Resize to `width` by `height`; move to `position` when one is given.
    Normal { width: u32, height: u32, position: Option<(i32, i32)> },
    /// Leave the window as the system placed it.
    Unchanged,
}

/// Integer division by two rounding toward zero, as Rust's `/` does.
pub open spec fn half_toward_zero(v: int) -> int {
    if v >= 0 {
        v / 2
    } else {
        -((-v) / 2)
    }
}

/// At least 100 pixels of the window lie within the monitor in each direction.
pub open spec fn shows_on(x: i32, y: i32, w: u32, h: u32, m: MonitorArea) -> bool {
    &&& x < m.x + (m.width as i32) - 100
    &&& x + (w as i32) > m.x + 100
    &&& y < m.y + (m.height as i32) - 100
    &&& y + (h as i32) > m.y + 100
}

/// An `i32` expression that does not overflow.
pub open spec fn fits_i32(v: int) -> bool {
    i32::MIN <= v <= i32::MAX
}

/// Testing the window against `m` stays within `i32`. The four comparisons are made in
/// turn and stop at the first that fails, so only the sums they reach must fit.
pub open spec fn arithmetic_fits(s: WindowState, m: MonitorArea) -> bool {
    let mw = m.width as i32;
    let mh = m.height as i32;
    let w = s.width as i32;
    let h = s.height as i32;
    &&& fits_i32(m.x + mw)
    &&& fits_i32(m.x + mw - 100)
    &&& (s.x < m.x + mw - 100 ==> {
        &&& fits_i32(s.x + w)
        &&& fits_i32(m.x + 100)
        &&& (s.x + w > m.x + 100 ==> {
            &&& fits_i32(m.y + mh)
            &&& fits_i32(m.y + mh - 100)
            &&& (s.y < m.y + mh - 100 ==> {
                &&& fits_i32(s.y + h)
                &&& fits_i32(m.y + 100)
            })
        })
    })
}

/// The placement restoring `s` on `monitors`: a maximized window is resized (when its
/// saved size is positive) and maximized; a window with a positive size that shows on no
/// monitor is shrunk to fit the first monitor and centered on it; a window of positive size
/// is moved unless both coordinates are negative.
pub open spec fn placement(s: WindowState, monitors: Seq<MonitorArea>) -> WindowPlacement {
    if s.is_maximized {
        WindowPlacement::Maximized {
            size: if s.width > 0 && s.height > 0 {
                Some((s.width, s.height))
            } else {
                None
            },
        }
    } else if s.width > 0 && s.height > 0 {
        let visible = exists|i: int|
            0 <= i < monitors.len() && shows_on(s.x, s.y, s.width, s.height, #[trigger] monitors[i]);
        let (x, y, w, h) = if monitors.len() > 0 && !visible {
            let m = monitors[0];
            let w = if s.width > m.width {
                m.width
            } else {
                s.width
            };
            let h = if s.height > m.height {
                m.height
            } else {
                s.height
            };
            (
                m.x + half_toward_zero((m.width as i32) - (w as i32)),
                m.y + half_toward_zero((m.height as i32) - (h as i32)),
                w,
                h,
            )
        } else {
            (s.x as int, s.y as int, s.width, s.height)
        };
        WindowPlacement::Normal {
            width: w,
            height: h,
            position: if x >= 0 || y >= 0 {
                Some((x as i32, y as i32))
            } else {
                None
            },
        }
    } else {
        WindowPlacement::Unchanged
    }
}

/// Whether the window shows on the monitor.
fn shows_on_monitor(s: &WindowState, m: &MonitorArea) -> (r: bool)
    requires
        arithmetic_fits(*s, *m),
    ensures
        r == shows_on(s.x, s.y, s.width, s.height, *m),
{
    let mw = m.width as i32;
    let mh = m.height as i32;
    let ww = s.width as i32;
    let wh = s.height as i32;
    s.x < m.x + mw - 100 && s.x + ww > m.x + 100 && s.y < m.y + mh - 100 && s.y + wh > m.y + 100
}

/// No monitor before the `i`-th shows the window.
pub open spec fn shown_on_none_before(s: WindowState, monitors: Seq<MonitorArea>, i: int) -> bool {
    forall|j: int| 0 <= j < i ==> !shows_on(s.x, s.y, s.width, s.height, #[trigger] monitors[j])
}

/// The window fits the first monitor once shrunk, and centering it there stays within `i32`.
pub open spec fn centering_fits(s: WindowState, m: MonitorArea) -> bool {
    let w = if s.width > m.width {
        m.width
    } else {
        s.width
    };
    let h = if s.height > m.height {
        m.height
    } else {
        s.height
    };
    &&& fits_i32((m.width as i32) - (w as i32))
    &&& fits_i32((m.height as i32) - (h as i32))
    &&& fits_i32(m.x + half_toward_zero((m.width as i32) - (w as i32)))
    &&& fits_i32(m.y + half_toward_zero((m.height as i32) - (h as i32)))
}

/// Restoring `s` on `monitors` stays within `i32`: each monitor is tested until one shows
/// the window, and the window is centered on the first monitor when none does.
pub open spec fn restore_fits(s: WindowState, monitors: Seq<MonitorArea>) -> bool {
    !s.is_maximized && s.width > 0 && s.height > 0 ==> {
        &&& forall|i: int|
            0 <= i < monitors.len() && shown_on_none_before(s, monitors, i) ==> arithmetic_fits(
                s,
                #[trigger] monitors[i],
            )
        &&& monitors.len() > 0 && shown_on_none_before(s, monitors, monitors.len() as int)
            ==> centering_fits(s, monitors[0])
    }
}

/// Whether `v` is an `i32`.
fn fits_i32_value(v: i64) -> (r: bool)
    ensures
        r == fits_i32(v as int),
{
    -2147483648 <= v && v <= 2147483647
}

/// Whether testing the window against `m` stays within `i32`.
fn arithmetic_fits_monitor(s: &WindowState, m: &MonitorArea) -> (r: bool)
    ensures
        r == arithmetic_fits(*s, *m),
{
    let mx = m.x as i64;
    let my = m.y as i64;
    let mw = (m.width as i32) as i64;
    let mh = (m.height as i32) as i64;
    let w = (s.width as i32) as i64;
    let h = (s.height as i32) as i64;
    let x = s.x as i64;
    let y = s.y as i64;
    if !(fits_i32_value(mx + mw) && fits_i32_value(mx + mw - 100)) {
        return false;
    }
    if !(x < mx + mw - 100) {
        return true;
    }
    if !(fits_i32_value(x + w) && fits_i32_value(mx + 100)) {
        return false;
    }
    if !(x + w > mx + 100) {
        return true;
    }
    if !(fits_i32_value(my + mh) && fits_i32_value(my + mh - 100)) {
        return false;
    }
    if !(y < my + mh - 100) {
        return true;
    }
    fits_i32_value(y + h) && fits_i32_value(my + 100)
}

/// Integer division by two rounding toward zero.
fn half_toward_zero_value(v: i64) -> (r: i64)
    requires
        v > i64::MIN,
    ensures
        r == half_toward_zero(v as int),
{
    if v >= 0 {
        v / 2
    } else {
        -((-v) / 2)
    }
}

/// Whether centering the window on `m` stays within `i32`.
fn centering_fits_monitor(s: &WindowState, m: &MonitorArea) -> (r: bool)
    ensures
        r == centering_fits(*s, *m),
{
    let w = if s.width > m.width {
        m.width
    } else {
        s.width
    };
    let h = if s.height > m.height {
        m.height
    } else {
        s.height
    };
    let dx = ((m.width as i32) as i64) - ((w as i32) as i64);
    let dy = ((m.height as i32) as i64) - ((h as i32) as i64);
    fits_i32_value(dx) && fits_i32_value(dy) && fits_i32_value(m.x as i64 + half_toward_zero_value(dx))
        && fits_i32_value(m.y as i64 + half_toward_zero_value(dy))
}

/// Whether `plan_window_restore` may be asked to restore `s` on `monitors` (see
/// `restore_fits`): where it is not, restoring overflows `i32`.
pub fn can_plan_restore(s: &WindowState, monitors: &Vec<MonitorArea>) -> (r: bool)
    ensures
        r == restore_fits(*s, monitors@),
{
    if s.is_maximized || s.width == 0 || s.height == 0 {
        return true;
    }
    let mut i: usize = 0;
    while i < monitors.len()
        invariant
            i <= monitors.len(),
            !s.is_maximized && s.width > 0 && s.height > 0,
            shown_on_none_before(*s, monitors@, i as int),
            forall|j: int|
                0 <= j < i ==> arithmetic_fits(*s, #[trigger] monitors@[j]),
        decreases monitors.len() - i,
    {
        if !arithmetic_fits_monitor(s, &monitors[i]) {
            return false;
        }
        if shows_on_monitor(s, &monitors[i]) {
            proof {
                assert forall|k: int|
                    0 <= k < monitors.len() && shown_on_none_before(*s, monitors@, k) implies arithmetic_fits(
                    *s,
                    #[trigger] monitors@[k],
                ) by {
                    if k > i {
                        assert(!shown_on_none_before(*s, monitors@, k)) by {
                            assert(shows_on(s.x, s.y, s.width, s.height, monitors@[i as int]));
                        }
                    }
                }
                assert(!shown_on_none_before(*s, monitors@, monitors.len() as int)) by {
                    assert(shows_on(s.x, s.y, s.width, s.height, monitors@[i as int]));
                }
            }
            return true;
        }
        i = i + 1;
    }
    if monitors.len() == 0 {
        return true;
    }
    centering_fits_monitor(s, &monitors[0])
}

/// Where to put the window when restoring `s` on `monitors` (see `placement`).
pub fn plan_window_restore(s: &WindowState, monitors: &Vec<MonitorArea>) -> (r: WindowPlacement)
    requires
        restore_fits(*s, monitors@),
    ensures
        r == placement(*s, monitors@),
{
    if s.is_maximized {
        if s.width > 0 && s.height > 0 {
            WindowPlacement::Maximized { size: Some((s.width, s.height)) }
        } else {
            WindowPlacement::Maximized { size: None }
        }
    } else if s.width > 0 && s.height > 0 {
        let mut wx = s.x;
        let mut wy = s.y;
        let mut ww = s.width;
        let mut wh = s.height;
        if monitors.len() > 0 {
            let mut visible = false;
            let mut i: usize = 0;
            while i < monitors.len() && !visible
                invariant
                    i <= monitors.len(),
                    restore_fits(*s, monitors@),
                    !s.is_maximized && s.width > 0 && s.height > 0,
                    !visible ==> shown_on_none_before(*s, monitors@, i as int),
                    visible ==> exists|j: int|
                        0 <= j < i && shows_on(s.x, s.y, s.width, s.height, #[trigger] monitors@[j]),
                decreases monitors.len() - i,
            {
                let on = shows_on_monitor(s, &monitors[i]);
                if on {
                    visible = true;
                    assert(shows_on(s.x, s.y, s.width, s.height, monitors@[i as int]));
                }
                i = i + 1;
            }
            proof {
                if !visible {
                    assert(i == monitors.len());
                    assert(!exists|j: int|
                        0 <= j < monitors.len() && shows_on(s.x, s.y, s.width, s.height, #[trigger] monitors@[j]));
                }
            }
            if !visible {
                let m = &monitors[0];
                if ww > m.width {
                    ww = m.width;
                }
                if wh > m.height {
                    wh = m.height;
                }
                let dx = (m.width as i32) - (ww as i32);
                let dy = (m.height as i32) - (wh as i32);
                wx = m.x + dx / 2;
                wy = m.y + dy / 2;
            }
        }
        if wx >= 0 || wy >= 0 {
            WindowPlacement::Normal { width: ww, height: wh, position: Some((wx, wy)) }
        } else {
            WindowPlacement::Normal { width: ww, height: wh, position: None }
        }
    } else {
        WindowPlacement::Unchanged
    }
}

/// A window restored where it was saved: when some monitor shows the saved window (or no
/// monitor is known), a window of positive size that is not maximized keeps its size, and it
/// is moved back to its saved position whenever at least one saved coordinate is
/// non-negative; only a window saved left of and above the origin is left where the system
/// put it.
pub proof fn lemma_visible_window_goes_back(s: WindowState, monitors: Seq<MonitorArea>)
    requires
        !s.is_maximized,
        s.width > 0,
        s.height > 0,
        monitors.len() == 0 || exists|i: int|
            0 <= i < monitors.len() && shows_on(s.x, s.y, s.width, s.height, #[trigger] monitors[i]),
    ensures
        match placement(s, monitors) {
            WindowPlacement::Normal { width, height, position } => {
                &&& width == s.width
                &&& height == s.height
                &&& (s.x >= 0 || s.y >= 0) ==> position == Some((s.x, s.y))
                &&& position is None ==> s.x < 0 && s.y < 0
            },
            _ => false,
        },
{
}

} // verus!
