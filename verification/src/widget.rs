//! The widget window: its settings, its two sizes, and where it is placed
//! on start.
use vstd::prelude::*;

verus! {

/// The bar's size (CSS pixels); the collapsed window is exactly the bar.
pub const BAR_W: i32 = 210;

pub const BAR_H: i32 = 42;

pub const COLLAPSED_W: i32 = 210;

pub const COLLAPSED_H: i32 = 42;

/// The card's width; the expanded window is exactly as wide.
pub const CARD_W: i32 = 300;

/// The card's top edge in the window: the bar plus a 6 px gap.
pub const CARD_TOP: i32 = 48;

pub const EXPANDED_W: i32 = 300;

/// Bounds on the card height the page reports.
pub const MIN_CARD_H: i32 = 60;

pub const MAX_CARD_H: i32 = 560;

/// The default polling interval and its bounds (seconds).
pub const DEFAULT_POLL_INTERVAL_SECS: u64 = 60;

pub const MIN_POLL_INTERVAL_SECS: u64 = 30;

pub const MAX_POLL_INTERVAL_SECS: u64 = 600;

/// Minimum time between two position saves while dragging (milliseconds).
pub const SAVE_DEBOUNCE_MS: u128 = 500;

/// `v` clamped to `[lo, hi]`.
pub open spec fn clamp_int(v: int, lo: int, hi: int) -> int {
    if v < lo {
        lo
    } else if v > hi {
        hi
    } else {
        v
    }
}

/// The expanded window's height: the card's top plus its height, the height
/// clamped to `[60, 560]`.
pub fn expanded_h(card_h: i32) -> (r: i32)
    ensures
        r == CARD_TOP + clamp_int(card_h as int, MIN_CARD_H as int, MAX_CARD_H as int),
{
    let h = if card_h < MIN_CARD_H {
        MIN_CARD_H
    } else if card_h > MAX_CARD_H {
        MAX_CARD_H
    } else {
        card_h
    };
    CARD_TOP + h
}

/// The window's size (CSS pixels): the bar when collapsed; when expanded,
/// the card's width and the height for the reported card height (0 when
/// none was reported).
pub fn widget_size(expanded: bool, card_h: Option<i32>) -> (r: (i32, i32))
    ensures
        !expanded ==> r == (COLLAPSED_W, COLLAPSED_H),
        expanded ==> r.0 == EXPANDED_W && r.1 == CARD_TOP + clamp_int(
            match card_h {
                Some(h) => h as int,
                None => 0,
            },
            MIN_CARD_H as int,
            MAX_CARD_H as int,
        ),
{
    if expanded {
        let ch = match card_h {
            Some(h) => h,
            None => 0,
        };
        (EXPANDED_W, expanded_h(ch))
    } else {
        (COLLAPSED_W, COLLAPSED_H)
    }
}

/// The last geometry applied: expanded or not, and the card height.
#[derive(Debug)]
pub struct WidgetGeom {
    pub expanded: bool,
    pub card_h: i32,
}

impl WidgetGeom {
    /// The geometry at start: collapsed.
    pub fn new() -> (r: WidgetGeom)
        ensures
            r.expanded == false,
            r.card_h == 0,
    {
        WidgetGeom { expanded: false, card_h: 0 }
    }

    /// Records a requested geometry; `false` when it is the one already
    /// applied (nothing to resize), `true` when it changed.
    pub fn update(&mut self, expanded: bool, card_h: Option<i32>) -> (r: bool)
        ensures
            ({
                let ch = match card_h {
                    Some(h) => h,
                    None => 0,
                };
                &&& final(self).expanded == expanded
                &&& final(self).card_h == ch
                &&& r == !(old(self).expanded == expanded && old(self).card_h == ch)
            }),
    {
        let ch = match card_h {
            Some(h) => h,
            None => 0,
        };
        if self.expanded == expanded && self.card_h == ch {
            false
        } else {
            self.expanded = expanded;
            self.card_h = ch;
            true
        }
    }
}

/// Persisted settings; every field is optional.
#[derive(Debug)]
pub struct Settings {
    pub x: Option<i32>,
    pub y: Option<i32>,
    pub always_on_top: Option<bool>,
    /// Polling interval (seconds); 60 by default, clamped to `[30, 600]`.
    pub poll_interval_secs: Option<u64>,
    /// Collapse the card when the window loses focus; `true` by default.
    pub collapse_on_blur: Option<bool>,
}

impl Default for Settings {
    fn default() -> (r: Settings)
        ensures
            r.x is None,
            r.y is None,
            r.always_on_top is None,
            r.poll_interval_secs is None,
            r.collapse_on_blur is None,
    {
        Settings { x: None, y: None, always_on_top: None, poll_interval_secs: None, collapse_on_blur: None }
    }
}

impl Settings {
    /// The polling interval: the setting, or 60, clamped to `[30, 600]`.
    pub fn poll_interval_secs_clamped(&self) -> (r: u64)
        ensures
            r == clamp_int(
                match self.poll_interval_secs {
                    Some(s) => s as int,
                    None => DEFAULT_POLL_INTERVAL_SECS as int,
                },
                MIN_POLL_INTERVAL_SECS as int,
                MAX_POLL_INTERVAL_SECS as int,
            ),
            MIN_POLL_INTERVAL_SECS <= r <= MAX_POLL_INTERVAL_SECS,
    {
        let v = match self.poll_interval_secs {
            Some(s) => s,
            None => DEFAULT_POLL_INTERVAL_SECS,
        };
        if v < MIN_POLL_INTERVAL_SECS {
            MIN_POLL_INTERVAL_SECS
        } else if v > MAX_POLL_INTERVAL_SECS {
            MAX_POLL_INTERVAL_SECS
        } else {
            v
        }
    }
}

/// Whether the window position should be written now: always when forced,
/// otherwise when no save happened yet or the last one is at least 500 ms
/// old.
pub fn position_save_due(force: bool, since_last_ms: Option<u128>) -> (r: bool)
    ensures
        r == (force || match since_last_ms {
            Some(ms) => ms >= SAVE_DEBOUNCE_MS,
            None => true,
        }),
{
    if force {
        true
    } else {
        match since_last_ms {
            Some(ms) => ms >= SAVE_DEBOUNCE_MS,
            None => true,
        }
    }
}

/// A monitor's position and size (physical pixels).
#[derive(Debug)]
pub struct MonitorRect {
    pub x: i32,
    pub y: i32,
    pub width: u32,
    pub height: u32,
}

/// `v` lies in the range of `i32`.
pub open spec fn in_i32(v: int) -> bool {
    i32::MIN <= v <= i32::MAX
}

/// A monitor's right edge: its x plus its width taken as an `i32`.
pub open spec fn right_edge(m: MonitorRect) -> int {
    m.x + (m.width as i32)
}

/// A monitor's bottom edge: its y plus its height taken as an `i32`.
pub open spec fn bottom_edge(m: MonitorRect) -> int {
    m.y + (m.height as i32)
}

/// Whether a window at `(cx, cy)` of size `(cw, ch)` shares area with the
/// monitor.
pub open spec fn overlaps(m: MonitorRect, cx: i32, cy: i32, cw: i32, ch: i32) -> bool {
    &&& cx < right_edge(m)
    &&& cx + cw > m.x
    &&& cy < bottom_edge(m)
    &&& cy + ch > m.y
}

/// The sums that the overlap test evaluates, left to right and stopping at
/// the first false comparison, stay in the range of `i32`.
pub open spec fn overlap_sums_fit(m: MonitorRect, cx: i32, cy: i32, cw: i32, ch: i32) -> bool {
    &&& in_i32(right_edge(m))
    &&& cx < right_edge(m) ==> in_i32(cx + cw)
    &&& (cx < right_edge(m) && cx + cw > m.x) ==> in_i32(bottom_edge(m))
    &&& (cx < right_edge(m) && cx + cw > m.x && cy < bottom_edge(m)) ==> in_i32(cy + ch)
}

/// Whether the window shares area with the monitor.
pub fn window_overlaps(m: &MonitorRect, cx: i32, cy: i32, cw: i32, ch: i32) -> (r: bool)
    requires
        overlap_sums_fit(*m, cx, cy, cw, ch),
    ensures
        r == overlaps(*m, cx, cy, cw, ch),
{
    #[verifier::truncate]
    let w = m.width as i32;
    #[verifier::truncate]
    let h = m.height as i32;
    cx < m.x + w && cx + cw > m.x && cy < m.y + h && cy + ch > m.y
}

/// The sums the restore test evaluates stay in range: each monitor is
/// tested only until one overlaps.
pub open spec fn restore_sums_fit(monitors: Seq<MonitorRect>, cx: i32, cy: i32, cw: i32, ch: i32) -> bool {
    forall|i: int|
        0 <= i < monitors.len() && (forall|j: int| 0 <= j < i ==> !overlaps(
            #[trigger] monitors[j],
            cx,
            cy,
            cw,
            ch,
        )) ==> overlap_sums_fit(#[trigger] monitors[i], cx, cy, cw, ch)
}

/// Whether the restore test can run on these values without leaving the
/// range of `i32` (see [`restore_sums_fit`]).
pub fn restore_sums_in_range(monitors: &Vec<MonitorRect>, cx: i32, cy: i32, cw: i32, ch: i32) -> (r: bool)
    ensures
        r == restore_sums_fit(monitors@, cx, cy, cw, ch),
{
    let n = monitors.len();
    let mut i: usize = 0;
    while i < n
        invariant
            n == monitors@.len(),
            i <= n,
            forall|k: int|
                0 <= k < i && (forall|j: int| 0 <= j < k ==> !overlaps(
                    #[trigger] monitors@[j],
                    cx,
                    cy,
                    cw,
                    ch,
                )) ==> overlap_sums_fit(#[trigger] monitors@[k], cx, cy, cw, ch),
            forall|j: int| 0 <= j < i ==> !overlaps(#[trigger] monitors@[j], cx, cy, cw, ch),
        decreases n - i,
    {
        let m = &monitors[i];
        let right: i64 = m.x as i64 + (m.width as i32) as i64;
        let bottom: i64 = m.y as i64 + (m.height as i32) as i64;
        let i32_min = i32::MIN as i64;
        let i32_max = i32::MAX as i64;
        let right_ok = i32_min <= right && right <= i32_max;
        let a = (cx as i64) < right;
        let wide: i64 = cx as i64 + cw as i64;
        let wide_ok = i32_min <= wide && wide <= i32_max;
        let b = a && wide > m.x as i64;
        let bottom_ok = i32_min <= bottom && bottom <= i32_max;
        let c = b && (cy as i64) < bottom;
        let tall: i64 = cy as i64 + ch as i64;
        let tall_ok = i32_min <= tall && tall <= i32_max;
        let fits = right_ok && (!a || wide_ok) && (!b || bottom_ok) && (!c || tall_ok);
        if !fits {
            assert(!overlap_sums_fit(monitors@[i as int], cx, cy, cw, ch));
            return false;
        }
        if c && tall > m.y as i64 {
            assert(overlaps(monitors@[i as int], cx, cy, cw, ch));
            assert forall|k: int|
                0 <= k < n && (forall|j: int| 0 <= j < k ==> !overlaps(
                    #[trigger] monitors@[j],
                    cx,
                    cy,
                    cw,
                    ch,
                )) implies overlap_sums_fit(#[trigger] monitors@[k], cx, cy, cw, ch) by {
                if k > i {
                    assert(!overlaps(monitors@[i as int], cx, cy, cw, ch));
                }
            }
            return true;
        }
        i = i + 1;
    }
    true
}

/// Whether a saved position can be restored: the window placed there shares
/// area with some monitor (it may stick out of the screens).
pub fn position_restorable(monitors: &Vec<MonitorRect>, cx: i32, cy: i32, cw: i32, ch: i32) -> (r: bool)
    requires
        restore_sums_fit(monitors@, cx, cy, cw, ch),
    ensures
        r == exists|i: int| 0 <= i < monitors@.len() && overlaps(#[trigger] monitors@[i], cx, cy, cw, ch),
{
    let n = monitors.len();
    let mut i: usize = 0;
    while i < n
        invariant
            n == monitors@.len(),
            i <= n,
            restore_sums_fit(monitors@, cx, cy, cw, ch),
            forall|j: int| 0 <= j < i ==> !overlaps(#[trigger] monitors@[j], cx, cy, cw, ch),
        decreases n - i,
    {
        assert(overlap_sums_fit(monitors@[i as int], cx, cy, cw, ch));
        if window_overlaps(&monitors[i], cx, cy, cw, ch) {
            return true;
        }
        i = i + 1;
    }
    false
}

/// The pixel `(px, py)` lies both in the window at `(cx, cy)` of size
/// `(cw, ch)` and on the monitor.
pub open spec fn shared_pixel(m: MonitorRect, cx: i32, cy: i32, cw: i32, ch: i32, px: int, py: int) -> bool {
    &&& cx <= px < cx + cw
    &&& cy <= py < cy + ch
    &&& m.x <= px < right_edge(m)
    &&& m.y <= py < bottom_edge(m)
}

/// A window of positive size overlaps a monitor of positive size exactly
/// when some pixel lies in both. In particular a window wholly to the left,
/// right, top or bottom of the monitor does not overlap it.
pub proof fn overlap_is_a_shared_pixel(m: MonitorRect, cx: i32, cy: i32, cw: i32, ch: i32)
    requires
        0 < cw,
        0 < ch,
        0 < (m.width as i32),
        0 < (m.height as i32),
    ensures
        overlaps(m, cx, cy, cw, ch) <==> exists|px: int, py: int| #[trigger] shared_pixel(m, cx, cy, cw, ch, px, py),
        cx + cw <= m.x || cx >= right_edge(m) || cy + ch <= m.y || cy >= bottom_edge(m) ==> !overlaps(
            m,
            cx,
            cy,
            cw,
            ch,
        ),
{
    if overlaps(m, cx, cy, cw, ch) {
        let px: int = if cx >= m.x {
            cx as int
        } else {
            m.x as int
        };
        let py: int = if cy >= m.y {
            cy as int
        } else {
            m.y as int
        };
        assert(shared_pixel(m, cx, cy, cw, ch, px, py));
    }
}

/// A saved position is restored exactly when the window placed there shares
/// a pixel with some monitor (monitors and window of positive size); a
/// window off every screen is not restored.
pub proof fn restorable_iff_on_some_screen(monitors: Seq<MonitorRect>, cx: i32, cy: i32, cw: i32, ch: i32)
    requires
        0 < cw,
        0 < ch,
        forall|i: int| 0 <= i < monitors.len() ==> 0 < (#[trigger] monitors[i].width as i32) && 0 < (
        monitors[i].height as i32),
    ensures
        (exists|i: int| 0 <= i < monitors.len() && overlaps(#[trigger] monitors[i], cx, cy, cw, ch)) <==> (
        exists|i: int, px: int, py: int|
            0 <= i < monitors.len() && #[trigger] shared_pixel(monitors[i], cx, cy, cw, ch, px, py)),
{
    assert forall|i: int| 0 <= i < monitors.len() implies (overlaps(monitors[i], cx, cy, cw, ch) <==> exists|
        px: int,
        py: int,
    | #[trigger] shared_pixel(monitors[i], cx, cy, cw, ch, px, py)) by {
        overlap_is_a_shared_pixel(monitors[i], cx, cy, cw, ch);
    }
    if exists|i: int| 0 <= i < monitors.len() && overlaps(#[trigger] monitors[i], cx, cy, cw, ch) {
        let i = choose|i: int| 0 <= i < monitors.len() && overlaps(#[trigger] monitors[i], cx, cy, cw, ch);
        let (px, py) = choose|px: int, py: int| #[trigger] shared_pixel(monitors[i], cx, cy, cw, ch, px, py);
        assert(shared_pixel(monitors[i], cx, cy, cw, ch, px, py));
    }
    if exists|i: int, px: int, py: int|
        0 <= i < monitors.len() && #[trigger] shared_pixel(monitors[i], cx, cy, cw, ch, px, py) {
        let (i, px, py) = choose|i: int, px: int, py: int|
            0 <= i < monitors.len() && #[trigger] shared_pixel(monitors[i], cx, cy, cw, ch, px, py);
        assert(overlaps(monitors[i], cx, cy, cw, ch));
    }
}

/// The default position: the primary monitor's bottom-right corner, 24 px
/// from its right edge and 64 px from its bottom edge.
pub open spec fn default_position_spec(m: MonitorRect, cw: i32, ch: i32) -> (int, int) {
    (right_edge(m) - cw - 24, bottom_edge(m) - ch - 64)
}

/// The sums of the default position stay in the range of `i32`, evaluated
/// left to right.
pub open spec fn default_position_fits(m: MonitorRect, cw: i32, ch: i32) -> bool {
    &&& in_i32(right_edge(m))
    &&& in_i32(right_edge(m) - cw)
    &&& in_i32(right_edge(m) - cw - 24)
    &&& in_i32(bottom_edge(m))
    &&& in_i32(bottom_edge(m) - ch)
    &&& in_i32(bottom_edge(m) - ch - 64)
}

/// Whether the default position can be computed for this monitor and
/// window size without leaving the range of `i32`.
pub fn default_position_in_range(m: &MonitorRect, cw: i32, ch: i32) -> (r: bool)
    ensures
        r == default_position_fits(*m, cw, ch),
{
    let lo = i32::MIN as i64;
    let hi = i32::MAX as i64;
    let right: i64 = m.x as i64 + (m.width as i32) as i64;
    let bottom: i64 = m.y as i64 + (m.height as i32) as i64;
    let r1: i64 = right - cw as i64;
    let b1: i64 = bottom - ch as i64;
    lo <= right && right <= hi && lo <= r1 && r1 <= hi && lo <= r1 - 24 && r1 - 24 <= hi
        && lo <= bottom && bottom <= hi && lo <= b1 && b1 <= hi && lo <= b1 - 64 && b1 - 64 <= hi
}

/// The default window position on the primary monitor.
pub fn default_position(m: &MonitorRect, cw: i32, ch: i32) -> (r: (i32, i32))
    requires
        default_position_fits(*m, cw, ch),
    ensures
        (r.0 as int, r.1 as int) == default_position_spec(*m, cw, ch),
{
    #[verifier::truncate]
    let w = m.width as i32;
    #[verifier::truncate]
    let h = m.height as i32;
    (m.x + w - cw - 24, m.y + h - ch - 64)
}

}
