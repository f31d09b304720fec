//! Monitor geometry: the descriptor for one attached display, resolution of
//! a 1-based display slot against the enumerated monitor list, and the
//! left/right half placement calculator.

use vstd::prelude::*;
use crate::config::Side;

verus! {

/// A rectangle in virtual-screen coordinates, as the display subsystem
/// reports it: `left`/`top` inclusive, `right`/`bottom` exclusive.
#[derive(Clone, Copy, Debug, PartialEq, Eq, Structural)]
pub struct Rect {
    pub left: i32,
    pub top: i32,
    pub right: i32,
    pub bottom: i32,
}

/// A rectangle whose corners are ordered and whose width and height fit in
/// an `i32`. Every rectangle the display subsystem hands out satisfies this;
/// the placement arithmetic needs it to stay free of overflow.
pub open spec fn rect_wf(r: Rect) -> bool {
    &&& r.left <= r.right
    &&& r.top <= r.bottom
    &&& r.right - r.left <= i32::MAX
    &&& r.bottom - r.top <= i32::MAX
}

/// One attached display: an opaque platform handle, its full bounds, its
/// work area (the part left for normal windows, excluding taskbars and
/// docks), and a device name used for diagnostics only.
#[derive(Clone, Debug)]
pub struct MonitorInfo {
    pub handle: usize,
    pub rect: Rect,
    pub work_area: Rect,
    pub device_name: String,
}

/// Resolves a 1-based display slot against the enumerated monitor list:
/// slot `k` names `monitors[k - 1]`. Slot `0` and every slot past the end of
/// the list resolve to "not found"; an empty list resolves nothing.
pub fn get_monitor_by_number(monitors: &[MonitorInfo], number: u32) -> (r: Option<
    &MonitorInfo,
>)
    ensures
        match r {
            Some(m) => 1 <= number <= monitors@.len() && *m == monitors@[number - 1],
            None => number == 0 || number > monitors@.len(),
        },
{
    if number == 0 || number as usize > monitors.len() {
        return None;
    }
    Some(&monitors[(number - 1) as usize])
}

/// The x position of the rectangle `side` selects inside `work_area`.
pub open spec fn placement_x(work_area: Rect, side: Side) -> int {
    match side {
        Side::Left => work_area.left as int,
        Side::Right => work_area.left + (work_area.right - work_area.left) / 2,
    }
}

/// Splits a monitor's work area vertically in half and returns the absolute
/// rectangle for the requested side as `(x, y, width, height)`. Both halves
/// are `width / 2` wide under truncating integer division, so on an
/// odd-width work area the two halves together leave one pixel column
/// uncovered.
pub fn calculate_window_position(monitor: &MonitorInfo, side: &Side) -> (r: (
    i32,
    i32,
    i32,
    i32,
))
    requires
        rect_wf(monitor.work_area),
    ensures
        r.0 == placement_x(monitor.work_area, *side),
        r.1 == monitor.work_area.top,
        r.2 == (monitor.work_area.right - monitor.work_area.left) / 2,
        r.3 == monitor.work_area.bottom - monitor.work_area.top,
{
    let work_area = &monitor.work_area;
    let width = work_area.right - work_area.left;
    let height = work_area.bottom - work_area.top;
    match side {
        Side::Left => (work_area.left, work_area.top, width / 2, height),
        Side::Right => (
            work_area.left + width / 2,
            work_area.top,
            width / 2,
            height,
        ),
    }
}

/// The two halves exactly tile the work area's width but for the remainder
/// of the integer division: the right half starts where the left half ends,
/// both are equally wide, and together they span `width - width % 2`
/// columns of the `width` available.
pub proof fn lemma_halves_tile_work_area(m: MonitorInfo)
    requires
        rect_wf(m.work_area),
    ensures
        placement_x(m.work_area, Side::Right) == placement_x(
            m.work_area,
            Side::Left,
        ) + (m.work_area.right - m.work_area.left) / 2,
        2 * ((m.work_area.right - m.work_area.left) / 2) == (m.work_area.right
            - m.work_area.left) - (m.work_area.right - m.work_area.left) % 2,
{
    let w = m.work_area.right - m.work_area.left;
    vstd::arithmetic::div_mod::lemma_fundamental_div_mod(w, 2);
}

} // verus!
