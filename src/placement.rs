//! Whether the overlay window can still be seen on one of the monitors.
use vstd::prelude::*;

verus! {

/// Pixels by which a window may stand outside a monitor and still count as on it.
pub const VISIBLE_MARGIN: i64 = 50;

/// Where an off-screen overlay window is put back.
pub const RESET_X: i32 = 100;
pub const RESET_Y: i32 = 100;

/// A monitor's area in screen coordinates.
#[derive(Clone, Copy, Debug, PartialEq, Eq, Structural)]
pub struct MonitorArea {
    pub x: i32,
    pub y: i32,
    pub width: u32,
    pub height: u32,
}

/// The window's top-left corner lies on the monitor, widened by the margin on
/// every side (bounds excluded).
pub open spec fn visible_on(x: i32, y: i32, m: MonitorArea) -> bool {
    &&& m.x - VISIBLE_MARGIN < x
    &&& x < m.x + m.width + VISIBLE_MARGIN
    &&& m.y - VISIBLE_MARGIN < y
    &&& y < m.y + m.height + VISIBLE_MARGIN
}

pub fn is_visible_on(x: i32, y: i32, m: &MonitorArea) -> (r: bool)
    ensures
        r == visible_on(x, y, *m),
{
    let wx = x as i64;
    let wy = y as i64;
    m.x as i64 - VISIBLE_MARGIN < wx && wx < m.x as i64 + m.width as i64 + VISIBLE_MARGIN
        && m.y as i64 - VISIBLE_MARGIN < wy && wy < m.y as i64 + m.height as i64 + VISIBLE_MARGIN
}

/// Whether a window whose top-left corner is at (`x`, `y`) can be seen on one
/// of `monitors`.
pub fn visible_on_any(x: i32, y: i32, monitors: &Vec<MonitorArea>) -> (r: bool)
    ensures
        r == exists|i: int| 0 <= i < monitors@.len() && visible_on(x, y, #[trigger] monitors@[i]),
{
    let mut i: usize = 0;
    while i < monitors.len()
        invariant
            i <= monitors@.len(),
            forall|j: int| 0 <= j < i ==> !visible_on(x, y, #[trigger] monitors@[j]),
        decreases monitors@.len() - i,
    {
        if is_visible_on(x, y, &monitors[i]) {
            return true;
        }
        i = i + 1;
    }
    false
}

/// Where the window should be moved, if anywhere: back to the reset position
/// when no monitor shows it.
pub fn placement_fix(x: i32, y: i32, monitors: &Vec<MonitorArea>) -> (r: Option<(i32, i32)>)
    ensures
        r == (if exists|i: int| 0 <= i < monitors@.len() && visible_on(x, y, #[trigger] monitors@[i]) {
            None
        } else {
            Some((RESET_X, RESET_Y))
        }),
{
    if visible_on_any(x, y, monitors) {
        None
    } else {
        Some((RESET_X, RESET_Y))
    }
}

} // verus!
