//! Readings of the idle and full-screen sensors, computed from what the host
//! reports. A failed query gives the value that suppresses movement.

use vstd::prelude::*;

verus! {

/// A window's bounds in screen coordinates.
#[derive(Clone, Copy, Debug, PartialEq, Eq, Structural)]
pub struct Rect {
    pub left: i32,
    pub top: i32,
    pub right: i32,
    pub bottom: i32,
}

/// Milliseconds between two readings of a 32-bit millisecond tick counter
/// that wraps around.
pub open spec fn ticks_between(earlier: u32, later: u32) -> int {
    if later >= earlier {
        later - earlier
    } else {
        later + 0x1_0000_0000 - earlier
    }
}

/// Time since the last user input, from the tick of that input (`None` where
/// the host could not report it) and the tick counter now. A failed query
/// reads as no idle time at all.
pub fn idle_elapsed(last_input_tick: Option<u32>, now_tick: u32) -> (r: u64)
    ensures
        last_input_tick is None ==> r == 0,
        last_input_tick matches Some(t) ==> r == ticks_between(t, now_tick),
{
    match last_input_tick {
        None => 0,
        Some(t) => {
            if now_tick >= t {
                (now_tick - t) as u64
            } else {
                now_tick as u64 + 0x1_0000_0000u64 - t as u64
            }
        },
    }
}

/// The window covers the whole primary display, starting at the origin.
pub open spec fn covers(w: Rect, screen_width: i32, screen_height: i32) -> bool {
    w.left == 0 && w.top == 0 && w.right >= screen_width && w.bottom >= screen_height
}

/// Whether the foreground window (`None` where there is none) fills the
/// primary display of the given size.
pub fn is_foreground_fullscreen(foreground: Option<Rect>, screen_width: i32, screen_height: i32) -> (r: bool)
    ensures
        foreground is None ==> !r,
        foreground matches Some(w) ==> r == covers(w, screen_width, screen_height),
{
    match foreground {
        None => false,
        Some(w) => w.left == 0 && w.top == 0 && w.right >= screen_width && w.bottom >= screen_height,
    }
}

} // verus!
