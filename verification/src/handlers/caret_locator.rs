//! Placing the picker window next to the text caret, inside the work area of
//! the caret's monitor.

use crate::caret_locator::Position;
use crate::handler::Handler;
use crate::handlers::BeforeOpenHandler;
use crate::handlers::HandlerKind;
use vstd::prelude::*;

verus! {

/// The caret's rectangle on the screen.
#[derive(Clone, Copy, PartialEq, Eq, Debug, Structural)]
pub struct CaretPosition {
    pub x: i32,
    pub y: i32,
    pub w: i32,
    pub h: i32,
}

/// What is known of the window to place and of the monitor that the caret
/// is on: the size of the window and the monitor's work area.
#[derive(Clone, Copy, PartialEq, Eq, Debug, Structural)]
pub struct Surroundings {
    pub width: i32,
    pub height: i32,
    pub left: i32,
    pub top: i32,
    pub right: i32,
    pub bottom: i32,
}

/// Whether `v` is a coordinate.
pub open spec fn is_i32(v: int) -> bool {
    i32::MIN <= v <= i32::MAX
}

/// `v`, or the nearer end of `lo ..= hi` where `v` lies outside.
pub open spec fn clamped(v: int, lo: int, hi: int) -> int {
    if v < lo {
        lo
    } else if v > hi {
        hi
    } else {
        v
    }
}

/// The left edge of the window before it is forced into the work area: the
/// caret's, or the work area's where the caret is left of it, or as far
/// left as it takes for caret and window to end at the right edge.
pub open spec fn wanted_x(cp: CaretPosition, s: Surroundings) -> int {
    if cp.x < s.left {
        s.left as int
    } else if cp.x + cp.w + s.width > s.right {
        s.right - cp.w - s.width
    } else {
        cp.x as int
    }
}

/// The top edge of the window before it is forced into the work area: the
/// work area's where the caret is above it, above the caret where the window
/// does not fit below, else below the caret.
pub open spec fn wanted_y(cp: CaretPosition, s: Surroundings) -> int {
    if cp.y < s.top {
        s.top as int
    } else if cp.y + cp.h + s.height > s.bottom {
        cp.y - s.height
    } else {
        cp.y + cp.h
    }
}

/// Whether the window can be placed: the place and every sum that is taken
/// on the way to it is a coordinate, and the work area is at least as large
/// as the window.
pub open spec fn placeable(cp: CaretPosition, around: Option<Surroundings>) -> bool {
    &&& is_i32(cp.y + cp.h)
    &&& around matches Some(s) ==> {
        &&& cp.x >= s.left ==> is_i32(cp.x + cp.w) && is_i32(cp.x + cp.w + s.width)
        &&& cp.x >= s.left && cp.x + cp.w + s.width > s.right ==> is_i32(s.right - cp.w) && is_i32(
            s.right - cp.w - s.width,
        )
        &&& cp.y >= s.top ==> is_i32(cp.y + cp.h + s.height)
        &&& cp.y >= s.top && cp.y + cp.h + s.height > s.bottom ==> is_i32(cp.y - s.height)
        &&& is_i32(s.right - s.width)
        &&& is_i32(s.bottom - s.height)
        &&& s.left <= s.right - s.width
        &&& s.top <= s.bottom - s.height
    }
}

/// Where to place the window. Without knowledge of the surroundings: just
/// below the caret. With it: next to the caret and inside the work area.
pub open spec fn window_position(cp: CaretPosition, around: Option<Surroundings>) -> Position {
    match around {
        None => Position { x: cp.x, y: (cp.y + cp.h) as i32 },
        Some(s) => Position {
            x: clamped(wanted_x(cp, s), s.left as int, s.right - s.width) as i32,
            y: clamped(wanted_y(cp, s), s.top as int, s.bottom - s.height) as i32,
        },
    }
}

fn fits(v: i64) -> (ok: bool)
    ensures
        ok == is_i32(v as int),
{
    -2147483648 <= v && v <= 2147483647
}

/// Tests [`placeable`].
pub fn can_place(cp: CaretPosition, around: Option<Surroundings>) -> (ok: bool)
    ensures
        ok == placeable(cp, around),
{
    let (x, y, w, h): (i64, i64, i64, i64) = (cp.x as i64, cp.y as i64, cp.w as i64, cp.h as i64);
    if !fits(y + h) {
        return false;
    }
    match around {
        None => true,
        Some(s) => {
            let (width, height): (i64, i64) = (s.width as i64, s.height as i64);
            let (right, bottom): (i64, i64) = (s.right as i64, s.bottom as i64);
            let (left, top): (i64, i64) = (s.left as i64, s.top as i64);
            if x >= left {
                if !(fits(x + w) && fits(x + w + width)) {
                    return false;
                }
                if x + w + width > right && !(fits(right - w) && fits(right - w - width)) {
                    return false;
                }
            }
            if y >= top {
                if !fits(y + h + height) {
                    return false;
                }
                if y + h + height > bottom && !fits(y - height) {
                    return false;
                }
            }
            fits(right - width) && fits(bottom - height) && left <= right - width && top <= bottom
                - height
        },
    }
}

/// A place for the picker window near the caret `cp`, inside the work area
/// where the surroundings are known.
pub fn get_window_position(cp: CaretPosition, around: Option<Surroundings>) -> (position: Position)
    requires
        placeable(cp, around),
    ensures
        position == window_position(cp, around),
        around matches Some(s) ==> s.left <= position.x <= s.right - s.width && s.top
            <= position.y <= s.bottom - s.height,
{
    match around {
        None => Position { x: cp.x, y: cp.y + cp.h },
        Some(s) => {
            let mut x = cp.x;
            let mut y = cp.y;
            if cp.x < s.left {
                x = s.left;
            } else if cp.x + cp.w + s.width > s.right {
                x = s.right - cp.w - s.width;
            }
            if cp.y < s.top {
                y = s.top;
            } else if cp.y + cp.h + s.height > s.bottom {
                y = cp.y - s.height;
            } else {
                y = cp.y + cp.h;
            }
            let max_x = s.right - s.width;
            let max_y = s.bottom - s.height;
            if x < s.left {
                x = s.left;
            } else if x > max_x {
                x = max_x;
            }
            if y < s.top {
                y = s.top;
            } else if y > max_y {
                y = max_y;
            }
            Position { x, y }
        },
    }
}

/// The before-open handler that asks for the window to be moved next to
/// the caret, whatever the reason.
pub fn get_handler() -> (handler: BeforeOpenHandler)
    ensures
        handler.callback() == HandlerKind::CaretLocator,
{
    Handler::new(HandlerKind::CaretLocator)
}

} // verus!
