//! Where the text caret of the focused application is on the screen.

use vstd::prelude::*;

verus! {

/// A point on the screen, in pixels.
#[derive(Clone, Copy, PartialEq, Eq, Debug, Structural)]
pub struct Position {
    pub x: i32,
    pub y: i32,
}

/// What the operating system told about the caret.
#[derive(Clone, Copy, PartialEq, Eq, Debug, Structural)]
pub enum CaretReading {
    /// The focused thread could not be asked.
    Unavailable,
    /// The accessibility interface gave the caret's rectangle on the screen.
    Accessible { x: i32, y: i32, w: i32, h: i32 },
    /// The accessibility interface failed. The caret's corner inside the
    /// focused window was turned into a point on the screen, or could not be.
    Legacy { on_screen: Option<Position> },
}

/// Whether the lower edge of the caret that `reading` describes is on the
/// number line of the screen's coordinates.
pub open spec fn readable(reading: CaretReading) -> bool {
    reading matches CaretReading::Accessible { y, h, .. } ==> i32::MIN <= y + h <= i32::MAX
}

/// Tests [`readable`].
pub fn is_readable(reading: CaretReading) -> (ok: bool)
    ensures
        ok == readable(reading),
{
    match reading {
        CaretReading::Accessible { y, h, .. } => y.checked_add(h).is_some(),
        _ => true,
    }
}

/// The point below the caret at which to place a window: the lower left
/// corner of the caret's rectangle where the accessibility interface gave
/// one, else the caret's corner on the screen, and nothing where the caret
/// could not be found.
pub fn get_caret_pos(reading: CaretReading) -> (position: Option<Position>)
    requires
        readable(reading),
    ensures
        position == match reading {
            CaretReading::Unavailable => None,
            CaretReading::Accessible { x, y, w, h } => Some(Position { x, y: (y + h) as i32 }),
            CaretReading::Legacy { on_screen } => on_screen,
        },
{
    match reading {
        CaretReading::Unavailable => None,
        CaretReading::Accessible { x, y, w, h } => Some(Position { x, y: y + h }),
        CaretReading::Legacy { on_screen } => on_screen,
    }
}

} // verus!
