use vstd::prelude::*;

verus! {

/// A raw platform scan code, as the host delivers it with a key-down event.
pub type ScanCode = u32;

/// Scan code of the `A` key.
pub const SCANCODE_A: ScanCode = 30;

/// Scan code of the `D` key.
pub const SCANCODE_D: ScanCode = 32;

/// Scan code of the left arrow key.
pub const SCANCODE_LEFT: ScanCode = 57419;

/// Scan code of the right arrow key.
pub const SCANCODE_RIGHT: ScanCode = 57421;

/// The way the player asked the paddle to go.
#[derive(Clone, Copy, Debug, PartialEq, Eq)]
pub enum Direction {
    Left,
    Right,
}

/// The direction a scan code stands for: `A` and the left arrow mean left,
/// `D` and the right arrow mean right, every other code means nothing.
pub open spec fn direction_of(scancode: ScanCode) -> Option<Direction> {
    if scancode == 30 || scancode == 57419 {
        Some(Direction::Left)
    } else if scancode == 32 || scancode == 57421 {
        Some(Direction::Right)
    } else {
        None
    }
}

impl Direction {
    /// The direction that a scan code stands for. An unrecognised code is no
    /// error: it gives `None`.
    pub fn from_scancode(scancode: ScanCode) -> (direction: Option<Direction>)
        ensures
            direction == direction_of(scancode),
    {
        if scancode == SCANCODE_A || scancode == SCANCODE_LEFT {
            Some(Direction::Left)
        } else if scancode == SCANCODE_D || scancode == SCANCODE_RIGHT {
            Some(Direction::Right)
        } else {
            None
        }
    }
}

} // verus!
