use vstd::prelude::*;

verus! {

/// A position, or a displacement per tick, in whole pixels. The y axis points down.
#[derive(Clone, Copy, Debug, PartialEq, Eq)]
pub struct Point {
    pub x: i64,
    pub y: i64,
}

/// An axis-aligned rectangle: its top-left corner and its size.
#[derive(Clone, Copy, Debug, PartialEq, Eq)]
pub struct Rect {
    pub x: i64,
    pub y: i64,
    pub w: i64,
    pub h: i64,
}

/// The playable area. It mirrors the client size of the host's window, which
/// the host may change between two ticks.
#[derive(Clone, Copy, Debug, PartialEq, Eq)]
pub struct Arena {
    pub width: u32,
    pub height: u32,
}

/// Whether a mathematical integer can be stored in a coordinate field.
pub open spec fn fits_coordinate(v: int) -> bool {
    i64::MIN <= v <= i64::MAX
}

} // verus!
