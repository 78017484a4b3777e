//! Plain geometry values used by controls and the layout arranger.

use vstd::prelude::*;

verus! {

/// A position in a window's client area, in pixels.
#[derive(Clone, Copy, Debug, PartialEq, Eq, Structural)]
pub struct Point {
    pub x: i32,
    pub y: i32,
}

/// An extent, in pixels.
#[derive(Clone, Copy, Debug, PartialEq, Eq, Structural)]
pub struct Extent {
    pub cx: i32,
    pub cy: i32,
}

/// A rectangle given by its origin and extent, in pixels.
#[derive(Clone, Copy, Debug, PartialEq, Eq, Structural)]
pub struct Rect {
    pub x: i32,
    pub y: i32,
    pub cx: i32,
    pub cy: i32,
}

} // verus!
