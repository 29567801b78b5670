//! Points, sizes and rectangles in whole layout units.
use vstd::prelude::*;

verus! {

/// A position; `x` grows to the right and `y` downwards.
#[derive(Clone, Copy, Debug, PartialEq, Eq, Structural)]
pub struct Point {
    pub x: i64,
    pub y: i64,
}

/// An extent; a width and a height are never negative.
#[derive(Clone, Copy, Debug, PartialEq, Eq, Structural)]
pub struct Size {
    pub width: u32,
    pub height: u32,
}

/// An axis-aligned rectangle: its top-left corner and its size.
#[derive(Clone, Copy, Debug, PartialEq, Eq, Structural)]
pub struct Rect {
    pub x: i64,
    pub y: i64,
    pub width: u32,
    pub height: u32,
}

impl Point {
    pub fn new(x: i64, y: i64) -> (r: Point)
        ensures
            r.x == x,
            r.y == y,
    {
        Point { x, y }
    }
}

impl Size {
    pub fn new(width: u32, height: u32) -> (r: Size)
        ensures
            r.width == width,
            r.height == height,
    {
        Size { width, height }
    }
}

impl Rect {
    pub fn new(origin: Point, size: Size) -> (r: Rect)
        ensures
            r.x == origin.x,
            r.y == origin.y,
            r.width == size.width,
            r.height == size.height,
    {
        Rect { x: origin.x, y: origin.y, width: size.width, height: size.height }
    }
}

} // verus!
