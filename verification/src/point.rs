//! A two-dimensional integer point.

use vstd::prelude::*;

verus! {

/// A point (or extent) in integer coordinates.
#[derive(Debug, Copy, Clone, Eq, PartialEq, Structural)]
pub struct Point {
    pub x: i32,
    pub y: i32,
}

impl Point {
    /// Creates a new point.
    pub fn new(x: i32, y: i32) -> (p: Point)
        ensures
            p.x == x,
            p.y == y,
    {
        Point { x, y }
    }
}

} // verus!
