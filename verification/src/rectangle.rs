//! Axis-aligned rectangles in integer coordinates.

use vstd::prelude::*;
use crate::point::Point;

verus! {

/// An axis-aligned rectangle: origin plus extent.
#[derive(Debug, Copy, Clone, Eq, PartialEq, Structural)]
pub struct Rectangle {
    pub x: i32,
    pub y: i32,
    pub width: i32,
    pub height: i32,
}

impl Rectangle {
    /// creates a new rectangle
    pub fn new(x: i32, y: i32, width: i32, height: i32) -> (r: Rectangle)
        ensures
            r.x == x,
            r.y == y,
            r.width == width,
            r.height == height,
    {
        Rectangle { x, y, width, height }
    }

    /// returns if the other rectangle overlaps with this one
    pub fn overlaps_rectangle(&self, other: &Rectangle) -> (r: bool)
        requires
            i32::MIN <= self.x + self.width <= i32::MAX,
            i32::MIN <= self.y + self.height <= i32::MAX,
            i32::MIN <= other.x + other.width <= i32::MAX,
            i32::MIN <= other.y + other.height <= i32::MAX,
        ensures
            r == {
                &&& self.x < other.x + other.width
                &&& self.x + self.width > other.x
                &&& self.y < other.y + other.height
                &&& self.y + self.height > other.y
            },
    {
        self.x < (other.x + other.width) && (self.x + self.width) > other.x
            && self.y < (other.y + other.height) && (self.y + self.height) > other.y
    }

    /// returns if the other rectangle is fully contained by this one
    pub fn contains_rectangle(&self, other: &Rectangle) -> (r: bool)
        requires
            i32::MIN <= self.x + self.width <= i32::MAX,
            i32::MIN <= self.y + self.height <= i32::MAX,
            i32::MIN <= other.x + other.width <= i32::MAX,
            i32::MIN <= other.y + other.height <= i32::MAX,
        ensures
            r == {
                &&& other.x >= self.x
                &&& other.x + other.width <= self.x + self.width
                &&& other.y >= self.y
                &&& other.y + other.height <= self.y + self.height
            },
    {
        other.x >= self.x && other.x + other.width <= self.x + self.width
            && other.y >= self.y && other.y + other.height <= self.y + self.height
    }

    /// returns if the point is inside this rectangle
    pub fn contains_point(&self, point: Point) -> (r: bool)
        requires
            i32::MIN <= self.x + self.width <= i32::MAX,
            i32::MIN <= self.y + self.height <= i32::MAX,
        ensures
            r == {
                &&& point.x >= self.x
                &&& point.x <= self.x + self.width
                &&& point.y >= self.y
                &&& point.y <= self.y + self.height
            },
    {
        point.x >= self.x && point.x <= (self.x + self.width)
            && point.y >= self.y && point.y <= (self.y + self.height)
    }

    /// creates a new rectangle and inflates it in all directions
    pub fn inflate(&self, horizontal: i32, vertical: i32) -> (r: Rectangle)
        requires
            i32::MIN <= self.x - horizontal <= i32::MAX,
            i32::MIN <= self.y - vertical <= i32::MAX,
            i32::MIN <= self.width + horizontal <= i32::MAX,
            i32::MIN <= self.height + vertical <= i32::MAX,
        ensures
            r.x == self.x - horizontal,
            r.y == self.y - vertical,
            r.width == self.width + horizontal,
            r.height == self.height + vertical,
    {
        Rectangle::new(
            self.x - horizontal,
            self.y - vertical,
            self.width + horizontal,
            self.height + vertical,
        )
    }

    /// creates a new rectangle and moves it
    pub fn translate(&self, x: i32, y: i32) -> (r: Rectangle)
        requires
            i32::MIN <= self.x + x <= i32::MAX,
            i32::MIN <= self.y + y <= i32::MAX,
        ensures
            r.x == self.x + x,
            r.y == self.y + y,
            r.width == self.width,
            r.height == self.height,
    {
        Rectangle::new(self.x + x, self.y + y, self.width, self.height)
    }

    /// creates a new rectangle that contains both rectangles
    pub fn union(&self, other: Rectangle) -> (r: Rectangle)
        requires
            i32::MIN <= self.x + self.width <= i32::MAX,
            i32::MIN <= self.y + self.height <= i32::MAX,
            i32::MIN <= other.x + other.width <= i32::MAX,
            i32::MIN <= other.y + other.height <= i32::MAX,
            i32::MIN <= vstd::math::max(self.x + self.width, other.x + other.width)
                - vstd::math::min(self.x as int, other.x as int) <= i32::MAX,
            i32::MIN <= vstd::math::max(self.y + self.height, other.y + other.height)
                - vstd::math::min(self.y as int, other.y as int) <= i32::MAX,
        ensures
            r.x == vstd::math::min(self.x as int, other.x as int),
            r.y == vstd::math::min(self.y as int, other.y as int),
            r.width == vstd::math::max(self.x + self.width, other.x + other.width) - r.x,
            r.height == vstd::math::max(self.y + self.height, other.y + other.height) - r.y,
    {
        let x = if self.x < other.x { self.x } else { other.x };
        let y = if self.y < other.y { self.y } else { other.y };
        let self_right = self.x + self.width;
        let other_right = other.x + other.width;
        let right = if self_right > other_right { self_right } else { other_right };
        let self_bottom = self.y + self.height;
        let other_bottom = other.y + other.height;
        let bottom = if self_bottom > other_bottom { self_bottom } else { other_bottom };
        Rectangle::new(x, y, right - x, bottom - y)
    }
}

} // verus!
