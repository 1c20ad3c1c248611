//! RGBA tint colors with 8-bit channels.

use vstd::prelude::*;

verus! {

/// An RGBA color; each channel ranges over the full 8-bit span.
#[derive(Debug, Copy, Clone, Eq, PartialEq, Structural)]
pub struct Color {
    r: u8,
    g: u8,
    b: u8,
    a: u8,
}

impl Color {
    /// The red channel.
    pub closed spec fn spec_r(self) -> u8 {
        self.r
    }

    /// The green channel.
    pub closed spec fn spec_g(self) -> u8 {
        self.g
    }

    /// The blue channel.
    pub closed spec fn spec_b(self) -> u8 {
        self.b
    }

    /// The alpha channel.
    pub closed spec fn spec_a(self) -> u8 {
        self.a
    }

    /// construct a new color from red, green, blue and alpha
    pub fn new(r: u8, g: u8, b: u8, a: u8) -> (c: Color)
        ensures
            c.spec_r() == r,
            c.spec_g() == g,
            c.spec_b() == b,
            c.spec_a() == a,
    {
        Color { r, g, b, a }
    }

    /// construct a new color from red, green and blue, fully opaque
    pub fn rgb(r: u8, g: u8, b: u8) -> (c: Color)
        ensures
            c.spec_r() == r,
            c.spec_g() == g,
            c.spec_b() == b,
            c.spec_a() == u8::MAX,
    {
        Color { r, g, b, a: u8::MAX }
    }

    /// returns the four channels as a `(red, green, blue, alpha)` tuple
    pub fn channels(self) -> (t: (u8, u8, u8, u8))
        ensures
            t == (self.spec_r(), self.spec_g(), self.spec_b(), self.spec_a()),
    {
        (self.r, self.g, self.b, self.a)
    }

    /// adds the two colors channel by channel
    pub fn add(self, other: Color) -> (c: Color)
        requires
            self.spec_r() + other.spec_r() <= u8::MAX,
            self.spec_g() + other.spec_g() <= u8::MAX,
            self.spec_b() + other.spec_b() <= u8::MAX,
            self.spec_a() + other.spec_a() <= u8::MAX,
        ensures
            c.spec_r() == self.spec_r() + other.spec_r(),
            c.spec_g() == self.spec_g() + other.spec_g(),
            c.spec_b() == self.spec_b() + other.spec_b(),
            c.spec_a() == self.spec_a() + other.spec_a(),
    {
        Color { r: self.r + other.r, g: self.g + other.g, b: self.b + other.b, a: self.a + other.a }
    }

    /// subtracts the other color channel by channel
    pub fn sub(self, other: Color) -> (c: Color)
        requires
            self.spec_r() >= other.spec_r(),
            self.spec_g() >= other.spec_g(),
            self.spec_b() >= other.spec_b(),
            self.spec_a() >= other.spec_a(),
        ensures
            c.spec_r() == self.spec_r() - other.spec_r(),
            c.spec_g() == self.spec_g() - other.spec_g(),
            c.spec_b() == self.spec_b() - other.spec_b(),
            c.spec_a() == self.spec_a() - other.spec_a(),
    {
        Color { r: self.r - other.r, g: self.g - other.g, b: self.b - other.b, a: self.a - other.a }
    }

    /// multiplies the two colors channel by channel
    pub fn mul(self, other: Color) -> (c: Color)
        requires
            self.spec_r() * other.spec_r() <= u8::MAX,
            self.spec_g() * other.spec_g() <= u8::MAX,
            self.spec_b() * other.spec_b() <= u8::MAX,
            self.spec_a() * other.spec_a() <= u8::MAX,
        ensures
            c.spec_r() == self.spec_r() * other.spec_r(),
            c.spec_g() == self.spec_g() * other.spec_g(),
            c.spec_b() == self.spec_b() * other.spec_b(),
            c.spec_a() == self.spec_a() * other.spec_a(),
    {
        Color { r: self.r * other.r, g: self.g * other.g, b: self.b * other.b, a: self.a * other.a }
    }

    /// divides this color by the other channel by channel
    pub fn div(self, other: Color) -> (c: Color)
        requires
            other.spec_r() != 0,
            other.spec_g() != 0,
            other.spec_b() != 0,
            other.spec_a() != 0,
        ensures
            c.spec_r() == self.spec_r() / other.spec_r(),
            c.spec_g() == self.spec_g() / other.spec_g(),
            c.spec_b() == self.spec_b() / other.spec_b(),
            c.spec_a() == self.spec_a() / other.spec_a(),
    {
        Color { r: self.r / other.r, g: self.g / other.g, b: self.b / other.b, a: self.a / other.a }
    }
}

} // verus!
