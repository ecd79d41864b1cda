use vstd::prelude::*;

verus! {

/// A point in the window, in pixels, measured from the top-left corner.
#[derive(Clone, Copy, Debug, PartialEq, Eq, Structural)]
pub struct Position {
    pub x: u32,
    pub y: u32,
}

/// An RGBA color.
#[derive(Clone, Copy, Debug, PartialEq, Eq, Structural)]
pub struct Color {
    pub r: u8,
    pub g: u8,
    pub b: u8,
    pub a: u8,
}

/// An axis-aligned rectangle: its top-left corner plus its extent.
#[derive(Clone, Copy, Debug, PartialEq, Eq, Structural)]
pub struct Rect {
    pub left: u32,
    pub top: u32,
    pub width: u32,
    pub height: u32,
}

/// Two rectangles overlap when their interiors share a point; rectangles
/// that only touch along an edge or at a corner do not overlap.
pub open spec fn overlaps(a: Rect, b: Rect) -> bool {
    &&& a.left < b.left + b.width
    &&& b.left < a.left + a.width
    &&& a.top < b.top + b.height
    &&& b.top < a.top + a.height
}

impl Rect {
    /// A rectangle that can serve as a play area: positive extent, with its
    /// far edges still representable in the coordinate type.
    pub open spec fn spec_valid_viewport(self) -> bool {
        &&& 0 < self.width
        &&& 0 < self.height
        &&& self.left + self.width <= u32::MAX
        &&& self.top + self.height <= u32::MAX
    }

    /// Whether the point `p` lies inside this rectangle.
    pub open spec fn spec_contains(self, p: Position) -> bool {
        &&& self.left <= p.x < self.left + self.width
        &&& self.top <= p.y < self.top + self.height
    }

    /// Whether `self` and `other` overlap (strict interior intersection).
    pub fn intersects(&self, other: &Rect) -> (r: bool)
        ensures
            r == overlaps(*self, *other),
    {
        let al = self.left as u64;
        let at = self.top as u64;
        let aw = self.width as u64;
        let ah = self.height as u64;
        let bl = other.left as u64;
        let bt = other.top as u64;
        let bw = other.width as u64;
        let bh = other.height as u64;
        al < bl + bw && bl < al + aw && at < bt + bh && bt < at + ah
    }
}

} // verus!
