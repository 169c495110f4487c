//! Axis-aligned pixel rectangles and their overlap.
use vstd::prelude::*;

verus! {

/// An axis-aligned rectangle in pixels: top-left corner `(x, y)`, size `w` by `h`.
#[derive(Clone, Copy, Debug, PartialEq, Eq, Structural)]
pub struct Rect {
    pub x: i32,
    pub y: i32,
    pub w: u32,
    pub h: u32,
}

/// A rectangle with no area covers no pixel.
pub open spec fn is_empty(r: Rect) -> bool {
    r.w == 0 || r.h == 0
}

pub open spec fn max_int(a: int, b: int) -> int {
    if a >= b { a } else { b }
}

pub open spec fn min_int(a: int, b: int) -> int {
    if a <= b { a } else { b }
}

/// Two rectangles share at least one pixel: both have area and their
/// half-open extents `[x, x + w)` and `[y, y + h)` overlap on both axes.
/// Rectangles that only touch along an edge do not overlap.
pub open spec fn overlaps(a: Rect, b: Rect) -> bool {
    &&& !is_empty(a)
    &&& !is_empty(b)
    &&& max_int(a.x as int, b.x as int) < min_int(a.x + a.w, b.x + b.w)
    &&& max_int(a.y as int, b.y as int) < min_int(a.y + a.h, b.y + b.h)
}

/// The rectangle of pixels that two overlapping rectangles share.
pub open spec fn overlap_of(a: Rect, b: Rect) -> Rect {
    let x = max_int(a.x as int, b.x as int);
    let y = max_int(a.y as int, b.y as int);
    Rect {
        x: x as i32,
        y: y as i32,
        w: (min_int(a.x + a.w, b.x + b.w) - x) as u32,
        h: (min_int(a.y + a.h, b.y + b.h) - y) as u32,
    }
}

impl Rect {
    pub fn new(x: i32, y: i32, w: u32, h: u32) -> (r: Rect)
        ensures
            r == (Rect { x, y, w, h }),
    {
        Rect { x, y, w, h }
    }

    /// Whether the two rectangles share at least one pixel.
    pub fn has_intersection(&self, other: &Rect) -> (r: bool)
        ensures
            r == overlaps(*self, *other),
    {
        if self.w == 0 || self.h == 0 || other.w == 0 || other.h == 0 {
            return false;
        }
        let left: i64 = if self.x >= other.x { self.x as i64 } else { other.x as i64 };
        let right_a: i64 = self.x as i64 + self.w as i64;
        let right_b: i64 = other.x as i64 + other.w as i64;
        let right: i64 = if right_a <= right_b { right_a } else { right_b };
        let top: i64 = if self.y >= other.y { self.y as i64 } else { other.y as i64 };
        let bottom_a: i64 = self.y as i64 + self.h as i64;
        let bottom_b: i64 = other.y as i64 + other.h as i64;
        let bottom: i64 = if bottom_a <= bottom_b { bottom_a } else { bottom_b };
        left < right && top < bottom
    }

    /// The shared pixels of two rectangles, or `None` where they do not overlap.
    pub fn intersection(&self, other: &Rect) -> (r: Option<Rect>)
        ensures
            overlaps(*self, *other) ==> r == Some(overlap_of(*self, *other)),
            !overlaps(*self, *other) ==> r is None,
    {
        if !self.has_intersection(other) {
            return None;
        }
        let left: i32 = if self.x >= other.x { self.x } else { other.x };
        let right_a: i64 = self.x as i64 + self.w as i64;
        let right_b: i64 = other.x as i64 + other.w as i64;
        let right: i64 = if right_a <= right_b { right_a } else { right_b };
        let top: i32 = if self.y >= other.y { self.y } else { other.y };
        let bottom_a: i64 = self.y as i64 + self.h as i64;
        let bottom_b: i64 = other.y as i64 + other.h as i64;
        let bottom: i64 = if bottom_a <= bottom_b { bottom_a } else { bottom_b };
        Some(Rect { x: left, y: top, w: (right - left as i64) as u32, h: (bottom - top as i64) as u32 })
    }
}

} // verus!
