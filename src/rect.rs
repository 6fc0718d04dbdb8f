use vstd::prelude::*;

use crate::math::{Point2, Vector2};

verus! {

/// The absolute value of an integer.
pub open spec fn abs(v: int) -> int {
    if v < 0 {
        -v
    } else {
        v
    }
}

/// `v` is representable as an `i32`.
pub open spec fn fits_i32(v: int) -> bool {
    i32::MIN <= v <= i32::MAX
}

/// The smaller of `a` and `b`.
pub open spec fn min_i32(a: i32, b: i32) -> i32 {
    if a <= b {
        a
    } else {
        b
    }
}

/// The larger of `a` and `b`.
pub open spec fn max_i32(a: i32, b: i32) -> i32 {
    if a <= b {
        b
    } else {
        a
    }
}

/// `v` moved into the range spanned by `a` and `b`, in either order.
pub open spec fn clamp(v: i32, a: i32, b: i32) -> i32 {
    if v < min_i32(a, b) {
        min_i32(a, b)
    } else if v > max_i32(a, b) {
        max_i32(a, b)
    } else {
        v
    }
}

fn clamp_i32(v: i32, a: i32, b: i32) -> (r: i32)
    ensures
        r == clamp(v, a, b),
{
    let (lo, hi) = if a <= b {
        (a, b)
    } else {
        (b, a)
    };
    if v < lo {
        lo
    } else if v > hi {
        hi
    } else {
        v
    }
}

/// An axis-aligned rectangle given by two corners, `(x1, y1)` and `(x2, y2)`.
///
/// The corners are not required to be ordered: see `normalized`.
#[derive(Copy, Clone, PartialEq, Eq, Debug, Structural)]
pub struct Rect<T> {
    pub x1: T,
    pub y1: T,
    pub x2: T,
    pub y2: T,
}

impl<T> Rect<T> {
    pub fn new(x1: T, y1: T, x2: T, y2: T) -> (r: Rect<T>)
        ensures
            r.x1 == x1,
            r.y1 == y1,
            r.x2 == x2,
            r.y2 == y2,
    {
        Rect { x1, y1, x2, y2 }
    }

    /// Applies `f` to each coordinate.
    pub fn map<S, F: Fn(T) -> S>(self, f: F) -> (r: Rect<S>)
        requires
            f.requires((self.x1,)),
            f.requires((self.x2,)),
            f.requires((self.y1,)),
            f.requires((self.y2,)),
        ensures
            f.ensures((self.x1,), r.x1),
            f.ensures((self.x2,), r.x2),
            f.ensures((self.y1,), r.y1),
            f.ensures((self.y2,), r.y2),
    {
        Rect { x1: f(self.x1), x2: f(self.x2), y1: f(self.y1), y2: f(self.y2) }
    }
}

impl Rect<i32> {
    /// The horizontal extent, whatever the order of the corners.
    pub open spec fn spec_width(self) -> int {
        abs(self.x2 - self.x1)
    }

    /// The vertical extent, whatever the order of the corners.
    pub open spec fn spec_height(self) -> int {
        abs(self.y2 - self.y1)
    }

    /// Both extents are representable as `i32`.
    pub open spec fn has_i32_extent(self) -> bool {
        self.spec_width() <= i32::MAX && self.spec_height() <= i32::MAX
    }

    /// The corners are ordered: `(x1, y1)` is the minimum, `(x2, y2)` the maximum.
    pub open spec fn is_normal(self) -> bool {
        self.x1 <= self.x2 && self.y1 <= self.y2
    }

    pub open spec fn spec_normalized(self) -> Rect<i32> {
        Rect {
            x1: if self.x1 <= self.x2 { self.x1 } else { self.x2 },
            y1: if self.y1 <= self.y2 { self.y1 } else { self.y2 },
            x2: if self.x1 <= self.x2 { self.x2 } else { self.x1 },
            y2: if self.y1 <= self.y2 { self.y2 } else { self.y1 },
        }
    }

    pub open spec fn spec_contains(self, p: Point2<i32>) -> bool {
        let n = self.spec_normalized();
        n.x1 <= p.x <= n.x2 && n.y1 <= p.y <= n.y2
    }

    /// Every coordinate of `self` lies in the range that `bounds` spans on
    /// its axis.
    pub open spec fn in_span(self, bounds: Rect<i32>) -> bool {
        let b = bounds.spec_normalized();
        &&& b.x1 <= self.x1 <= b.x2
        &&& b.x1 <= self.x2 <= b.x2
        &&& b.y1 <= self.y1 <= b.y2
        &&& b.y1 <= self.y2 <= b.y2
    }

    pub open spec fn spec_clamped(self, bounds: Rect<i32>) -> Rect<i32> {
        Rect {
            x1: clamp(self.x1, bounds.x1, bounds.x2),
            y1: clamp(self.y1, bounds.y1, bounds.y2),
            x2: clamp(self.x2, bounds.x1, bounds.x2),
            y2: clamp(self.y2, bounds.y1, bounds.y2),
        }
    }

    /// `self` lies fully inside `bounds`, edges included, with ordered corners.
    pub open spec fn within(self, bounds: Rect<i32>) -> bool {
        &&& bounds.x1 <= self.x1 <= self.x2 <= bounds.x2
        &&& bounds.y1 <= self.y1 <= self.y2 <= bounds.y2
    }

    pub fn zero() -> (r: Rect<i32>)
        ensures
            r == (Rect::<i32> { x1: 0, y1: 0, x2: 0, y2: 0 }),
    {
        Rect { x1: 0, x2: 0, y1: 0, y2: 0 }
    }

    /// A rectangle with one corner at the origin and the other at `(w, h)`.
    pub fn origin(w: i32, h: i32) -> (r: Rect<i32>)
        ensures
            r == (Rect::<i32> { x1: 0, y1: 0, x2: w, y2: h }),
    {
        Rect::new(0, 0, w, h)
    }

    /// Scales the second corner by `(x, y)`; the first corner stays.
    pub fn scale(&self, x: i32, y: i32) -> (r: Rect<i32>)
        requires
            fits_i32(self.x2 * x),
            fits_i32(self.y2 * y),
        ensures
            r.x1 == self.x1,
            r.y1 == self.y1,
            r.x2 == self.x2 * x,
            r.y2 == self.y2 * y,
    {
        Rect { x1: self.x1, y1: self.y1, x2: self.x2 * x, y2: self.y2 * y }
    }

    /// Moves the rectangle so that its first corner is at `(x, y)`.
    pub fn translate(&self, x: i32, y: i32) -> (r: Rect<i32>)
        requires
            fits_i32(self.x2 - self.x1),
            fits_i32(self.y2 - self.y1),
            fits_i32(x + (self.x2 - self.x1)),
            fits_i32(y + (self.y2 - self.y1)),
        ensures
            r.x1 == x,
            r.y1 == y,
            r.x2 == x + (self.x2 - self.x1),
            r.y2 == y + (self.y2 - self.y1),
    {
        Rect { x1: x, y1: y, x2: x + (self.x2 - self.x1), y2: y + (self.y2 - self.y1) }
    }

    /// Both corners coincide.
    pub fn is_empty(&self) -> (b: bool)
        ensures
            b == (self.x1 == self.x2 && self.y1 == self.y2),
    {
        self.x1 == self.x2 && self.y1 == self.y2
    }

    pub fn is_zero(&self) -> (b: bool)
        ensures
            b == (self.x1 == 0 && self.x2 == 0 && self.y1 == 0 && self.y2 == 0),
    {
        self.x1 == 0 && self.x2 == 0 && self.y1 == 0 && self.y2 == 0
    }

    pub fn width(&self) -> (w: i32)
        requires
            self.spec_width() <= i32::MAX,
        ensures
            w == self.spec_width(),
    {
        let w = self.x2 - self.x1;
        if w < 0 {
            -w
        } else {
            w
        }
    }

    pub fn height(&self) -> (h: i32)
        requires
            self.spec_height() <= i32::MAX,
        ensures
            h == self.spec_height(),
    {
        let h = self.y2 - self.y1;
        if h < 0 {
            -h
        } else {
            h
        }
    }

    /// The minimum corner.
    pub fn min(&self) -> (p: Point2<i32>)
        ensures
            p.x == self.spec_normalized().x1,
            p.y == self.spec_normalized().y1,
    {
        Point2::new(
            if self.x1 <= self.x2 {
                self.x1
            } else {
                self.x2
            },
            if self.y1 <= self.y2 {
                self.y1
            } else {
                self.y2
            },
        )
    }

    /// The maximum corner.
    pub fn max(&self) -> (p: Point2<i32>)
        ensures
            p.x == self.spec_normalized().x2,
            p.y == self.spec_normalized().y2,
    {
        Point2::new(
            if self.x1 <= self.x2 {
                self.x2
            } else {
                self.x1
            },
            if self.y1 <= self.y2 {
                self.y2
            } else {
                self.y1
            },
        )
    }

    /// The center, rounded towards the minimum corner.
    pub fn center(&self) -> (p: Point2<i32>)
        requires
            self.has_i32_extent(),
        ensures
            p.x == self.spec_normalized().x1 + self.spec_width() / 2,
            p.y == self.spec_normalized().y1 + self.spec_height() / 2,
    {
        let r = self.normalized();
        let w = r.width();
        let h = r.height();
        Point2::new(r.x1 + w / 2, r.y1 + h / 2)
    }

    /// Half of the larger extent, rounded down.
    pub fn radius(&self) -> (r: i32)
        requires
            self.has_i32_extent(),
        ensures
            r == (if self.spec_width() > self.spec_height() {
                self.spec_width()
            } else {
                self.spec_height()
            }) / 2,
    {
        let w = self.width();
        let h = self.height();
        if w > h {
            w / 2
        } else {
            h / 2
        }
    }

    /// `p` lies within the rectangle, edges included, whatever the order of
    /// its corners.
    pub fn contains(&self, p: Point2<i32>) -> (b: bool)
        ensures
            b == self.spec_contains(p),
    {
        let n = self.normalized();
        p.x >= n.x1 && p.x <= n.x2 && p.y >= n.y1 && p.y <= n.y2
    }

    /// The interiors of the two rectangles overlap.
    pub fn intersects(&self, other: Rect<i32>) -> (b: bool)
        ensures
            b == (self.y2 > other.y1 && self.y1 < other.y2 && self.x1 < other.x2 && self.x2
                > other.x1),
    {
        self.y2 > other.y1 && self.y1 < other.y2 && self.x1 < other.x2 && self.x2 > other.x1
    }

    /// The same rectangle with its corners ordered.
    pub fn normalized(&self) -> (r: Rect<i32>)
        ensures
            r == self.spec_normalized(),
    {
        let (x1, x2) = if self.x1 <= self.x2 {
            (self.x1, self.x2)
        } else {
            (self.x2, self.x1)
        };
        let (y1, y2) = if self.y1 <= self.y2 {
            (self.y1, self.y2)
        } else {
            (self.y2, self.y1)
        };
        Rect::new(x1, y1, x2, y2)
    }

    /// Moves each coordinate into the range that `bounds` spans on its axis,
    /// whatever the order of the corners of `bounds`.
    pub fn clamped(&self, bounds: Rect<i32>) -> (r: Rect<i32>)
        ensures
            r == self.spec_clamped(bounds),
            self.in_span(bounds) ==> r == *self,
    {
        Rect::new(
            clamp_i32(self.x1, bounds.x1, bounds.x2),
            clamp_i32(self.y1, bounds.y1, bounds.y2),
            clamp_i32(self.x2, bounds.x1, bounds.x2),
            clamp_i32(self.y2, bounds.y1, bounds.y2),
        )
    }

    /// Moves both corners by `v`.
    pub fn add(self, v: Vector2<i32>) -> (r: Rect<i32>)
        requires
            fits_i32(self.x1 + v.x),
            fits_i32(self.x2 + v.x),
            fits_i32(self.y1 + v.y),
            fits_i32(self.y2 + v.y),
        ensures
            r == self.add_spec(v),
    {
        Rect { x1: self.x1 + v.x, y1: self.y1 + v.y, x2: self.x2 + v.x, y2: self.y2 + v.y }
    }

    /// Moves both corners by `v`, in place.
    pub fn add_assign(&mut self, v: Vector2<i32>)
        requires
            fits_i32(old(self).x1 + v.x),
            fits_i32(old(self).x2 + v.x),
            fits_i32(old(self).y1 + v.y),
            fits_i32(old(self).y2 + v.y),
        ensures
            *final(self) == old(self).add_spec(v),
    {
        self.x1 = self.x1 + v.x;
        self.y1 = self.y1 + v.y;
        self.x2 = self.x2 + v.x;
        self.y2 = self.y2 + v.y;
    }

    /// Moves both corners by `-v`.
    pub fn sub(self, v: Vector2<i32>) -> (r: Rect<i32>)
        requires
            fits_i32(self.x1 - v.x),
            fits_i32(self.x2 - v.x),
            fits_i32(self.y1 - v.y),
            fits_i32(self.y2 - v.y),
        ensures
            r == self.sub_spec(v),
    {
        Rect { x1: self.x1 - v.x, y1: self.y1 - v.y, x2: self.x2 - v.x, y2: self.y2 - v.y }
    }

    /// Moves both corners by `-v`, in place.
    pub fn sub_assign(&mut self, v: Vector2<i32>)
        requires
            fits_i32(old(self).x1 - v.x),
            fits_i32(old(self).x2 - v.x),
            fits_i32(old(self).y1 - v.y),
            fits_i32(old(self).y2 - v.y),
        ensures
            *final(self) == old(self).sub_spec(v),
    {
        self.x1 = self.x1 - v.x;
        self.y1 = self.y1 - v.y;
        self.x2 = self.x2 - v.x;
        self.y2 = self.y2 - v.y;
    }

    /// Scales every coordinate by `s`.
    pub fn mul(self, s: i32) -> (r: Rect<i32>)
        requires
            fits_i32(self.x1 * s),
            fits_i32(self.x2 * s),
            fits_i32(self.y1 * s),
            fits_i32(self.y2 * s),
        ensures
            r == (Rect::<i32> {
                x1: (self.x1 * s) as i32,
                y1: (self.y1 * s) as i32,
                x2: (self.x2 * s) as i32,
                y2: (self.y2 * s) as i32,
            }),
    {
        Rect { x1: self.x1 * s, y1: self.y1 * s, x2: self.x2 * s, y2: self.y2 * s }
    }

    pub open spec fn add_spec(self, v: Vector2<i32>) -> Rect<i32> {
        Rect {
            x1: (self.x1 + v.x) as i32,
            y1: (self.y1 + v.y) as i32,
            x2: (self.x2 + v.x) as i32,
            y2: (self.y2 + v.y) as i32,
        }
    }

    pub open spec fn sub_spec(self, v: Vector2<i32>) -> Rect<i32> {
        Rect {
            x1: (self.x1 - v.x) as i32,
            y1: (self.y1 - v.y) as i32,
            x2: (self.x2 - v.x) as i32,
            y2: (self.y2 - v.y) as i32,
        }
    }
}

impl Rect<u32> {
    pub open spec fn spec_width(self) -> int {
        abs(self.x2 - self.x1)
    }

    pub open spec fn spec_height(self) -> int {
        abs(self.y2 - self.y1)
    }

    pub fn width(&self) -> (w: u32)
        ensures
            w == self.spec_width(),
    {
        if self.x2 >= self.x1 {
            self.x2 - self.x1
        } else {
            self.x1 - self.x2
        }
    }

    pub fn height(&self) -> (h: u32)
        ensures
            h == self.spec_height(),
    {
        if self.y2 >= self.y1 {
            self.y2 - self.y1
        } else {
            self.y1 - self.y2
        }
    }
}

/// Normalizing is idempotent, yields ordered corners, and keeps the width
/// and the height.
pub proof fn lemma_normalized_idempotent(r: Rect<i32>)
    ensures
        r.spec_normalized().spec_normalized() == r.spec_normalized(),
        r.spec_normalized().is_normal(),
        r.spec_normalized().spec_width() == r.spec_width(),
        r.spec_normalized().spec_height() == r.spec_height(),
{
}

/// A rectangle contains each of its four corners.
pub proof fn lemma_contains_corners(r: Rect<i32>)
    ensures
        r.spec_contains(Point2 { x: r.x1, y: r.y1 }),
        r.spec_contains(Point2 { x: r.x2, y: r.y1 }),
        r.spec_contains(Point2 { x: r.x1, y: r.y2 }),
        r.spec_contains(Point2 { x: r.x2, y: r.y2 }),
{
}

/// A point one unit beyond any edge of the normalized rectangle is not
/// contained.
pub proof fn lemma_outside_edges(r: Rect<i32>, p: Point2<i32>)
    requires
        p.x == r.spec_normalized().x1 - 1 || p.x == r.spec_normalized().x2 + 1 || p.y
            == r.spec_normalized().y1 - 1 || p.y == r.spec_normalized().y2 + 1,
    ensures
        !r.spec_contains(p),
{
}

/// For ordered rectangles and bounds, clamping yields a rectangle fully
/// inside the bounds; clamping a rectangle already inside the bounds changes
/// nothing.
pub proof fn lemma_clamped_within(r: Rect<i32>, bounds: Rect<i32>)
    ensures
        r.is_normal() && bounds.is_normal() ==> r.spec_clamped(bounds).within(bounds),
        r.within(bounds) ==> r.spec_clamped(bounds) == r,
        r.in_span(bounds) ==> r.spec_clamped(bounds) == r,
{
}

} // verus!
