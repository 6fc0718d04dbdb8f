use vstd::prelude::*;

verus! {

/// A point in the plane.
#[derive(Copy, Clone, PartialEq, Eq, Debug, Structural)]
pub struct Point2<T> {
    pub x: T,
    pub y: T,
}

impl<T> Point2<T> {
    pub fn new(x: T, y: T) -> (p: Point2<T>)
        ensures
            p.x == x,
            p.y == y,
    {
        Point2 { x, y }
    }
}

/// A displacement in the plane.
#[derive(Copy, Clone, PartialEq, Eq, Debug, Structural)]
pub struct Vector2<T> {
    pub x: T,
    pub y: T,
}

impl<T> Vector2<T> {
    pub fn new(x: T, y: T) -> (v: Vector2<T>)
        ensures
            v.x == x,
            v.y == y,
    {
        Vector2 { x, y }
    }
}

} // verus!
