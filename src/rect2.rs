use vstd::prelude::*;
use crate::vec2::Vec2;

verus! {

/// An axis-aligned rectangle: a corner `position` and an extent `size`
/// along each axis. The size is taken as given, negative or not.
pub struct Rect2<T> {
    pub position: Vec2<T>,
    pub size: Vec2<T>,
}

impl<T> Rect2<T> {
    /// The rectangle with corner `(x, y)` and extent `(width, height)`.
    pub fn from_borders(x: T, y: T, width: T, height: T) -> (r: Rect2<T>)
        ensures
            r.position == (Vec2 { x, y }),
            r.size == (Vec2 { x: width, y: height }),
    {
        Rect2 { position: Vec2::new(x, y), size: Vec2::new(width, height) }
    }

    /// The rectangle with the given corner and extent.
    pub fn new(position: Vec2<T>, size: Vec2<T>) -> (r: Rect2<T>)
        ensures
            r.position == position,
            r.size == size,
    {
        Rect2 { position, size }
    }
}

} // verus!
