//! Small math helpers shared by the overlay widgets.

use vstd::prelude::*;

verus! {

/// Minimum of two lengths or coordinates.
pub fn min(v1: usize, v2: usize) -> (r: usize)
    ensures
        r == if v1 < v2 { v1 } else { v2 },
        r <= v1 && r <= v2,
{
    if v1 < v2 {
        v1
    } else {
        v2
    }
}

/// A three-component vector.
#[derive(Copy, Clone)]
pub struct Vector3<T> {
    pub x: T,
    pub y: T,
    pub z: T,
}

impl<T> Vector3<T> {
    pub fn new(x: T, y: T, z: T) -> (r: Self)
        ensures
            r.x == x,
            r.y == y,
            r.z == z,
    {
        Self { x, y, z }
    }
}

/// A point in three-dimensional space.
#[derive(Copy, Clone)]
pub struct Point3<T> {
    pub x: T,
    pub y: T,
    pub z: T,
}

impl<T> Point3<T> {
    pub fn new(x: T, y: T, z: T) -> (r: Self)
        ensures
            r.x == x,
            r.y == y,
            r.z == z,
    {
        Self { x, y, z }
    }
}

} // verus!
