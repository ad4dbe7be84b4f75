//! Vectors of two, three and four components, and line segments between
//! two vectors. They are plain values: any components make a vector.

use vstd::prelude::*;

verus! {

/// Marks the vector types. It carries no operation.
pub trait Vector {

}

/// A vector in the plane.
pub struct Vector2D<T> {
    pub x: T,
    pub y: T,
}

/// A vector in space.
pub struct Vector3D<T> {
    pub x: T,
    pub y: T,
    pub z: T,
}

/// A vector of four components.
pub struct Vector4D<T> {
    pub w: T,
    pub x: T,
    pub y: T,
    pub z: T,
}

impl<T> Vector for Vector2D<T> {

}

impl<T> Vector for Vector3D<T> {

}

impl<T> Vector for Vector4D<T> {

}

impl<T: Copy> Copy for Vector2D<T> {

}

impl<T: Clone> Clone for Vector2D<T> {
    /// A vector whose components are clones of this one's: for a `Copy` type
    /// such as a number, the same vector.
    fn clone(&self) -> (r: Self)
        ensures
            cloned(self.x, r.x),
            cloned(self.y, r.y),
    {
        Vector2D { x: self.x.clone(), y: self.y.clone() }
    }
}

impl<T: Copy> Copy for Vector3D<T> {

}

impl<T: Clone> Clone for Vector3D<T> {
    /// A vector whose components are clones of this one's: for a `Copy` type
    /// such as a number, the same vector.
    fn clone(&self) -> (r: Self)
        ensures
            cloned(self.x, r.x),
            cloned(self.y, r.y),
            cloned(self.z, r.z),
    {
        Vector3D { x: self.x.clone(), y: self.y.clone(), z: self.z.clone() }
    }
}

impl<T: Copy> Copy for Vector4D<T> {

}

impl<T: Clone> Clone for Vector4D<T> {
    /// A vector whose components are clones of this one's: for a `Copy` type
    /// such as a number, the same vector.
    fn clone(&self) -> (r: Self)
        ensures
            cloned(self.w, r.w),
            cloned(self.x, r.x),
            cloned(self.y, r.y),
            cloned(self.z, r.z),
    {
        Vector4D { w: self.w.clone(), x: self.x.clone(), y: self.y.clone(), z: self.z.clone() }
    }
}

impl<T> Vector2D<T> {
    /// The vector with the given components.
    pub fn new(x: T, y: T) -> (v: Self)
        ensures
            v == (Vector2D { x, y }),
    {
        Self { x, y }
    }
}

impl<T: Copy> Vector2D<T> {
    /// The vector whose components are the first two values of `v`, which
    /// must hold at least two. Further values are ignored.
    pub fn default(v: &[T]) -> (r: Self)
        requires
            v@.len() >= 2,
        ensures
            r == (Vector2D { x: v@[0], y: v@[1] }),
    {
        Self { x: v[0], y: v[1] }
    }
}

impl<T: Default> Default for Vector2D<T> {
    /// The vector whose components are both the default value of `T`: for a
    /// number type, the zero vector.
    fn default() -> (r: Self)
        ensures
            call_ensures(T::default, (), r.x),
            call_ensures(T::default, (), r.y),
    {
        Self { x: T::default(), y: T::default() }
    }
}

impl<T> Vector3D<T> {
    /// The vector with the given components.
    pub fn new(x: T, y: T, z: T) -> (v: Self)
        ensures
            v == (Vector3D { x, y, z }),
    {
        Self { x, y, z }
    }
}

/// A line segment in the plane. The two ends may coincide.
pub struct Line2D<T> {
    pub start: Vector2D<T>,
    pub end: Vector2D<T>,
}

/// A line segment in space. The two ends may coincide.
pub struct Line3D<T> {
    pub start: Vector3D<T>,
    pub end: Vector3D<T>,
}

} // verus!
