//! Small vector types for uniform values.
//!
//! Shader uniforms are floating-point on the driver's side. Verified code
//! never computes with them, so their components are carried as 32-bit bit
//! patterns (`u32`); the unverified front end converts real scalars to and
//! from bits at the boundary.

use vstd::prelude::*;

verus! {

/// Marker for scalar types that stand for the driver's floating-point
/// scalars. The bit-pattern carrier implements it here; the front end may
/// implement it for its own scalar types.
pub trait FloatingPoint {

}

impl FloatingPoint for u32 {

}

/// Common surface of the vector types: how many components a value has.
pub trait Vector {
    /// The component count, as each vector type states it.
    spec fn spec_component_count(&self) -> usize;

    /// How many scalar components a value carries.
    fn component_count(&self) -> (n: usize)
        ensures
            n == self.spec_component_count(),
    ;
}

/// A two-component vector.
#[derive(Clone, Copy, Debug, PartialEq, Eq, Structural)]
pub struct Vector2<T> {
    pub x: T,
    pub y: T,
}

impl<T> Vector2<T> {
    /// Builds the vector from its components.
    pub fn new(x: T, y: T) -> (v: Vector2<T>)
        ensures
            v == (Vector2 { x, y }),
    {
        Vector2 { x, y }
    }
}

impl<T> Vector for Vector2<T> {
    open spec fn spec_component_count(&self) -> usize {
        2
    }

    fn component_count(&self) -> usize {
        2
    }
}

/// A three-component vector.
#[derive(Clone, Copy, Debug, PartialEq, Eq, Structural)]
pub struct Vector3<T> {
    pub x: T,
    pub y: T,
    pub z: T,
}

impl<T> Vector3<T> {
    /// Builds the vector from its components.
    pub fn new(x: T, y: T, z: T) -> (v: Vector3<T>)
        ensures
            v == (Vector3 { x, y, z }),
    {
        Vector3 { x, y, z }
    }
}

impl<T> Vector for Vector3<T> {
    open spec fn spec_component_count(&self) -> usize {
        3
    }

    fn component_count(&self) -> usize {
        3
    }
}

/// A four-component vector.
#[derive(Clone, Copy, Debug, PartialEq, Eq, Structural)]
pub struct Vector4<T> {
    pub x: T,
    pub y: T,
    pub z: T,
    pub w: T,
}

impl<T> Vector4<T> {
    /// Builds the vector from its components.
    pub fn new(x: T, y: T, z: T, w: T) -> (v: Vector4<T>)
        ensures
            v == (Vector4 { x, y, z, w }),
    {
        Vector4 { x, y, z, w }
    }
}

impl<T> Vector for Vector4<T> {
    open spec fn spec_component_count(&self) -> usize {
        4
    }

    fn component_count(&self) -> usize {
        4
    }
}

} // verus!
