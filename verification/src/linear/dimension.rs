use vstd::prelude::*;
use core::marker::PhantomData;
use crate::linear::traits::Number;
use crate::linear::vector::Vector;
use crate::linear::vector::Vector2;
use crate::linear::vector::Vector3;

verus! {

/// A space, by the types in which its positions and its rotations are
/// written down.
pub trait Dimension {
    type RotationRepresentation: Sized;

    type VectorRepresentation: Vector + Sized;
}

/// Space: positions are vectors of three components, and so are rotations,
/// as angles about the three axes.
pub struct SolidDimension<T: Number> {
    phantom: PhantomData<T>,
}

/// The plane: positions are vectors of two components, a rotation is one
/// angle.
pub struct FlatDimension<T: Number> {
    phantom: PhantomData<T>,
}

impl<T: Number> Dimension for SolidDimension<T> {
    type RotationRepresentation = Vector3<T>;

    type VectorRepresentation = Vector3<T>;
}

impl<T: Number> Dimension for FlatDimension<T> {
    type RotationRepresentation = T;

    type VectorRepresentation = Vector2<T>;
}

} // verus!
