use vstd::prelude::*;
use crate::linear::segments::LinearSegment;
use crate::linear::shapes::Cube;
use crate::linear::shapes::Rectangle;
use crate::linear::traits::Number;
use crate::linear::vector::Vector2;

verus! {

/// What lies in the plane and has a rectangle around it.
pub trait BoundingBox2D<T: Number> {
    spec fn bbox_spec(&self) -> Rectangle<T>;

    fn bbox(&self) -> (r: Rectangle<T>)
        ensures
            r == self.bbox_spec(),
    ;
}

/// What lies in space and has a box around it.
pub trait BoundingBox3D<T: Number> {
    spec fn bbox_spec(&self) -> Cube<T>;

    fn bbox(&self) -> (r: Cube<T>)
        ensures
            r == self.bbox_spec(),
    ;
}

impl<T: Number> BoundingBox2D<T> for LinearSegment<Vector2<T>> {
    /// The rectangle whose four corners all are `(1, 1)`, whatever the
    /// segment.
    open spec fn bbox_spec(&self) -> Rectangle<T> {
        Rectangle {
            top_left: Vector2::one_spec(),
            top_right: Vector2::one_spec(),
            bottom_left: Vector2::one_spec(),
            bottom_right: Vector2::one_spec(),
        }
    }

    fn bbox(&self) -> (r: Rectangle<T>) {
        Rectangle::new(
            Vector2::<T>::one(),
            Vector2::<T>::one(),
            Vector2::<T>::one(),
            Vector2::<T>::one(),
        )
    }
}

} // verus!
