use vstd::prelude::*;
use crate::linear::vector::Vector;

verus! {

/// Vectors of a space with a cross product.
pub trait EuclideanGeometry: Vector {
    /// In two dimensions the cross product is a single scalar, in three
    /// dimensions a vector.
    type CrossProduct;

    spec fn cross_req(self, other: Self) -> bool;

    spec fn cross_spec(self, other: Self) -> Self::CrossProduct;

    fn cross(&self, other: Self) -> (r: Self::CrossProduct)
        requires
            self.cross_req(other),
        ensures
            r == self.cross_spec(other),
    ;
}

/// Marks a space in which the parallel postulate does not hold.
pub trait NonEuclideanGeometry {
}

} // verus!
