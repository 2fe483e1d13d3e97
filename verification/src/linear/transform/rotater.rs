use vstd::prelude::*;
use crate::complex::quaternion::Quaternion;
use crate::linear::matrix::Matrix2;
use crate::linear::matrix::Matrix3;
use crate::linear::matrix::Matrix4;
use crate::linear::traits::FloatingPoint;
use crate::linear::traits::Number;
use crate::linear::traits::SignedNumber;
use crate::linear::vector::Vector2;

verus! {

/// What turns values of the type `M` in place: an angle, or a quaternion.
pub trait Rotation<M> {
    /// What `value` becomes.
    spec fn rotated(&self, value: M) -> M;

    fn rotate(&self, value: &mut M)
        ensures
            *final(value) == self.rotated(*old(value)),
    ;
}

impl<T: FloatingPoint> Rotation<Vector2<T>> for T {
    /// With `self` as the angle:
    /// `(x·sin - y·sin, x·sin - y·cos)`.
    open spec fn rotated(&self, value: Vector2<T>) -> Vector2<T> {
        Vector2 {
            x: value.x.mul_spec(self.sin_spec()).sub_spec(value.y.mul_spec(self.sin_spec())),
            y: value.x.mul_spec(self.sin_spec()).sub_spec(value.y.mul_spec(self.cos_spec())),
        }
    }

    fn rotate(&self, value: &mut Vector2<T>) {
        proof {
            T::arithmetic_is_total();
        }
        *value = Vector2 {
            x: value.x.mul(self.sin()).sub(value.y.mul(self.sin())),
            y: value.x.mul(self.sin()).sub(value.y.mul(self.cos())),
        }
    }
}

impl<T: FloatingPoint> Rotation<Matrix2<T>> for T {
    /// The matrix of the rotation by the angle `self`, `(cos, sin)` over
    /// `(-sin, cos)`, whatever `value` was.
    open spec fn rotated(&self, value: Matrix2<T>) -> Matrix2<T> {
        Matrix2 {
            x: Vector2 { x: self.cos_spec(), y: self.sin_spec() },
            y: Vector2 { x: self.sin_spec().neg_spec(), y: self.cos_spec() },
        }
    }

    fn rotate(&self, value: &mut Matrix2<T>) {
        proof {
            T::arithmetic_is_total();
        }
        *value = Matrix2 {
            x: Vector2 { x: self.cos(), y: self.sin() },
            y: Vector2 { x: self.sin().neg(), y: self.cos() },
        }
    }
}

impl<T: FloatingPoint> Rotation<Matrix3<T>> for Quaternion<T> {
    /// `value` times the rotation matrix of the quaternion.
    open spec fn rotated(&self, value: Matrix3<T>) -> Matrix3<T> {
        value.mul_spec(self.matrix3_spec())
    }

    fn rotate(&self, value: &mut Matrix3<T>) {
        proof {
            T::arithmetic_is_total();
        }
        *value = value.mul(Matrix3::from_quaternion(*self));
    }
}

impl<T: FloatingPoint> Rotation<Matrix4<T>> for Quaternion<T> {
    /// `value` times the rotation matrix of the quaternion.
    open spec fn rotated(&self, value: Matrix4<T>) -> Matrix4<T> {
        value.mul_spec(self.matrix4_spec())
    }

    fn rotate(&self, value: &mut Matrix4<T>) {
        proof {
            T::arithmetic_is_total();
        }
        *value = value.mul(Matrix4::from_quaternion(*self));
    }
}

} // verus!
