use vstd::prelude::*;
use crate::complex::quaternion::Quaternion;
use crate::linear::matrix::Matrix2;
use crate::linear::matrix::Matrix3;
use crate::linear::matrix::Matrix4;
use crate::linear::traits::FloatingPoint;
use crate::linear::traits::Number;
use crate::linear::traits::SignedNumber;
use crate::linear::vector::Vector2;
use crate::linear::vector::Vector3;
use crate::linear::vector::Vector4;

verus! {

/// What can be turned.
pub trait Rotation {
    type Output;

    /// That by which it is turned: an angle, an axis with an angle, or
    /// another rotation.
    type Rotate;

    spec fn rotate_spec(&self, rotate: &Self::Rotate) -> Self::Output;

    fn rotate(&self, rotate: &Self::Rotate) -> (r: Self::Output)
        ensures
            r == self.rotate_spec(rotate),
    ;
}

impl<T: FloatingPoint> Rotation for Vector2<T> {
    type Output = Vector2<T>;

    type Rotate = T;

    /// By the angle `rotate`, in radians:
    /// `(x·cos - y·sin, x·sin - y·cos)`.
    open spec fn rotate_spec(&self, rotate: &T) -> Vector2<T> {
        Vector2 {
            x: self.x.mul_spec(rotate.cos_spec()).sub_spec(self.y.mul_spec(rotate.sin_spec())),
            y: self.x.mul_spec(rotate.sin_spec()).sub_spec(self.y.mul_spec(rotate.cos_spec())),
        }
    }

    fn rotate(&self, rotate: &T) -> (r: Vector2<T>) {
        proof {
            T::arithmetic_is_total();
        }
        Vector2 {
            x: self.x.mul(rotate.cos()).sub(self.y.mul(rotate.sin())),
            y: self.x.mul(rotate.sin()).sub(self.y.mul(rotate.cos())),
        }
    }
}

impl<T: FloatingPoint> Rotation for Matrix2<T> {
    type Output = Self;

    type Rotate = T;

    /// Each component times the component of the same place of the matrix
    /// of the rotation by the angle `rotate`, `(cos, sin)` over
    /// `(-sin, cos)`; in the second row's first place the product is formed
    /// with the sine and then negated.
    open spec fn rotate_spec(&self, rotate: &T) -> Self {
        Matrix2 {
            x: Vector2 {
                x: self.x.x.mul_spec(rotate.cos_spec()),
                y: self.x.y.mul_spec(rotate.sin_spec()),
            },
            y: Vector2 {
                x: self.y.x.mul_spec(rotate.sin_spec()).neg_spec(),
                y: self.y.y.mul_spec(rotate.cos_spec()),
            },
        }
    }

    fn rotate(&self, rotate: &T) -> (r: Self) {
        proof {
            T::arithmetic_is_total();
        }
        Self {
            x: Vector2 { x: self.x.x.mul(rotate.cos()), y: self.x.y.mul(rotate.sin()) },
            y: Vector2 { x: self.y.x.mul(rotate.sin()).neg(), y: self.y.y.mul(rotate.cos()) },
        }
    }
}

/// The matrix of the rotation about the axis `v.xyz` by the angle `v.w`, in
/// radians. The axis is taken from `v` normalized as the vector of four
/// components that it is. With `c` and `s` the cosine and the sine of the
/// angle and `t = axis·(1 - c)`, the entry in row `i` and place `j` is
/// `t.i·axis.j`, plus `c` on the diagonal, and off it plus or minus `s`
/// times the third component of the axis.
pub open spec fn axis_angle_matrix<T: FloatingPoint>(v: Vector4<T>) -> Matrix3<T> {
    let c = v.w.cos_spec();
    let s = v.w.sin_spec();
    let axis = v.normalize_spec().xyz_spec();
    let temp = axis.mul_scalar_spec(T::one_spec().sub_spec(c));
    Matrix3 {
        x: Vector3 {
            x: c.add_spec(temp.x.mul_spec(axis.x)),
            y: temp.x.mul_spec(axis.y).add_spec(s.mul_spec(axis.z)),
            z: temp.x.mul_spec(axis.z).sub_spec(s.mul_spec(axis.y)),
        },
        y: Vector3 {
            x: temp.y.mul_spec(axis.x).sub_spec(s.mul_spec(axis.z)),
            y: c.add_spec(temp.y.mul_spec(axis.y)),
            z: temp.y.mul_spec(axis.z).add_spec(s.mul_spec(axis.x)),
        },
        z: Vector3 {
            x: temp.z.mul_spec(axis.x).add_spec(s.mul_spec(axis.y)),
            y: temp.z.mul_spec(axis.y).sub_spec(s.mul_spec(axis.x)),
            z: c.add_spec(temp.z.mul_spec(axis.z)),
        },
    }
}

/// Computes the `axis_angle_matrix`.
pub fn rotation_about<T: FloatingPoint>(v: &Vector4<T>) -> (r: Matrix3<T>)
    ensures
        r == axis_angle_matrix(*v),
{
    proof {
        T::arithmetic_is_total();
    }
    let c = v.w.cos();
    let s = v.w.sin();
    let axis = v.normalize().xyz();
    let temp = axis.mul_scalar(T::one().sub(c));
    Matrix3 {
        x: Vector3 {
            x: c.add(temp.x.mul(axis.x)),
            y: temp.x.mul(axis.y).add(s.mul(axis.z)),
            z: temp.x.mul(axis.z).sub(s.mul(axis.y)),
        },
        y: Vector3 {
            x: temp.y.mul(axis.x).sub(s.mul(axis.z)),
            y: c.add(temp.y.mul(axis.y)),
            z: temp.y.mul(axis.z).add(s.mul(axis.x)),
        },
        z: Vector3 {
            x: temp.z.mul(axis.x).add(s.mul(axis.y)),
            y: temp.z.mul(axis.y).sub(s.mul(axis.x)),
            z: c.add(temp.z.mul(axis.z)),
        },
    }
}

impl<T: FloatingPoint> Rotation for Matrix3<T> {
    type Output = Self;

    type Rotate = Vector4<T>;

    /// The matrix turned about the axis `v.xyz` by the angle `v.w`: row
    /// `r` of the result is the sum of the rows of this matrix, each times
    /// the component of its name of row `r` of the `axis_angle_matrix`.
    open spec fn rotate_spec(&self, v: &Vector4<T>) -> Matrix3<T> {
        let rotate = axis_angle_matrix(*v);
        Matrix3 {
            x: self.x.mul_scalar_spec(rotate.x.x)
                .add_spec(self.y.mul_scalar_spec(rotate.x.y))
                .add_spec(self.z.mul_scalar_spec(rotate.x.z)),
            y: self.x.mul_scalar_spec(rotate.y.x)
                .add_spec(self.y.mul_scalar_spec(rotate.y.y))
                .add_spec(self.z.mul_scalar_spec(rotate.y.z)),
            z: self.x.mul_scalar_spec(rotate.z.x)
                .add_spec(self.y.mul_scalar_spec(rotate.z.y))
                .add_spec(self.z.mul_scalar_spec(rotate.z.z)),
        }
    }

    fn rotate(&self, v: &Vector4<T>) -> (r: Matrix3<T>) {
        proof {
            T::arithmetic_is_total();
        }
        let rotate = rotation_about(v);
        Matrix3 {
            x: self.x.mul_scalar(rotate.x.x)
                .add(self.y.mul_scalar(rotate.x.y))
                .add(self.z.mul_scalar(rotate.x.z)),
            y: self.x.mul_scalar(rotate.y.x)
                .add(self.y.mul_scalar(rotate.y.y))
                .add(self.z.mul_scalar(rotate.y.z)),
            z: self.x.mul_scalar(rotate.z.x)
                .add(self.y.mul_scalar(rotate.z.y))
                .add(self.z.mul_scalar(rotate.z.z)),
        }
    }
}

impl<T: FloatingPoint> Rotation for Matrix4<T> {
    type Output = Self;

    type Rotate = Vector4<T>;

    /// The transformation turned about the axis `v.xyz` by the angle
    /// `v.w`: the first three rows as those of a matrix of three rows are
    /// turned, with the rows of this matrix in the sums; the last row as it
    /// is.
    open spec fn rotate_spec(&self, v: &Vector4<T>) -> Matrix4<T> {
        let rotate = axis_angle_matrix(*v);
        Matrix4 {
            x: self.x.mul_scalar_spec(rotate.x.x)
                .add_spec(self.y.mul_scalar_spec(rotate.x.y))
                .add_spec(self.z.mul_scalar_spec(rotate.x.z)),
            y: self.x.mul_scalar_spec(rotate.y.x)
                .add_spec(self.y.mul_scalar_spec(rotate.y.y))
                .add_spec(self.z.mul_scalar_spec(rotate.y.z)),
            z: self.x.mul_scalar_spec(rotate.z.x)
                .add_spec(self.y.mul_scalar_spec(rotate.z.y))
                .add_spec(self.z.mul_scalar_spec(rotate.z.z)),
            w: self.w,
        }
    }

    fn rotate(&self, v: &Vector4<T>) -> (r: Matrix4<T>) {
        proof {
            T::arithmetic_is_total();
        }
        let rotate = rotation_about(v);
        Matrix4 {
            x: self.x.mul_scalar(rotate.x.x)
                .add(self.y.mul_scalar(rotate.x.y))
                .add(self.z.mul_scalar(rotate.x.z)),
            y: self.x.mul_scalar(rotate.y.x)
                .add(self.y.mul_scalar(rotate.y.y))
                .add(self.z.mul_scalar(rotate.y.z)),
            z: self.x.mul_scalar(rotate.z.x)
                .add(self.y.mul_scalar(rotate.z.y))
                .add(self.z.mul_scalar(rotate.z.z)),
            w: self.w,
        }
    }
}

impl<T: FloatingPoint> Rotation for Quaternion<T> {
    type Output = Quaternion<T>;

    type Rotate = Quaternion<T>;

    /// The product of this quaternion and `rotate`.
    open spec fn rotate_spec(&self, rotate: &Quaternion<T>) -> Quaternion<T> {
        self.mul_spec(*rotate)
    }

    #[inline]
    fn rotate(&self, rotate: &Quaternion<T>) -> (r: Quaternion<T>) {
        proof {
            T::arithmetic_is_total();
        }
        self.mul(*rotate)
    }
}

} // verus!
