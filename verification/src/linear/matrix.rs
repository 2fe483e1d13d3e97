use vstd::prelude::*;
use crate::linear::traits::Number;
use crate::linear::vector::Vector2;
use crate::linear::vector::Vector3;
use crate::linear::vector::Vector4;
use vstd::std_specs::convert::FromSpecImpl;

verus! {

/// A matrix with as many rows as columns.
pub trait SquareMatrix: Sized {
    spec fn identity_spec() -> Self;

    spec fn transpose_spec(self) -> Self;

    fn set_identity(&mut self)
        ensures
            *final(self) == Self::identity_spec(),
    {
        *self = Self::identity();
    }

    fn identity() -> (r: Self)
        ensures
            r == Self::identity_spec(),
    ;

    fn transpose(&self) -> (r: Self)
        ensures
            r == self.transpose_spec(),
    ;
}

/// Two vectors of two components each, named `x`, `y`.
#[derive(Clone, Copy, Debug, Default)]
pub struct Matrix2<T> {
    pub x: Vector2<T>,
    pub y: Vector2<T>,
}

/// Three vectors of two components each, named `x`, `y`, `z`.
#[derive(Clone, Copy, Debug, Default)]
pub struct Matrix2x3<T> {
    pub x: Vector2<T>,
    pub y: Vector2<T>,
    pub z: Vector2<T>,
}

/// Four vectors of two components each, named `x`, `y`, `z`, `w`.
#[derive(Clone, Copy, Debug, Default)]
pub struct Matrix2x4<T> {
    pub x: Vector2<T>,
    pub y: Vector2<T>,
    pub z: Vector2<T>,
    pub w: Vector2<T>,
}

/// Three vectors of three components each, named `x`, `y`, `z`.
#[derive(Clone, Copy, Debug, Default)]
pub struct Matrix3<T> {
    pub x: Vector3<T>,
    pub y: Vector3<T>,
    pub z: Vector3<T>,
}

/// Two vectors of three components each, named `x`, `y`.
#[derive(Clone, Copy, Debug, Default)]
pub struct Matrix3x2<T> {
    pub x: Vector3<T>,
    pub y: Vector3<T>,
}

/// Four vectors of three components each, named `x`, `y`, `z`, `w`.
#[derive(Clone, Copy, Debug, Default)]
pub struct Matrix3x4<T> {
    pub x: Vector3<T>,
    pub y: Vector3<T>,
    pub z: Vector3<T>,
    pub w: Vector3<T>,
}

/// Four vectors of four components each, named `x`, `y`, `z`, `w`.
#[derive(Clone, Copy, Debug, Default)]
pub struct Matrix4<T> {
    pub x: Vector4<T>,
    pub y: Vector4<T>,
    pub z: Vector4<T>,
    pub w: Vector4<T>,
}

/// Two vectors of four components each, named `x`, `y`.
#[derive(Clone, Copy, Debug, Default)]
pub struct Matrix4x2<T> {
    pub x: Vector4<T>,
    pub y: Vector4<T>,
}

impl<T> Matrix2<T> {
    /// The matrix of the given components, row by row.
    pub fn new(xx: T, xy: T, yx: T, yy: T) -> (m: Self)
        ensures
            m == (Matrix2 {
                x: Vector2 { x: xx, y: xy },
                y: Vector2 { x: yx, y: yy },
            }),
    {
        Matrix2 {
            x: Vector2 { x: xx, y: xy },
            y: Vector2 { x: yx, y: yy },
        }
    }

    /// The matrix of the given rows.
    pub fn from_vec(x: Vector2<T>, y: Vector2<T>) -> (m: Self)
        ensures
            m == (Matrix2 { x, y }),
    {
        Self { x, y }
    }

    /// The `x` components of the rows, from the first row on.
    pub open spec fn column_x(self) -> Vector2<T> {
        Vector2 { x: self.x.x, y: self.y.x }
    }

    /// The `y` components of the rows, from the first row on.
    pub open spec fn column_y(self) -> Vector2<T> {
        Vector2 { x: self.x.y, y: self.y.y }
    }

}

impl<T: Number> Matrix2<T> {
    /// The matrix whose components all are `value`.
    pub open spec fn splat_spec(value: T) -> Self {
        Matrix2 {
            x: Vector2::splat_spec(value),
            y: Vector2::splat_spec(value),
        }
    }

    /// Whether the component-wise sum with `rhs` may be formed.
    pub open spec fn add_req(self, rhs: Self) -> bool {
        &&& self.x.add_req(rhs.x)
        &&& self.y.add_req(rhs.y)
    }

    /// The component-wise sum with `rhs`.
    pub open spec fn add_spec(self, rhs: Self) -> Self {
        Matrix2 {
            x: self.x.add_spec(rhs.x),
            y: self.y.add_spec(rhs.y),
        }
    }

    pub fn add(self, rhs: Self) -> (r: Self)
        requires
            self.add_req(rhs),
        ensures
            r == self.add_spec(rhs),
    {
        Matrix2 {
            x: self.x.add(rhs.x),
            y: self.y.add(rhs.y),
        }
    }

    /// Whether the component-wise difference with `rhs` may be formed.
    pub open spec fn sub_req(self, rhs: Self) -> bool {
        &&& self.x.sub_req(rhs.x)
        &&& self.y.sub_req(rhs.y)
    }

    /// The component-wise difference with `rhs`.
    pub open spec fn sub_spec(self, rhs: Self) -> Self {
        Matrix2 {
            x: self.x.sub_spec(rhs.x),
            y: self.y.sub_spec(rhs.y),
        }
    }

    pub fn sub(self, rhs: Self) -> (r: Self)
        requires
            self.sub_req(rhs),
        ensures
            r == self.sub_spec(rhs),
    {
        Matrix2 {
            x: self.x.sub(rhs.x),
            y: self.y.sub(rhs.y),
        }
    }

    /// Whether the product with `rhs` may be formed.
    pub open spec fn mul_req(self, rhs: Matrix2<T>) -> bool {
        &&& self.column_x().dot_req(rhs.x)
        &&& self.column_y().dot_req(rhs.x)
        &&& self.column_x().dot_req(rhs.y)
        &&& self.column_y().dot_req(rhs.y)
    }

    /// The matrix product: component `c` of row `r` of the result is
    /// the dot product of the `c` column of this matrix with row `r` of `rhs`.
    pub open spec fn mul_spec(self, rhs: Matrix2<T>) -> Matrix2<T> {
        Matrix2 {
            x: Vector2 {
                x: self.column_x().dot_spec(rhs.x),
                y: self.column_y().dot_spec(rhs.x),
            },
            y: Vector2 {
                x: self.column_x().dot_spec(rhs.y),
                y: self.column_y().dot_spec(rhs.y),
            },
        }
    }

    pub fn mul(self, rhs: Matrix2<T>) -> (r: Matrix2<T>)
        requires
            self.mul_req(rhs),
        ensures
            r == self.mul_spec(rhs),
    {
        Matrix2 {
            x: Vector2 {
                x: self.x.x.mul(rhs.x.x).add(self.y.x.mul(rhs.x.y)),
                y: self.x.y.mul(rhs.x.x).add(self.y.y.mul(rhs.x.y)),
            },
            y: Vector2 {
                x: self.x.x.mul(rhs.y.x).add(self.y.x.mul(rhs.y.y)),
                y: self.x.y.mul(rhs.y.x).add(self.y.y.mul(rhs.y.y)),
            },
        }
    }

    /// Whether the product with the column vector `rhs` may be formed.
    pub open spec fn mul_vector_req(self, rhs: Vector2<T>) -> bool {
        &&& self.x.dot_req(rhs)
        &&& self.y.dot_req(rhs)
    }

    /// The matrix times the column vector: each component is the dot
    /// product of the row of that name with `rhs`.
    pub open spec fn mul_vector_spec(self, rhs: Vector2<T>) -> Vector2<T> {
        Vector2 { x: self.x.dot_spec(rhs), y: self.y.dot_spec(rhs) }
    }

    pub fn mul_vector(self, rhs: Vector2<T>) -> (r: Vector2<T>)
        requires
            self.mul_vector_req(rhs),
        ensures
            r == self.mul_vector_spec(rhs),
    {
        Vector2 { x: self.x.dot(&rhs), y: self.y.dot(&rhs) }
    }

}

impl<T: Number> From<T> for Matrix2<T> {
    /// Makes every component of the matrix the value given.
    fn from(value: T) -> (m: Self) {
        Matrix2 {
            x: Vector2::from(value),
            y: Vector2::from(value),
        }
    }
}

impl<T: Number> FromSpecImpl<T> for Matrix2<T> {
    open spec fn obeys_from_spec() -> bool {
        true
    }

    open spec fn from_spec(value: T) -> Self {
        Self::splat_spec(value)
    }
}

impl<T: Number> SquareMatrix for Matrix2<T> {
    /// Ones on the diagonal, zeros elsewhere.
    open spec fn identity_spec() -> Self {
        Matrix2 {
            x: Vector2 { x: T::one_spec(), y: T::zero_spec() },
            y: Vector2 { x: T::zero_spec(), y: T::one_spec() },
        }
    }

    /// The components in reverse order: the rows change places, and so
    /// do the two components of each.
    open spec fn transpose_spec(self) -> Self {
        Matrix2 {
            x: Vector2 { x: self.y.y, y: self.y.x },
            y: Vector2 { x: self.x.y, y: self.x.x },
        }
    }

    fn identity() -> (r: Self) {
        Matrix2 {
            x: Vector2 { x: T::one(), y: T::zero() },
            y: Vector2 { x: T::zero(), y: T::one() },
        }
    }

    fn transpose(&self) -> (r: Self) {
        Matrix2 {
            x: Vector2 { x: self.y.y, y: self.y.x },
            y: Vector2 { x: self.x.y, y: self.x.x },
        }
    }
}

impl<T> Matrix2x3<T> {
    /// The matrix of the given components, row by row.
    pub fn new(xx: T, xy: T, yx: T, yy: T, zx: T, zy: T) -> (m: Self)
        ensures
            m == (Matrix2x3 {
                x: Vector2 { x: xx, y: xy },
                y: Vector2 { x: yx, y: yy },
                z: Vector2 { x: zx, y: zy },
            }),
    {
        Matrix2x3 {
            x: Vector2 { x: xx, y: xy },
            y: Vector2 { x: yx, y: yy },
            z: Vector2 { x: zx, y: zy },
        }
    }

    /// The matrix of the given rows.
    pub fn from_vec(x: Vector2<T>, y: Vector2<T>, z: Vector2<T>) -> (m: Self)
        ensures
            m == (Matrix2x3 { x, y, z }),
    {
        Self { x, y, z }
    }

    /// The `x` components of the rows, from the first row on.
    pub open spec fn column_x(self) -> Vector3<T> {
        Vector3 { x: self.x.x, y: self.y.x, z: self.z.x }
    }

    /// The `y` components of the rows, from the first row on.
    pub open spec fn column_y(self) -> Vector3<T> {
        Vector3 { x: self.x.y, y: self.y.y, z: self.z.y }
    }

}

impl<T: Number> Matrix2x3<T> {
    /// Whether the component-wise sum with `rhs` may be formed.
    pub open spec fn add_req(self, rhs: Self) -> bool {
        &&& self.x.add_req(rhs.x)
        &&& self.y.add_req(rhs.y)
        &&& self.z.add_req(rhs.z)
    }

    /// The component-wise sum with `rhs`.
    pub open spec fn add_spec(self, rhs: Self) -> Self {
        Matrix2x3 {
            x: self.x.add_spec(rhs.x),
            y: self.y.add_spec(rhs.y),
            z: self.z.add_spec(rhs.z),
        }
    }

    pub fn add(self, rhs: Self) -> (r: Self)
        requires
            self.add_req(rhs),
        ensures
            r == self.add_spec(rhs),
    {
        Matrix2x3 {
            x: self.x.add(rhs.x),
            y: self.y.add(rhs.y),
            z: self.z.add(rhs.z),
        }
    }

    /// Whether the component-wise difference with `rhs` may be formed.
    pub open spec fn sub_req(self, rhs: Self) -> bool {
        &&& self.x.sub_req(rhs.x)
        &&& self.y.sub_req(rhs.y)
        &&& self.z.sub_req(rhs.z)
    }

    /// The component-wise difference with `rhs`.
    pub open spec fn sub_spec(self, rhs: Self) -> Self {
        Matrix2x3 {
            x: self.x.sub_spec(rhs.x),
            y: self.y.sub_spec(rhs.y),
            z: self.z.sub_spec(rhs.z),
        }
    }

    pub fn sub(self, rhs: Self) -> (r: Self)
        requires
            self.sub_req(rhs),
        ensures
            r == self.sub_spec(rhs),
    {
        Matrix2x3 {
            x: self.x.sub(rhs.x),
            y: self.y.sub(rhs.y),
            z: self.z.sub(rhs.z),
        }
    }

    /// Whether the product with `rhs` may be formed.
    pub open spec fn mul_req(self, rhs: Matrix3<T>) -> bool {
        &&& self.column_x().dot_req(rhs.x)
        &&& self.column_y().dot_req(rhs.x)
        &&& self.column_x().dot_req(rhs.y)
        &&& self.column_y().dot_req(rhs.y)
        &&& self.column_x().dot_req(rhs.z)
        &&& self.column_y().dot_req(rhs.z)
    }

    /// The matrix product: component `c` of row `r` of the result is
    /// the dot product of the `c` column of this matrix with row `r` of `rhs`.
    pub open spec fn mul_spec(self, rhs: Matrix3<T>) -> Matrix2x3<T> {
        Matrix2x3 {
            x: Vector2 {
                x: self.column_x().dot_spec(rhs.x),
                y: self.column_y().dot_spec(rhs.x),
            },
            y: Vector2 {
                x: self.column_x().dot_spec(rhs.y),
                y: self.column_y().dot_spec(rhs.y),
            },
            z: Vector2 {
                x: self.column_x().dot_spec(rhs.z),
                y: self.column_y().dot_spec(rhs.z),
            },
        }
    }

    pub fn mul(self, rhs: Matrix3<T>) -> (r: Matrix2x3<T>)
        requires
            self.mul_req(rhs),
        ensures
            r == self.mul_spec(rhs),
    {
        Matrix2x3 {
            x: Vector2 {
                x: self.x.x.mul(rhs.x.x).add(self.y.x.mul(rhs.x.y)).add(self.z.x.mul(rhs.x.z)),
                y: self.x.y.mul(rhs.x.x).add(self.y.y.mul(rhs.x.y)).add(self.z.y.mul(rhs.x.z)),
            },
            y: Vector2 {
                x: self.x.x.mul(rhs.y.x).add(self.y.x.mul(rhs.y.y)).add(self.z.x.mul(rhs.y.z)),
                y: self.x.y.mul(rhs.y.x).add(self.y.y.mul(rhs.y.y)).add(self.z.y.mul(rhs.y.z)),
            },
            z: Vector2 {
                x: self.x.x.mul(rhs.z.x).add(self.y.x.mul(rhs.z.y)).add(self.z.x.mul(rhs.z.z)),
                y: self.x.y.mul(rhs.z.x).add(self.y.y.mul(rhs.z.y)).add(self.z.y.mul(rhs.z.z)),
            },
        }
    }

    /// Whether the product with `rhs` may be formed.
    pub open spec fn mul_matrix3x2_req(self, rhs: Matrix3x2<T>) -> bool {
        &&& self.column_x().dot_req(rhs.x)
        &&& self.column_y().dot_req(rhs.x)
        &&& self.column_x().dot_req(rhs.y)
        &&& self.column_y().dot_req(rhs.y)
    }

    /// The matrix product: component `c` of row `r` of the result is
    /// the dot product of the `c` column of this matrix with row `r` of `rhs`.
    pub open spec fn mul_matrix3x2_spec(self, rhs: Matrix3x2<T>) -> Matrix2<T> {
        Matrix2 {
            x: Vector2 {
                x: self.column_x().dot_spec(rhs.x),
                y: self.column_y().dot_spec(rhs.x),
            },
            y: Vector2 {
                x: self.column_x().dot_spec(rhs.y),
                y: self.column_y().dot_spec(rhs.y),
            },
        }
    }

    pub fn mul_matrix3x2(self, rhs: Matrix3x2<T>) -> (r: Matrix2<T>)
        requires
            self.mul_matrix3x2_req(rhs),
        ensures
            r == self.mul_matrix3x2_spec(rhs),
    {
        Matrix2 {
            x: Vector2 {
                x: self.x.x.mul(rhs.x.x).add(self.y.x.mul(rhs.x.y)).add(self.z.x.mul(rhs.x.z)),
                y: self.x.y.mul(rhs.x.x).add(self.y.y.mul(rhs.x.y)).add(self.z.y.mul(rhs.x.z)),
            },
            y: Vector2 {
                x: self.x.x.mul(rhs.y.x).add(self.y.x.mul(rhs.y.y)).add(self.z.x.mul(rhs.y.z)),
                y: self.x.y.mul(rhs.y.x).add(self.y.y.mul(rhs.y.y)).add(self.z.y.mul(rhs.y.z)),
            },
        }
    }

}

impl<T> Matrix2x4<T> {
    /// The matrix of the given components, row by row.
    pub fn new(xx: T, xy: T, yx: T, yy: T, zx: T, zy: T, wx: T, wy: T) -> (m: Self)
        ensures
            m == (Matrix2x4 {
                x: Vector2 { x: xx, y: xy },
                y: Vector2 { x: yx, y: yy },
                z: Vector2 { x: zx, y: zy },
                w: Vector2 { x: wx, y: wy },
            }),
    {
        Matrix2x4 {
            x: Vector2 { x: xx, y: xy },
            y: Vector2 { x: yx, y: yy },
            z: Vector2 { x: zx, y: zy },
            w: Vector2 { x: wx, y: wy },
        }
    }

    /// The matrix of the given rows.
    pub fn from_vec(x: Vector2<T>, y: Vector2<T>, z: Vector2<T>, w: Vector2<T>) -> (m: Self)
        ensures
            m == (Matrix2x4 { x, y, z, w }),
    {
        Self { x, y, z, w }
    }

    /// The `x` components of the rows, from the first row on.
    pub open spec fn column_x(self) -> Vector4<T> {
        Vector4 { x: self.x.x, y: self.y.x, z: self.z.x, w: self.w.x }
    }

    /// The `y` components of the rows, from the first row on.
    pub open spec fn column_y(self) -> Vector4<T> {
        Vector4 { x: self.x.y, y: self.y.y, z: self.z.y, w: self.w.y }
    }

}

impl<T: Number> Matrix2x4<T> {
    /// Whether the component-wise sum with `rhs` may be formed.
    pub open spec fn add_req(self, rhs: Self) -> bool {
        &&& self.x.add_req(rhs.x)
        &&& self.y.add_req(rhs.y)
        &&& self.z.add_req(rhs.z)
        &&& self.w.add_req(rhs.w)
    }

    /// The component-wise sum with `rhs`.
    pub open spec fn add_spec(self, rhs: Self) -> Self {
        Matrix2x4 {
            x: self.x.add_spec(rhs.x),
            y: self.y.add_spec(rhs.y),
            z: self.z.add_spec(rhs.z),
            w: self.w.add_spec(rhs.w),
        }
    }

    pub fn add(self, rhs: Self) -> (r: Self)
        requires
            self.add_req(rhs),
        ensures
            r == self.add_spec(rhs),
    {
        Matrix2x4 {
            x: self.x.add(rhs.x),
            y: self.y.add(rhs.y),
            z: self.z.add(rhs.z),
            w: self.w.add(rhs.w),
        }
    }

    /// Whether the component-wise difference with `rhs` may be formed.
    pub open spec fn sub_req(self, rhs: Self) -> bool {
        &&& self.x.sub_req(rhs.x)
        &&& self.y.sub_req(rhs.y)
        &&& self.z.sub_req(rhs.z)
        &&& self.w.sub_req(rhs.w)
    }

    /// The component-wise difference with `rhs`.
    pub open spec fn sub_spec(self, rhs: Self) -> Self {
        Matrix2x4 {
            x: self.x.sub_spec(rhs.x),
            y: self.y.sub_spec(rhs.y),
            z: self.z.sub_spec(rhs.z),
            w: self.w.sub_spec(rhs.w),
        }
    }

    pub fn sub(self, rhs: Self) -> (r: Self)
        requires
            self.sub_req(rhs),
        ensures
            r == self.sub_spec(rhs),
    {
        Matrix2x4 {
            x: self.x.sub(rhs.x),
            y: self.y.sub(rhs.y),
            z: self.z.sub(rhs.z),
            w: self.w.sub(rhs.w),
        }
    }

    /// Whether the product with `rhs` may be formed.
    pub open spec fn mul_req(self, rhs: Matrix4<T>) -> bool {
        &&& self.column_x().dot_req(rhs.x)
        &&& self.column_y().dot_req(rhs.x)
        &&& self.column_x().dot_req(rhs.y)
        &&& self.column_y().dot_req(rhs.y)
        &&& self.column_x().dot_req(rhs.z)
        &&& self.column_y().dot_req(rhs.z)
        &&& self.column_x().dot_req(rhs.w)
        &&& self.column_y().dot_req(rhs.w)
    }

    /// The matrix product: component `c` of row `r` of the result is
    /// the dot product of the `c` column of this matrix with row `r` of `rhs`.
    pub open spec fn mul_spec(self, rhs: Matrix4<T>) -> Matrix2x4<T> {
        Matrix2x4 {
            x: Vector2 {
                x: self.column_x().dot_spec(rhs.x),
                y: self.column_y().dot_spec(rhs.x),
            },
            y: Vector2 {
                x: self.column_x().dot_spec(rhs.y),
                y: self.column_y().dot_spec(rhs.y),
            },
            z: Vector2 {
                x: self.column_x().dot_spec(rhs.z),
                y: self.column_y().dot_spec(rhs.z),
            },
            w: Vector2 {
                x: self.column_x().dot_spec(rhs.w),
                y: self.column_y().dot_spec(rhs.w),
            },
        }
    }

    pub fn mul(self, rhs: Matrix4<T>) -> (r: Matrix2x4<T>)
        requires
            self.mul_req(rhs),
        ensures
            r == self.mul_spec(rhs),
    {
        Matrix2x4 {
            x: Vector2 {
                x: self.x.x.mul(rhs.x.x)
                    .add(self.y.x.mul(rhs.x.y))
                    .add(self.z.x.mul(rhs.x.z))
                    .add(self.w.x.mul(rhs.x.w)),
                y: self.x.y.mul(rhs.x.x)
                    .add(self.y.y.mul(rhs.x.y))
                    .add(self.z.y.mul(rhs.x.z))
                    .add(self.w.y.mul(rhs.x.w)),
            },
            y: Vector2 {
                x: self.x.x.mul(rhs.y.x)
                    .add(self.y.x.mul(rhs.y.y))
                    .add(self.z.x.mul(rhs.y.z))
                    .add(self.w.x.mul(rhs.y.w)),
                y: self.x.y.mul(rhs.y.x)
                    .add(self.y.y.mul(rhs.y.y))
                    .add(self.z.y.mul(rhs.y.z))
                    .add(self.w.y.mul(rhs.y.w)),
            },
            z: Vector2 {
                x: self.x.x.mul(rhs.z.x)
                    .add(self.y.x.mul(rhs.z.y))
                    .add(self.z.x.mul(rhs.z.z))
                    .add(self.w.x.mul(rhs.z.w)),
                y: self.x.y.mul(rhs.z.x)
                    .add(self.y.y.mul(rhs.z.y))
                    .add(self.z.y.mul(rhs.z.z))
                    .add(self.w.y.mul(rhs.z.w)),
            },
            w: Vector2 {
                x: self.x.x.mul(rhs.w.x)
                    .add(self.y.x.mul(rhs.w.y))
                    .add(self.z.x.mul(rhs.w.z))
                    .add(self.w.x.mul(rhs.w.w)),
                y: self.x.y.mul(rhs.w.x)
                    .add(self.y.y.mul(rhs.w.y))
                    .add(self.z.y.mul(rhs.w.z))
                    .add(self.w.y.mul(rhs.w.w)),
            },
        }
    }

}

impl<T> Matrix3<T> {
    /// The matrix of the given components, row by row.
    pub fn new(
        xx: T, xy: T, xz: T,
        yx: T, yy: T, yz: T,
        zx: T, zy: T, zz: T,
    ) -> (m: Self)
        ensures
            m == (Matrix3 {
                x: Vector3 { x: xx, y: xy, z: xz },
                y: Vector3 { x: yx, y: yy, z: yz },
                z: Vector3 { x: zx, y: zy, z: zz },
            }),
    {
        Matrix3 {
            x: Vector3 { x: xx, y: xy, z: xz },
            y: Vector3 { x: yx, y: yy, z: yz },
            z: Vector3 { x: zx, y: zy, z: zz },
        }
    }

    /// The matrix of the given rows.
    pub fn from_vec(x: Vector3<T>, y: Vector3<T>, z: Vector3<T>) -> (m: Self)
        ensures
            m == (Matrix3 { x, y, z }),
    {
        Self { x, y, z }
    }

    /// The `x` components of the rows, from the first row on.
    pub open spec fn column_x(self) -> Vector3<T> {
        Vector3 { x: self.x.x, y: self.y.x, z: self.z.x }
    }

    /// The `y` components of the rows, from the first row on.
    pub open spec fn column_y(self) -> Vector3<T> {
        Vector3 { x: self.x.y, y: self.y.y, z: self.z.y }
    }

    /// The `z` components of the rows, from the first row on.
    pub open spec fn column_z(self) -> Vector3<T> {
        Vector3 { x: self.x.z, y: self.y.z, z: self.z.z }
    }

}

impl<T: Number> Matrix3<T> {
    /// The matrix whose components all are `value`.
    pub open spec fn splat_spec(value: T) -> Self {
        Matrix3 {
            x: Vector3::splat_spec(value),
            y: Vector3::splat_spec(value),
            z: Vector3::splat_spec(value),
        }
    }

    /// Whether the component-wise sum with `rhs` may be formed.
    pub open spec fn add_req(self, rhs: Self) -> bool {
        &&& self.x.add_req(rhs.x)
        &&& self.y.add_req(rhs.y)
        &&& self.z.add_req(rhs.z)
    }

    /// The component-wise sum with `rhs`.
    pub open spec fn add_spec(self, rhs: Self) -> Self {
        Matrix3 {
            x: self.x.add_spec(rhs.x),
            y: self.y.add_spec(rhs.y),
            z: self.z.add_spec(rhs.z),
        }
    }

    pub fn add(self, rhs: Self) -> (r: Self)
        requires
            self.add_req(rhs),
        ensures
            r == self.add_spec(rhs),
    {
        Matrix3 {
            x: self.x.add(rhs.x),
            y: self.y.add(rhs.y),
            z: self.z.add(rhs.z),
        }
    }

    /// Whether the component-wise difference with `rhs` may be formed.
    pub open spec fn sub_req(self, rhs: Self) -> bool {
        &&& self.x.sub_req(rhs.x)
        &&& self.y.sub_req(rhs.y)
        &&& self.z.sub_req(rhs.z)
    }

    /// The component-wise difference with `rhs`.
    pub open spec fn sub_spec(self, rhs: Self) -> Self {
        Matrix3 {
            x: self.x.sub_spec(rhs.x),
            y: self.y.sub_spec(rhs.y),
            z: self.z.sub_spec(rhs.z),
        }
    }

    pub fn sub(self, rhs: Self) -> (r: Self)
        requires
            self.sub_req(rhs),
        ensures
            r == self.sub_spec(rhs),
    {
        Matrix3 {
            x: self.x.sub(rhs.x),
            y: self.y.sub(rhs.y),
            z: self.z.sub(rhs.z),
        }
    }

    /// Whether the product with `rhs` may be formed.
    pub open spec fn mul_req(self, rhs: Matrix3<T>) -> bool {
        &&& rhs.x.dot_req(self.column_x())
        &&& rhs.x.dot_req(self.column_y())
        &&& rhs.x.dot_req(self.column_z())
        &&& rhs.y.dot_req(self.column_x())
        &&& rhs.y.dot_req(self.column_y())
        &&& rhs.y.dot_req(self.column_z())
        &&& rhs.z.dot_req(self.column_x())
        &&& rhs.z.dot_req(self.column_y())
        &&& rhs.z.dot_req(self.column_z())
    }

    /// The matrix product: component `c` of row `r` of the result is
    /// the dot product of row `r` of `rhs` with the `c` column of this matrix.
    pub open spec fn mul_spec(self, rhs: Matrix3<T>) -> Matrix3<T> {
        Matrix3 {
            x: Vector3 {
                x: rhs.x.dot_spec(self.column_x()),
                y: rhs.x.dot_spec(self.column_y()),
                z: rhs.x.dot_spec(self.column_z()),
            },
            y: Vector3 {
                x: rhs.y.dot_spec(self.column_x()),
                y: rhs.y.dot_spec(self.column_y()),
                z: rhs.y.dot_spec(self.column_z()),
            },
            z: Vector3 {
                x: rhs.z.dot_spec(self.column_x()),
                y: rhs.z.dot_spec(self.column_y()),
                z: rhs.z.dot_spec(self.column_z()),
            },
        }
    }

    pub fn mul(self, rhs: Matrix3<T>) -> (r: Matrix3<T>)
        requires
            self.mul_req(rhs),
        ensures
            r == self.mul_spec(rhs),
    {
        Matrix3 {
            x: Vector3 {
                x: rhs.x.x.mul(self.x.x).add(rhs.x.y.mul(self.y.x)).add(rhs.x.z.mul(self.z.x)),
                y: rhs.x.x.mul(self.x.y).add(rhs.x.y.mul(self.y.y)).add(rhs.x.z.mul(self.z.y)),
                z: rhs.x.x.mul(self.x.z).add(rhs.x.y.mul(self.y.z)).add(rhs.x.z.mul(self.z.z)),
            },
            y: Vector3 {
                x: rhs.y.x.mul(self.x.x).add(rhs.y.y.mul(self.y.x)).add(rhs.y.z.mul(self.z.x)),
                y: rhs.y.x.mul(self.x.y).add(rhs.y.y.mul(self.y.y)).add(rhs.y.z.mul(self.z.y)),
                z: rhs.y.x.mul(self.x.z).add(rhs.y.y.mul(self.y.z)).add(rhs.y.z.mul(self.z.z)),
            },
            z: Vector3 {
                x: rhs.z.x.mul(self.x.x).add(rhs.z.y.mul(self.y.x)).add(rhs.z.z.mul(self.z.x)),
                y: rhs.z.x.mul(self.x.y).add(rhs.z.y.mul(self.y.y)).add(rhs.z.z.mul(self.z.y)),
                z: rhs.z.x.mul(self.x.z).add(rhs.z.y.mul(self.y.z)).add(rhs.z.z.mul(self.z.z)),
            },
        }
    }

    /// Whether the product with the column vector `rhs` may be formed.
    pub open spec fn mul_vector_req(self, rhs: Vector3<T>) -> bool {
        &&& self.x.dot_req(rhs)
        &&& self.y.dot_req(rhs)
        &&& self.z.dot_req(rhs)
    }

    /// The matrix times the column vector: each component is the dot
    /// product of the row of that name with `rhs`.
    pub open spec fn mul_vector_spec(self, rhs: Vector3<T>) -> Vector3<T> {
        Vector3 { x: self.x.dot_spec(rhs), y: self.y.dot_spec(rhs), z: self.z.dot_spec(rhs) }
    }

    pub fn mul_vector(self, rhs: Vector3<T>) -> (r: Vector3<T>)
        requires
            self.mul_vector_req(rhs),
        ensures
            r == self.mul_vector_spec(rhs),
    {
        Vector3 { x: self.x.dot(&rhs), y: self.y.dot(&rhs), z: self.z.dot(&rhs) }
    }

    /// The matrix that scales each axis by the component of `v` of its
    /// name.
    pub open spec fn from_scale_spec(v: Vector3<T>) -> Self {
        let o = T::zero_spec();
        Matrix3 {
            x: Vector3 { x: v.x, y: o, z: o },
            y: Vector3 { x: o, y: v.y, z: o },
            z: Vector3 { x: o, y: o, z: v.z },
        }
    }

    pub fn from_scale(v: Vector3<T>) -> (m: Self)
        ensures
            m == Self::from_scale_spec(v),
    {
        Matrix3::new(
            v.x, T::zero(), T::zero(),
            T::zero(), v.y, T::zero(),
            T::zero(), T::zero(), v.z,
        )
    }

    /// The upper left three by three block of `value`.
    pub open spec fn from_matrix4_spec(value: Matrix4<T>) -> Self {
        Matrix3 { x: value.x.xyz_spec(), y: value.y.xyz_spec(), z: value.z.xyz_spec() }
    }

}

impl<T: Number> From<T> for Matrix3<T> {
    /// Makes every component of the matrix the value given.
    fn from(value: T) -> (m: Self) {
        Matrix3 {
            x: Vector3::from(value),
            y: Vector3::from(value),
            z: Vector3::from(value),
        }
    }
}

impl<T: Number> FromSpecImpl<T> for Matrix3<T> {
    open spec fn obeys_from_spec() -> bool {
        true
    }

    open spec fn from_spec(value: T) -> Self {
        Self::splat_spec(value)
    }
}

impl<T: Number> From<Matrix4<T>> for Matrix3<T> {
    fn from(value: Matrix4<T>) -> (m: Self) {
        Self {
            x: Vector3 { x: value.x.x, y: value.x.y, z: value.x.z },
            y: Vector3 { x: value.y.x, y: value.y.y, z: value.y.z },
            z: Vector3 { x: value.z.x, y: value.z.y, z: value.z.z },
        }
    }
}

impl<T: Number> FromSpecImpl<Matrix4<T>> for Matrix3<T> {
    open spec fn obeys_from_spec() -> bool {
        true
    }

    open spec fn from_spec(value: Matrix4<T>) -> Self {
        Self::from_matrix4_spec(value)
    }
}

impl<T: Number> SquareMatrix for Matrix3<T> {
    /// Ones on the diagonal, zeros elsewhere.
    open spec fn identity_spec() -> Self {
        Matrix3 {
            x: Vector3 { x: T::one_spec(), y: T::zero_spec(), z: T::zero_spec() },
            y: Vector3 { x: T::zero_spec(), y: T::one_spec(), z: T::zero_spec() },
            z: Vector3 { x: T::zero_spec(), y: T::zero_spec(), z: T::one_spec() },
        }
    }

    /// The rows become the columns.
    open spec fn transpose_spec(self) -> Self {
        Matrix3 {
            x: self.column_x(),
            y: self.column_y(),
            z: self.column_z(),
        }
    }

    fn identity() -> (r: Self) {
        Matrix3 {
            x: Vector3 { x: T::one(), y: T::zero(), z: T::zero() },
            y: Vector3 { x: T::zero(), y: T::one(), z: T::zero() },
            z: Vector3 { x: T::zero(), y: T::zero(), z: T::one() },
        }
    }

    fn transpose(&self) -> (r: Self) {
        Matrix3 {
            x: Vector3 { x: self.x.x, y: self.y.x, z: self.z.x },
            y: Vector3 { x: self.x.y, y: self.y.y, z: self.z.y },
            z: Vector3 { x: self.x.z, y: self.y.z, z: self.z.z },
        }
    }
}

impl<T> Matrix3x2<T> {
    /// The matrix of the given components, row by row.
    pub fn new(xx: T, xy: T, xz: T, yx: T, yy: T, yz: T) -> (m: Self)
        ensures
            m == (Matrix3x2 {
                x: Vector3 { x: xx, y: xy, z: xz },
                y: Vector3 { x: yx, y: yy, z: yz },
            }),
    {
        Matrix3x2 {
            x: Vector3 { x: xx, y: xy, z: xz },
            y: Vector3 { x: yx, y: yy, z: yz },
        }
    }

    /// The matrix of the given rows.
    pub fn from_vec(x: Vector3<T>, y: Vector3<T>) -> (m: Self)
        ensures
            m == (Matrix3x2 { x, y }),
    {
        Self { x, y }
    }

    /// The `x` components of the rows, from the first row on.
    pub open spec fn column_x(self) -> Vector2<T> {
        Vector2 { x: self.x.x, y: self.y.x }
    }

    /// The `y` components of the rows, from the first row on.
    pub open spec fn column_y(self) -> Vector2<T> {
        Vector2 { x: self.x.y, y: self.y.y }
    }

    /// The `z` components of the rows, from the first row on.
    pub open spec fn column_z(self) -> Vector2<T> {
        Vector2 { x: self.x.z, y: self.y.z }
    }

}

impl<T: Number> Matrix3x2<T> {
    /// Whether the component-wise sum with `rhs` may be formed.
    pub open spec fn add_req(self, rhs: Self) -> bool {
        &&& self.x.add_req(rhs.x)
        &&& self.y.add_req(rhs.y)
    }

    /// The component-wise sum with `rhs`.
    pub open spec fn add_spec(self, rhs: Self) -> Self {
        Matrix3x2 {
            x: self.x.add_spec(rhs.x),
            y: self.y.add_spec(rhs.y),
        }
    }

    pub fn add(self, rhs: Self) -> (r: Self)
        requires
            self.add_req(rhs),
        ensures
            r == self.add_spec(rhs),
    {
        Matrix3x2 {
            x: self.x.add(rhs.x),
            y: self.y.add(rhs.y),
        }
    }

    /// Whether the component-wise difference with `rhs` may be formed.
    pub open spec fn sub_req(self, rhs: Self) -> bool {
        &&& self.x.sub_req(rhs.x)
        &&& self.y.sub_req(rhs.y)
    }

    /// The component-wise difference with `rhs`.
    pub open spec fn sub_spec(self, rhs: Self) -> Self {
        Matrix3x2 {
            x: self.x.sub_spec(rhs.x),
            y: self.y.sub_spec(rhs.y),
        }
    }

    pub fn sub(self, rhs: Self) -> (r: Self)
        requires
            self.sub_req(rhs),
        ensures
            r == self.sub_spec(rhs),
    {
        Matrix3x2 {
            x: self.x.sub(rhs.x),
            y: self.y.sub(rhs.y),
        }
    }

    /// Whether the product with `rhs` may be formed.
    pub open spec fn mul_req(self, rhs: Matrix2<T>) -> bool {
        &&& rhs.x.dot_req(self.column_x())
        &&& rhs.x.dot_req(self.column_y())
        &&& rhs.x.dot_req(self.column_z())
        &&& rhs.y.dot_req(self.column_x())
        &&& rhs.y.dot_req(self.column_y())
        &&& rhs.y.dot_req(self.column_z())
    }

    /// The matrix product: component `c` of row `r` of the result is
    /// the dot product of row `r` of `rhs` with the `c` column of this matrix.
    pub open spec fn mul_spec(self, rhs: Matrix2<T>) -> Matrix3x2<T> {
        Matrix3x2 {
            x: Vector3 {
                x: rhs.x.dot_spec(self.column_x()),
                y: rhs.x.dot_spec(self.column_y()),
                z: rhs.x.dot_spec(self.column_z()),
            },
            y: Vector3 {
                x: rhs.y.dot_spec(self.column_x()),
                y: rhs.y.dot_spec(self.column_y()),
                z: rhs.y.dot_spec(self.column_z()),
            },
        }
    }

    pub fn mul(self, rhs: Matrix2<T>) -> (r: Matrix3x2<T>)
        requires
            self.mul_req(rhs),
        ensures
            r == self.mul_spec(rhs),
    {
        Matrix3x2 {
            x: Vector3 {
                x: rhs.x.x.mul(self.x.x).add(rhs.x.y.mul(self.y.x)),
                y: rhs.x.x.mul(self.x.y).add(rhs.x.y.mul(self.y.y)),
                z: rhs.x.x.mul(self.x.z).add(rhs.x.y.mul(self.y.z)),
            },
            y: Vector3 {
                x: rhs.y.x.mul(self.x.x).add(rhs.y.y.mul(self.y.x)),
                y: rhs.y.x.mul(self.x.y).add(rhs.y.y.mul(self.y.y)),
                z: rhs.y.x.mul(self.x.z).add(rhs.y.y.mul(self.y.z)),
            },
        }
    }

}

impl<T> Matrix3x4<T> {
    /// The matrix of the given components, row by row.
    pub fn new(
        xx: T, xy: T, xz: T,
        yx: T, yy: T, yz: T,
        zx: T, zy: T, zz: T,
        wx: T, wy: T, wz: T,
    ) -> (m: Self)
        ensures
            m == (Matrix3x4 {
                x: Vector3 { x: xx, y: xy, z: xz },
                y: Vector3 { x: yx, y: yy, z: yz },
                z: Vector3 { x: zx, y: zy, z: zz },
                w: Vector3 { x: wx, y: wy, z: wz },
            }),
    {
        Matrix3x4 {
            x: Vector3 { x: xx, y: xy, z: xz },
            y: Vector3 { x: yx, y: yy, z: yz },
            z: Vector3 { x: zx, y: zy, z: zz },
            w: Vector3 { x: wx, y: wy, z: wz },
        }
    }

    /// The matrix of the given rows.
    pub fn from_vec(x: Vector3<T>, y: Vector3<T>, z: Vector3<T>, w: Vector3<T>) -> (m: Self)
        ensures
            m == (Matrix3x4 { x, y, z, w }),
    {
        Self { x, y, z, w }
    }

    /// The `x` components of the rows, from the first row on.
    pub open spec fn column_x(self) -> Vector4<T> {
        Vector4 { x: self.x.x, y: self.y.x, z: self.z.x, w: self.w.x }
    }

    /// The `y` components of the rows, from the first row on.
    pub open spec fn column_y(self) -> Vector4<T> {
        Vector4 { x: self.x.y, y: self.y.y, z: self.z.y, w: self.w.y }
    }

    /// The `z` components of the rows, from the first row on.
    pub open spec fn column_z(self) -> Vector4<T> {
        Vector4 { x: self.x.z, y: self.y.z, z: self.z.z, w: self.w.z }
    }

}

impl<T: Number> Matrix3x4<T> {
    /// Whether the component-wise sum with `rhs` may be formed.
    pub open spec fn add_req(self, rhs: Self) -> bool {
        &&& self.x.add_req(rhs.x)
        &&& self.y.add_req(rhs.y)
        &&& self.z.add_req(rhs.z)
        &&& self.w.add_req(rhs.w)
    }

    /// The component-wise sum with `rhs`.
    pub open spec fn add_spec(self, rhs: Self) -> Self {
        Matrix3x4 {
            x: self.x.add_spec(rhs.x),
            y: self.y.add_spec(rhs.y),
            z: self.z.add_spec(rhs.z),
            w: self.w.add_spec(rhs.w),
        }
    }

    pub fn add(self, rhs: Self) -> (r: Self)
        requires
            self.add_req(rhs),
        ensures
            r == self.add_spec(rhs),
    {
        Matrix3x4 {
            x: self.x.add(rhs.x),
            y: self.y.add(rhs.y),
            z: self.z.add(rhs.z),
            w: self.w.add(rhs.w),
        }
    }

    /// Whether the component-wise difference with `rhs` may be formed.
    pub open spec fn sub_req(self, rhs: Self) -> bool {
        &&& self.x.sub_req(rhs.x)
        &&& self.y.sub_req(rhs.y)
        &&& self.z.sub_req(rhs.z)
        &&& self.w.sub_req(rhs.w)
    }

    /// The component-wise difference with `rhs`.
    pub open spec fn sub_spec(self, rhs: Self) -> Self {
        Matrix3x4 {
            x: self.x.sub_spec(rhs.x),
            y: self.y.sub_spec(rhs.y),
            z: self.z.sub_spec(rhs.z),
            w: self.w.sub_spec(rhs.w),
        }
    }

    pub fn sub(self, rhs: Self) -> (r: Self)
        requires
            self.sub_req(rhs),
        ensures
            r == self.sub_spec(rhs),
    {
        Matrix3x4 {
            x: self.x.sub(rhs.x),
            y: self.y.sub(rhs.y),
            z: self.z.sub(rhs.z),
            w: self.w.sub(rhs.w),
        }
    }

    /// Whether the product with `rhs` may be formed.
    pub open spec fn mul_req(self, rhs: Matrix4<T>) -> bool {
        &&& rhs.x.dot_req(self.column_x())
        &&& rhs.x.dot_req(self.column_y())
        &&& rhs.x.dot_req(self.column_z())
        &&& rhs.y.dot_req(self.column_x())
        &&& rhs.y.dot_req(self.column_y())
        &&& rhs.y.dot_req(self.column_z())
        &&& rhs.z.dot_req(self.column_x())
        &&& rhs.z.dot_req(self.column_y())
        &&& rhs.z.dot_req(self.column_z())
        &&& rhs.w.dot_req(self.column_x())
        &&& rhs.w.dot_req(self.column_y())
        &&& rhs.w.dot_req(self.column_z())
    }

    /// The matrix product: component `c` of row `r` of the result is
    /// the dot product of row `r` of `rhs` with the `c` column of this matrix.
    pub open spec fn mul_spec(self, rhs: Matrix4<T>) -> Matrix3x4<T> {
        Matrix3x4 {
            x: Vector3 {
                x: rhs.x.dot_spec(self.column_x()),
                y: rhs.x.dot_spec(self.column_y()),
                z: rhs.x.dot_spec(self.column_z()),
            },
            y: Vector3 {
                x: rhs.y.dot_spec(self.column_x()),
                y: rhs.y.dot_spec(self.column_y()),
                z: rhs.y.dot_spec(self.column_z()),
            },
            z: Vector3 {
                x: rhs.z.dot_spec(self.column_x()),
                y: rhs.z.dot_spec(self.column_y()),
                z: rhs.z.dot_spec(self.column_z()),
            },
            w: Vector3 {
                x: rhs.w.dot_spec(self.column_x()),
                y: rhs.w.dot_spec(self.column_y()),
                z: rhs.w.dot_spec(self.column_z()),
            },
        }
    }

    pub fn mul(self, rhs: Matrix4<T>) -> (r: Matrix3x4<T>)
        requires
            self.mul_req(rhs),
        ensures
            r == self.mul_spec(rhs),
    {
        Matrix3x4 {
            x: Vector3 {
                x: rhs.x.x.mul(self.x.x)
                    .add(rhs.x.y.mul(self.y.x))
                    .add(rhs.x.z.mul(self.z.x))
                    .add(rhs.x.w.mul(self.w.x)),
                y: rhs.x.x.mul(self.x.y)
                    .add(rhs.x.y.mul(self.y.y))
                    .add(rhs.x.z.mul(self.z.y))
                    .add(rhs.x.w.mul(self.w.y)),
                z: rhs.x.x.mul(self.x.z)
                    .add(rhs.x.y.mul(self.y.z))
                    .add(rhs.x.z.mul(self.z.z))
                    .add(rhs.x.w.mul(self.w.z)),
            },
            y: Vector3 {
                x: rhs.y.x.mul(self.x.x)
                    .add(rhs.y.y.mul(self.y.x))
                    .add(rhs.y.z.mul(self.z.x))
                    .add(rhs.y.w.mul(self.w.x)),
                y: rhs.y.x.mul(self.x.y)
                    .add(rhs.y.y.mul(self.y.y))
                    .add(rhs.y.z.mul(self.z.y))
                    .add(rhs.y.w.mul(self.w.y)),
                z: rhs.y.x.mul(self.x.z)
                    .add(rhs.y.y.mul(self.y.z))
                    .add(rhs.y.z.mul(self.z.z))
                    .add(rhs.y.w.mul(self.w.z)),
            },
            z: Vector3 {
                x: rhs.z.x.mul(self.x.x)
                    .add(rhs.z.y.mul(self.y.x))
                    .add(rhs.z.z.mul(self.z.x))
                    .add(rhs.z.w.mul(self.w.x)),
                y: rhs.z.x.mul(self.x.y)
                    .add(rhs.z.y.mul(self.y.y))
                    .add(rhs.z.z.mul(self.z.y))
                    .add(rhs.z.w.mul(self.w.y)),
                z: rhs.z.x.mul(self.x.z)
                    .add(rhs.z.y.mul(self.y.z))
                    .add(rhs.z.z.mul(self.z.z))
                    .add(rhs.z.w.mul(self.w.z)),
            },
            w: Vector3 {
                x: rhs.w.x.mul(self.x.x)
                    .add(rhs.w.y.mul(self.y.x))
                    .add(rhs.w.z.mul(self.z.x))
                    .add(rhs.w.w.mul(self.w.x)),
                y: rhs.w.x.mul(self.x.y)
                    .add(rhs.w.y.mul(self.y.y))
                    .add(rhs.w.z.mul(self.z.y))
                    .add(rhs.w.w.mul(self.w.y)),
                z: rhs.w.x.mul(self.x.z)
                    .add(rhs.w.y.mul(self.y.z))
                    .add(rhs.w.z.mul(self.z.z))
                    .add(rhs.w.w.mul(self.w.z)),
            },
        }
    }

}

impl<T> Matrix4<T> {
    /// The matrix of the given components, row by row.
    pub fn new(
        xx: T, xy: T, xz: T, xw: T,
        yx: T, yy: T, yz: T, yw: T,
        zx: T, zy: T, zz: T, zw: T,
        wx: T, wy: T, wz: T, ww: T,
    ) -> (m: Self)
        ensures
            m == (Matrix4 {
                x: Vector4 { x: xx, y: xy, z: xz, w: xw },
                y: Vector4 { x: yx, y: yy, z: yz, w: yw },
                z: Vector4 { x: zx, y: zy, z: zz, w: zw },
                w: Vector4 { x: wx, y: wy, z: wz, w: ww },
            }),
    {
        Matrix4 {
            x: Vector4 { x: xx, y: xy, z: xz, w: xw },
            y: Vector4 { x: yx, y: yy, z: yz, w: yw },
            z: Vector4 { x: zx, y: zy, z: zz, w: zw },
            w: Vector4 { x: wx, y: wy, z: wz, w: ww },
        }
    }

    /// The matrix of the given rows.
    pub fn from_vec(x: Vector4<T>, y: Vector4<T>, z: Vector4<T>, w: Vector4<T>) -> (m: Self)
        ensures
            m == (Matrix4 { x, y, z, w }),
    {
        Self { x, y, z, w }
    }

    /// The `x` components of the rows, from the first row on.
    pub open spec fn column_x(self) -> Vector4<T> {
        Vector4 { x: self.x.x, y: self.y.x, z: self.z.x, w: self.w.x }
    }

    /// The `y` components of the rows, from the first row on.
    pub open spec fn column_y(self) -> Vector4<T> {
        Vector4 { x: self.x.y, y: self.y.y, z: self.z.y, w: self.w.y }
    }

    /// The `z` components of the rows, from the first row on.
    pub open spec fn column_z(self) -> Vector4<T> {
        Vector4 { x: self.x.z, y: self.y.z, z: self.z.z, w: self.w.z }
    }

    /// The `w` components of the rows, from the first row on.
    pub open spec fn column_w(self) -> Vector4<T> {
        Vector4 { x: self.x.w, y: self.y.w, z: self.z.w, w: self.w.w }
    }

}

impl<T: Number> Matrix4<T> {
    /// The matrix whose components all are `value`.
    pub open spec fn splat_spec(value: T) -> Self {
        Matrix4 {
            x: Vector4::splat_spec(value),
            y: Vector4::splat_spec(value),
            z: Vector4::splat_spec(value),
            w: Vector4::splat_spec(value),
        }
    }

    /// Whether the component-wise sum with `rhs` may be formed.
    pub open spec fn add_req(self, rhs: Self) -> bool {
        &&& self.x.add_req(rhs.x)
        &&& self.y.add_req(rhs.y)
        &&& self.z.add_req(rhs.z)
        &&& self.w.add_req(rhs.w)
    }

    /// The component-wise sum with `rhs`.
    pub open spec fn add_spec(self, rhs: Self) -> Self {
        Matrix4 {
            x: self.x.add_spec(rhs.x),
            y: self.y.add_spec(rhs.y),
            z: self.z.add_spec(rhs.z),
            w: self.w.add_spec(rhs.w),
        }
    }

    pub fn add(self, rhs: Self) -> (r: Self)
        requires
            self.add_req(rhs),
        ensures
            r == self.add_spec(rhs),
    {
        Matrix4 {
            x: self.x.add(rhs.x),
            y: self.y.add(rhs.y),
            z: self.z.add(rhs.z),
            w: self.w.add(rhs.w),
        }
    }

    /// Whether the component-wise difference with `rhs` may be formed.
    pub open spec fn sub_req(self, rhs: Self) -> bool {
        &&& self.x.sub_req(rhs.x)
        &&& self.y.sub_req(rhs.y)
        &&& self.z.sub_req(rhs.z)
        &&& self.w.sub_req(rhs.w)
    }

    /// The component-wise difference with `rhs`.
    pub open spec fn sub_spec(self, rhs: Self) -> Self {
        Matrix4 {
            x: self.x.sub_spec(rhs.x),
            y: self.y.sub_spec(rhs.y),
            z: self.z.sub_spec(rhs.z),
            w: self.w.sub_spec(rhs.w),
        }
    }

    pub fn sub(self, rhs: Self) -> (r: Self)
        requires
            self.sub_req(rhs),
        ensures
            r == self.sub_spec(rhs),
    {
        Matrix4 {
            x: self.x.sub(rhs.x),
            y: self.y.sub(rhs.y),
            z: self.z.sub(rhs.z),
            w: self.w.sub(rhs.w),
        }
    }

    /// Whether the product with `rhs` may be formed.
    pub open spec fn mul_req(self, rhs: Matrix4<T>) -> bool {
        &&& rhs.x.dot_req(self.column_x())
        &&& rhs.x.dot_req(self.column_y())
        &&& rhs.x.dot_req(self.column_z())
        &&& rhs.x.dot_req(self.column_w())
        &&& rhs.y.dot_req(self.column_x())
        &&& rhs.y.dot_req(self.column_y())
        &&& rhs.y.dot_req(self.column_z())
        &&& rhs.y.dot_req(self.column_w())
        &&& rhs.z.dot_req(self.column_x())
        &&& rhs.z.dot_req(self.column_y())
        &&& rhs.z.dot_req(self.column_z())
        &&& rhs.z.dot_req(self.column_w())
        &&& rhs.w.dot_req(self.column_x())
        &&& rhs.w.dot_req(self.column_y())
        &&& rhs.w.dot_req(self.column_z())
        &&& rhs.w.dot_req(self.column_w())
    }

    /// The matrix product: component `c` of row `r` of the result is
    /// the dot product of row `r` of `rhs` with the `c` column of this matrix.
    pub open spec fn mul_spec(self, rhs: Matrix4<T>) -> Matrix4<T> {
        Matrix4 {
            x: Vector4 {
                x: rhs.x.dot_spec(self.column_x()),
                y: rhs.x.dot_spec(self.column_y()),
                z: rhs.x.dot_spec(self.column_z()),
                w: rhs.x.dot_spec(self.column_w()),
            },
            y: Vector4 {
                x: rhs.y.dot_spec(self.column_x()),
                y: rhs.y.dot_spec(self.column_y()),
                z: rhs.y.dot_spec(self.column_z()),
                w: rhs.y.dot_spec(self.column_w()),
            },
            z: Vector4 {
                x: rhs.z.dot_spec(self.column_x()),
                y: rhs.z.dot_spec(self.column_y()),
                z: rhs.z.dot_spec(self.column_z()),
                w: rhs.z.dot_spec(self.column_w()),
            },
            w: Vector4 {
                x: rhs.w.dot_spec(self.column_x()),
                y: rhs.w.dot_spec(self.column_y()),
                z: rhs.w.dot_spec(self.column_z()),
                w: rhs.w.dot_spec(self.column_w()),
            },
        }
    }

    pub fn mul(self, rhs: Matrix4<T>) -> (r: Matrix4<T>)
        requires
            self.mul_req(rhs),
        ensures
            r == self.mul_spec(rhs),
    {
        Matrix4 {
            x: Vector4 {
                x: rhs.x.x.mul(self.x.x)
                    .add(rhs.x.y.mul(self.y.x))
                    .add(rhs.x.z.mul(self.z.x))
                    .add(rhs.x.w.mul(self.w.x)),
                y: rhs.x.x.mul(self.x.y)
                    .add(rhs.x.y.mul(self.y.y))
                    .add(rhs.x.z.mul(self.z.y))
                    .add(rhs.x.w.mul(self.w.y)),
                z: rhs.x.x.mul(self.x.z)
                    .add(rhs.x.y.mul(self.y.z))
                    .add(rhs.x.z.mul(self.z.z))
                    .add(rhs.x.w.mul(self.w.z)),
                w: rhs.x.x.mul(self.x.w)
                    .add(rhs.x.y.mul(self.y.w))
                    .add(rhs.x.z.mul(self.z.w))
                    .add(rhs.x.w.mul(self.w.w)),
            },
            y: Vector4 {
                x: rhs.y.x.mul(self.x.x)
                    .add(rhs.y.y.mul(self.y.x))
                    .add(rhs.y.z.mul(self.z.x))
                    .add(rhs.y.w.mul(self.w.x)),
                y: rhs.y.x.mul(self.x.y)
                    .add(rhs.y.y.mul(self.y.y))
                    .add(rhs.y.z.mul(self.z.y))
                    .add(rhs.y.w.mul(self.w.y)),
                z: rhs.y.x.mul(self.x.z)
                    .add(rhs.y.y.mul(self.y.z))
                    .add(rhs.y.z.mul(self.z.z))
                    .add(rhs.y.w.mul(self.w.z)),
                w: rhs.y.x.mul(self.x.w)
                    .add(rhs.y.y.mul(self.y.w))
                    .add(rhs.y.z.mul(self.z.w))
                    .add(rhs.y.w.mul(self.w.w)),
            },
            z: Vector4 {
                x: rhs.z.x.mul(self.x.x)
                    .add(rhs.z.y.mul(self.y.x))
                    .add(rhs.z.z.mul(self.z.x))
                    .add(rhs.z.w.mul(self.w.x)),
                y: rhs.z.x.mul(self.x.y)
                    .add(rhs.z.y.mul(self.y.y))
                    .add(rhs.z.z.mul(self.z.y))
                    .add(rhs.z.w.mul(self.w.y)),
                z: rhs.z.x.mul(self.x.z)
                    .add(rhs.z.y.mul(self.y.z))
                    .add(rhs.z.z.mul(self.z.z))
                    .add(rhs.z.w.mul(self.w.z)),
                w: rhs.z.x.mul(self.x.w)
                    .add(rhs.z.y.mul(self.y.w))
                    .add(rhs.z.z.mul(self.z.w))
                    .add(rhs.z.w.mul(self.w.w)),
            },
            w: Vector4 {
                x: rhs.w.x.mul(self.x.x)
                    .add(rhs.w.y.mul(self.y.x))
                    .add(rhs.w.z.mul(self.z.x))
                    .add(rhs.w.w.mul(self.w.x)),
                y: rhs.w.x.mul(self.x.y)
                    .add(rhs.w.y.mul(self.y.y))
                    .add(rhs.w.z.mul(self.z.y))
                    .add(rhs.w.w.mul(self.w.y)),
                z: rhs.w.x.mul(self.x.z)
                    .add(rhs.w.y.mul(self.y.z))
                    .add(rhs.w.z.mul(self.z.z))
                    .add(rhs.w.w.mul(self.w.z)),
                w: rhs.w.x.mul(self.x.w)
                    .add(rhs.w.y.mul(self.y.w))
                    .add(rhs.w.z.mul(self.z.w))
                    .add(rhs.w.w.mul(self.w.w)),
            },
        }
    }

    /// Whether the product with the column vector `rhs` may be formed.
    pub open spec fn mul_vector_req(self, rhs: Vector4<T>) -> bool {
        &&& self.x.dot_req(rhs)
        &&& self.y.dot_req(rhs)
        &&& self.z.dot_req(rhs)
        &&& self.w.dot_req(rhs)
    }

    /// The matrix times the column vector: each component is the dot
    /// product of the row of that name with `rhs`.
    pub open spec fn mul_vector_spec(self, rhs: Vector4<T>) -> Vector4<T> {
        Vector4 {
            x: self.x.dot_spec(rhs),
            y: self.y.dot_spec(rhs),
            z: self.z.dot_spec(rhs),
            w: self.w.dot_spec(rhs),
        }
    }

    pub fn mul_vector(self, rhs: Vector4<T>) -> (r: Vector4<T>)
        requires
            self.mul_vector_req(rhs),
        ensures
            r == self.mul_vector_spec(rhs),
    {
        Vector4 {
            x: self.x.dot(&rhs),
            y: self.y.dot(&rhs),
            z: self.z.dot(&rhs),
            w: self.w.dot(&rhs),
        }
    }

    /// The matrix that moves a point by `v`: the identity with `v` in
    /// its last row.
    pub open spec fn from_translation_spec(v: Vector3<T>) -> Self {
        let o = T::zero_spec();
        let i = T::one_spec();
        Matrix4 {
            x: Vector4 { x: i, y: o, z: o, w: o },
            y: Vector4 { x: o, y: i, z: o, w: o },
            z: Vector4 { x: o, y: o, z: i, w: o },
            w: Vector4 { x: v.x, y: v.y, z: v.z, w: i },
        }
    }

    pub fn from_translation(v: Vector3<T>) -> (m: Self)
        ensures
            m == Self::from_translation_spec(v),
    {
        Matrix4::new(
            T::one(), T::zero(), T::zero(), T::zero(),
            T::zero(), T::one(), T::zero(), T::zero(),
            T::zero(), T::zero(), T::one(), T::zero(),
            v.x, v.y, v.z, T::one(),
        )
    }

    /// The matrix that scales each axis by the component of `v` of its
    /// name.
    pub open spec fn from_scale_spec(v: Vector3<T>) -> Self {
        let o = T::zero_spec();
        Matrix4 {
            x: Vector4 { x: v.x, y: o, z: o, w: o },
            y: Vector4 { x: o, y: v.y, z: o, w: o },
            z: Vector4 { x: o, y: o, z: v.z, w: o },
            w: Vector4 { x: o, y: o, z: o, w: T::one_spec() },
        }
    }

    pub fn from_scale(v: Vector3<T>) -> (m: Self)
        ensures
            m == Self::from_scale_spec(v),
    {
        Matrix4::new(
            v.x, T::zero(), T::zero(), T::zero(),
            T::zero(), v.y, T::zero(), T::zero(),
            T::zero(), T::zero(), v.z, T::zero(),
            T::zero(), T::zero(), T::zero(), T::one(),
        )
    }

    /// Whether each of the first three rows may be multiplied by the
    /// component of `v` of its name.
    pub open spec fn scale_req(self, v: Vector3<T>) -> bool {
        &&& self.x.mul_scalar_req(v.x)
        &&& self.y.mul_scalar_req(v.y)
        &&& self.z.mul_scalar_req(v.z)
    }

    /// Each of the first three rows multiplied by the component of `v` of
    /// its name; the last row as it is.
    pub open spec fn scale_spec(self, v: Vector3<T>) -> Self {
        Matrix4 {
            x: self.x.mul_scalar_spec(v.x),
            y: self.y.mul_scalar_spec(v.y),
            z: self.z.mul_scalar_spec(v.z),
            w: self.w,
        }
    }

    pub fn scale(&self, v: Vector3<T>) -> (m: Self)
        requires
            self.scale_req(v),
        ensures
            m == self.scale_spec(v),
    {
        Self {
            x: self.x.mul_scalar(v.x),
            y: self.y.mul_scalar(v.y),
            z: self.z.mul_scalar(v.z),
            w: self.w,
        }
    }

    /// Whether `v` may be added to the last row.
    pub open spec fn translate_req(self, v: Vector3<T>) -> bool {
        self.w.add_req(Vector4::from_vector3_spec(v))
    }

    /// The matrix with `v`, as a direction, added to its last row.
    pub open spec fn translate_spec(self, v: Vector3<T>) -> Self {
        Matrix4 {
            x: self.x,
            y: self.y,
            z: self.z,
            w: self.w.add_spec(Vector4::from_vector3_spec(v)),
        }
    }

    pub fn translate(&self, v: Vector3<T>) -> (m: Self)
        requires
            self.translate_req(v),
        ensures
            m == self.translate_spec(v),
    {
        Self { x: self.x, y: self.y, z: self.z, w: self.w.add(Vector4::from(v)) }
    }

    /// The three by three matrix as a transformation of space that moves
    /// nothing: zeros around it and a one in the corner.
    pub open spec fn from_matrix3_spec(value: Matrix3<T>) -> Self {
        let o = T::zero_spec();
        Matrix4 {
            x: Vector4::from_vector3_spec(value.x),
            y: Vector4::from_vector3_spec(value.y),
            z: Vector4::from_vector3_spec(value.z),
            w: Vector4 { x: o, y: o, z: o, w: T::one_spec() },
        }
    }

}

impl<T: Number> From<T> for Matrix4<T> {
    /// Makes every component of the matrix the value given.
    fn from(value: T) -> (m: Self) {
        Matrix4 {
            x: Vector4::from(value),
            y: Vector4::from(value),
            z: Vector4::from(value),
            w: Vector4::from(value),
        }
    }
}

impl<T: Number> FromSpecImpl<T> for Matrix4<T> {
    open spec fn obeys_from_spec() -> bool {
        true
    }

    open spec fn from_spec(value: T) -> Self {
        Self::splat_spec(value)
    }
}

impl<T: Number> From<Matrix3<T>> for Matrix4<T> {
    fn from(value: Matrix3<T>) -> (m: Self) {
        Self {
            x: Vector4 { x: value.x.x, y: value.x.y, z: value.x.z, w: T::zero() },
            y: Vector4 { x: value.y.x, y: value.y.y, z: value.y.z, w: T::zero() },
            z: Vector4 { x: value.z.x, y: value.z.y, z: value.z.z, w: T::zero() },
            w: Vector4 { x: T::zero(), y: T::zero(), z: T::zero(), w: T::one() },
        }
    }
}

impl<T: Number> FromSpecImpl<Matrix3<T>> for Matrix4<T> {
    open spec fn obeys_from_spec() -> bool {
        true
    }

    open spec fn from_spec(value: Matrix3<T>) -> Self {
        Self::from_matrix3_spec(value)
    }
}

impl<T: Number> SquareMatrix for Matrix4<T> {
    /// Ones on the diagonal, zeros elsewhere.
    open spec fn identity_spec() -> Self {
        Matrix4 {
            x: Vector4 {
                x: T::one_spec(),
                y: T::zero_spec(),
                z: T::zero_spec(),
                w: T::zero_spec(),
            },
            y: Vector4 {
                x: T::zero_spec(),
                y: T::one_spec(),
                z: T::zero_spec(),
                w: T::zero_spec(),
            },
            z: Vector4 {
                x: T::zero_spec(),
                y: T::zero_spec(),
                z: T::one_spec(),
                w: T::zero_spec(),
            },
            w: Vector4 {
                x: T::zero_spec(),
                y: T::zero_spec(),
                z: T::zero_spec(),
                w: T::one_spec(),
            },
        }
    }

    /// The rows become the columns.
    open spec fn transpose_spec(self) -> Self {
        Matrix4 {
            x: self.column_x(),
            y: self.column_y(),
            z: self.column_z(),
            w: self.column_w(),
        }
    }

    fn identity() -> (r: Self) {
        Matrix4 {
            x: Vector4 { x: T::one(), y: T::zero(), z: T::zero(), w: T::zero() },
            y: Vector4 { x: T::zero(), y: T::one(), z: T::zero(), w: T::zero() },
            z: Vector4 { x: T::zero(), y: T::zero(), z: T::one(), w: T::zero() },
            w: Vector4 { x: T::zero(), y: T::zero(), z: T::zero(), w: T::one() },
        }
    }

    fn transpose(&self) -> (r: Self) {
        Matrix4 {
            x: Vector4 { x: self.x.x, y: self.y.x, z: self.z.x, w: self.w.x },
            y: Vector4 { x: self.x.y, y: self.y.y, z: self.z.y, w: self.w.y },
            z: Vector4 { x: self.x.z, y: self.y.z, z: self.z.z, w: self.w.z },
            w: Vector4 { x: self.x.w, y: self.y.w, z: self.z.w, w: self.w.w },
        }
    }
}

impl<T> Matrix4x2<T> {
    /// The matrix of the given components, row by row.
    pub fn new(xx: T, xy: T, xz: T, xw: T, yx: T, yy: T, yz: T, yw: T) -> (m: Self)
        ensures
            m == (Matrix4x2 {
                x: Vector4 { x: xx, y: xy, z: xz, w: xw },
                y: Vector4 { x: yx, y: yy, z: yz, w: yw },
            }),
    {
        Matrix4x2 {
            x: Vector4 { x: xx, y: xy, z: xz, w: xw },
            y: Vector4 { x: yx, y: yy, z: yz, w: yw },
        }
    }

    /// The matrix of the rows `x` and `y`; `z` and `w` are not used.
    pub fn from_vec(x: Vector4<T>, y: Vector4<T>, z: Vector4<T>, w: Vector4<T>) -> (m: Self)
        ensures
            m == (Matrix4x2 { x, y }),
    {
        Self { x, y }
    }

    /// The `x` components of the rows, from the first row on.
    pub open spec fn column_x(self) -> Vector2<T> {
        Vector2 { x: self.x.x, y: self.y.x }
    }

    /// The `y` components of the rows, from the first row on.
    pub open spec fn column_y(self) -> Vector2<T> {
        Vector2 { x: self.x.y, y: self.y.y }
    }

    /// The `z` components of the rows, from the first row on.
    pub open spec fn column_z(self) -> Vector2<T> {
        Vector2 { x: self.x.z, y: self.y.z }
    }

    /// The `w` components of the rows, from the first row on.
    pub open spec fn column_w(self) -> Vector2<T> {
        Vector2 { x: self.x.w, y: self.y.w }
    }

}

impl<T: Number> Matrix4x2<T> {
    /// The matrix whose components all are `value`.
    pub open spec fn splat_spec(value: T) -> Self {
        Matrix4x2 {
            x: Vector4::splat_spec(value),
            y: Vector4::splat_spec(value),
        }
    }

    /// Whether the component-wise sum with `rhs` may be formed.
    pub open spec fn add_req(self, rhs: Self) -> bool {
        &&& self.x.add_req(rhs.x)
        &&& self.y.add_req(rhs.y)
    }

    /// The component-wise sum with `rhs`.
    pub open spec fn add_spec(self, rhs: Self) -> Self {
        Matrix4x2 {
            x: self.x.add_spec(rhs.x),
            y: self.y.add_spec(rhs.y),
        }
    }

    pub fn add(self, rhs: Self) -> (r: Self)
        requires
            self.add_req(rhs),
        ensures
            r == self.add_spec(rhs),
    {
        Matrix4x2 {
            x: self.x.add(rhs.x),
            y: self.y.add(rhs.y),
        }
    }

    /// Whether the component-wise difference with `rhs` may be formed.
    pub open spec fn sub_req(self, rhs: Self) -> bool {
        &&& self.x.sub_req(rhs.x)
        &&& self.y.sub_req(rhs.y)
    }

    /// The component-wise difference with `rhs`.
    pub open spec fn sub_spec(self, rhs: Self) -> Self {
        Matrix4x2 {
            x: self.x.sub_spec(rhs.x),
            y: self.y.sub_spec(rhs.y),
        }
    }

    pub fn sub(self, rhs: Self) -> (r: Self)
        requires
            self.sub_req(rhs),
        ensures
            r == self.sub_spec(rhs),
    {
        Matrix4x2 {
            x: self.x.sub(rhs.x),
            y: self.y.sub(rhs.y),
        }
    }

    /// Whether the product with `rhs` may be formed.
    pub open spec fn mul_req(self, rhs: Matrix2<T>) -> bool {
        &&& rhs.x.dot_req(self.column_x())
        &&& rhs.x.dot_req(self.column_y())
        &&& rhs.x.dot_req(self.column_z())
        &&& rhs.x.dot_req(self.column_w())
        &&& rhs.y.dot_req(self.column_x())
        &&& rhs.y.dot_req(self.column_y())
        &&& rhs.y.dot_req(self.column_z())
        &&& rhs.y.dot_req(self.column_w())
    }

    /// The matrix product: component `c` of row `r` of the result is
    /// the dot product of row `r` of `rhs` with the `c` column of this matrix.
    pub open spec fn mul_spec(self, rhs: Matrix2<T>) -> Matrix4x2<T> {
        Matrix4x2 {
            x: Vector4 {
                x: rhs.x.dot_spec(self.column_x()),
                y: rhs.x.dot_spec(self.column_y()),
                z: rhs.x.dot_spec(self.column_z()),
                w: rhs.x.dot_spec(self.column_w()),
            },
            y: Vector4 {
                x: rhs.y.dot_spec(self.column_x()),
                y: rhs.y.dot_spec(self.column_y()),
                z: rhs.y.dot_spec(self.column_z()),
                w: rhs.y.dot_spec(self.column_w()),
            },
        }
    }

    pub fn mul(self, rhs: Matrix2<T>) -> (r: Matrix4x2<T>)
        requires
            self.mul_req(rhs),
        ensures
            r == self.mul_spec(rhs),
    {
        Matrix4x2 {
            x: Vector4 {
                x: rhs.x.x.mul(self.x.x).add(rhs.x.y.mul(self.y.x)),
                y: rhs.x.x.mul(self.x.y).add(rhs.x.y.mul(self.y.y)),
                z: rhs.x.x.mul(self.x.z).add(rhs.x.y.mul(self.y.z)),
                w: rhs.x.x.mul(self.x.w).add(rhs.x.y.mul(self.y.w)),
            },
            y: Vector4 {
                x: rhs.y.x.mul(self.x.x).add(rhs.y.y.mul(self.y.x)),
                y: rhs.y.x.mul(self.x.y).add(rhs.y.y.mul(self.y.y)),
                z: rhs.y.x.mul(self.x.z).add(rhs.y.y.mul(self.y.z)),
                w: rhs.y.x.mul(self.x.w).add(rhs.y.y.mul(self.y.w)),
            },
        }
    }

}

impl<T: Number> From<T> for Matrix4x2<T> {
    /// Makes every component of the matrix the value given.
    fn from(value: T) -> (m: Self) {
        Matrix4x2 {
            x: Vector4::from(value),
            y: Vector4::from(value),
        }
    }
}

impl<T: Number> FromSpecImpl<T> for Matrix4x2<T> {
    open spec fn obeys_from_spec() -> bool {
        true
    }

    open spec fn from_spec(value: T) -> Self {
        Self::splat_spec(value)
    }
}

} // verus!
