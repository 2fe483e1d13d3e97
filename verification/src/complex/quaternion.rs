use vstd::prelude::*;
use crate::linear::matrix::Matrix3;
use crate::linear::matrix::Matrix4;
use crate::linear::traits::half;
use crate::linear::traits::half_spec;
use crate::linear::traits::FloatingPoint;
use crate::linear::traits::Number;
use crate::linear::traits::SignedNumber;
use crate::linear::vector::Vector3;
use crate::linear::vector::Vector4;

verus! {

/// A quaternion by its vector and scalar part.
#[derive(Clone, Copy, Debug, Default)]
pub struct Quaternion<T> {
    pub vector: Vector3<T>,
    pub scalar: T,
}

impl<T> Quaternion<T> {
    pub fn new(v: Vector3<T>, s: T) -> (q: Self)
        ensures
            q.vector == v,
            q.scalar == s,
    {
        Self { vector: v, scalar: s }
    }
}

/// The products of pairs of the parts of a quaternion, each doubled, from
/// which its rotation matrix is made: `xy2` is `(x + x)·y`, and `sx2` is
/// `(x + x)·s` with `s` the scalar part.
pub struct DoubledProducts<T> {
    pub xx2: T,
    pub xy2: T,
    pub xz2: T,
    pub yy2: T,
    pub yz2: T,
    pub zz2: T,
    pub sx2: T,
    pub sy2: T,
    pub sz2: T,
}

impl<T: Number> Quaternion<T> {
    /// Whether the doubled products may be formed.
    pub open spec fn products_req(self) -> bool {
        &&& self.vector.x.add_req(self.vector.x)
        &&& self.vector.x.add_spec(self.vector.x).mul_req(self.vector.x)
        &&& self.vector.x.add_spec(self.vector.x).mul_req(self.vector.y)
        &&& self.vector.x.add_spec(self.vector.x).mul_req(self.vector.z)
        &&& self.vector.y.add_req(self.vector.y)
        &&& self.vector.y.add_spec(self.vector.y).mul_req(self.vector.y)
        &&& self.vector.y.add_spec(self.vector.y).mul_req(self.vector.z)
        &&& self.vector.z.add_req(self.vector.z)
        &&& self.vector.z.add_spec(self.vector.z).mul_req(self.vector.z)
        &&& self.vector.y.add_spec(self.vector.y).mul_req(self.scalar)
        &&& self.vector.z.add_spec(self.vector.z).mul_req(self.scalar)
        &&& self.vector.x.add_spec(self.vector.x).mul_req(self.scalar)
    }

    pub open spec fn products(self) -> DoubledProducts<T> {
        DoubledProducts {
            sx2: self.vector.x.add_spec(self.vector.x).mul_spec(self.scalar),
            sy2: self.vector.y.add_spec(self.vector.y).mul_spec(self.scalar),
            sz2: self.vector.z.add_spec(self.vector.z).mul_spec(self.scalar),
            xx2: self.vector.x.add_spec(self.vector.x).mul_spec(self.vector.x),
            xy2: self.vector.x.add_spec(self.vector.x).mul_spec(self.vector.y),
            xz2: self.vector.x.add_spec(self.vector.x).mul_spec(self.vector.z),
            yy2: self.vector.y.add_spec(self.vector.y).mul_spec(self.vector.y),
            yz2: self.vector.y.add_spec(self.vector.y).mul_spec(self.vector.z),
            zz2: self.vector.z.add_spec(self.vector.z).mul_spec(self.vector.z),
        }
    }

    fn doubled_products(&self) -> (p: DoubledProducts<T>)
        requires
            self.products_req(),
        ensures
            p == self.products(),
    {
        let x2 = self.vector.x.add(self.vector.x);
        let y2 = self.vector.y.add(self.vector.y);
        let z2 = self.vector.z.add(self.vector.z);
        DoubledProducts {
            xx2: x2.mul(self.vector.x),
            xy2: x2.mul(self.vector.y),
            xz2: x2.mul(self.vector.z),
            yy2: y2.mul(self.vector.y),
            yz2: y2.mul(self.vector.z),
            zz2: z2.mul(self.vector.z),
            sx2: x2.mul(self.scalar),
            sy2: y2.mul(self.scalar),
            sz2: z2.mul(self.scalar),
        }
    }

    /// Whether the rotation matrix may be formed.
    pub open spec fn matrix_req(self) -> bool {
        let p = self.products();
        &&& self.products_req()
        &&& T::one_spec().sub_req(p.yy2)
        &&& T::one_spec().sub_spec(p.yy2).sub_req(p.zz2)
        &&& p.xy2.add_req(p.sz2)
        &&& p.xz2.sub_req(p.sy2)
        &&& p.xy2.sub_req(p.sz2)
        &&& T::one_spec().sub_req(p.xx2)
        &&& T::one_spec().sub_spec(p.xx2).sub_req(p.zz2)
        &&& p.yz2.add_req(p.sx2)
        &&& p.xz2.add_req(p.sy2)
        &&& p.yz2.sub_req(p.sx2)
        &&& T::one_spec().sub_spec(p.xx2).sub_req(p.yy2)
    }

    /// The rotation matrix of the quaternion, of three rows.
    pub open spec fn matrix3_spec(self) -> Matrix3<T> {
        let p = self.products();
        Matrix3 {
            x: Vector3 {
                x: T::one_spec().sub_spec(p.yy2).sub_spec(p.zz2),
                y: p.xy2.add_spec(p.sz2),
                z: p.xz2.sub_spec(p.sy2),
            },
            y: Vector3 {
                x: p.xy2.sub_spec(p.sz2),
                y: T::one_spec().sub_spec(p.xx2).sub_spec(p.zz2),
                z: p.yz2.add_spec(p.sx2),
            },
            z: Vector3 {
                x: p.xz2.add_spec(p.sy2),
                y: p.yz2.sub_spec(p.sx2),
                z: T::one_spec().sub_spec(p.xx2).sub_spec(p.yy2),
            },
        }
    }

    /// The rotation matrix of the quaternion as a transformation of space
    /// that moves nothing: zeros around it and a one in the corner.
    pub open spec fn matrix4_spec(self) -> Matrix4<T> {
        Matrix4::from_matrix3_spec(self.matrix3_spec())
    }

    /// Whether the vector `rhs` may be turned by the quaternion.
    pub open spec fn mul_vector_req(self, rhs: Vector3<T>) -> bool {
        let p = self.products();
        &&& self.products_req()
        &&& p.yy2.add_req(p.zz2)
        &&& T::one_spec().sub_req(p.yy2.add_spec(p.zz2))
        &&& T::one_spec().sub_spec(p.yy2.add_spec(p.zz2)).mul_req(rhs.x)
        &&& p.xy2.sub_req(p.sz2)
        &&& p.xy2.sub_spec(p.sz2).mul_req(rhs.y)
        &&& T::one_spec().sub_spec(p.yy2.add_spec(p.zz2))
            .mul_spec(rhs.x)
            .add_req(p.xy2.sub_spec(p.sz2).mul_spec(rhs.y))
        &&& p.xz2.add_req(p.sy2)
        &&& p.xz2.add_spec(p.sy2).mul_req(rhs.z)
        &&& T::one_spec().sub_spec(p.yy2.add_spec(p.zz2))
            .mul_spec(rhs.x)
            .add_spec(p.xy2.sub_spec(p.sz2).mul_spec(rhs.y))
            .add_req(p.xz2.add_spec(p.sy2).mul_spec(rhs.z))
        &&& p.xy2.add_req(p.sz2)
        &&& p.xy2.add_spec(p.sz2).mul_req(rhs.x)
        &&& p.xx2.add_req(p.zz2)
        &&& T::one_spec().sub_req(p.xx2.add_spec(p.zz2))
        &&& T::one_spec().sub_spec(p.xx2.add_spec(p.zz2)).mul_req(rhs.y)
        &&& p.xy2.add_spec(p.sz2)
            .mul_spec(rhs.x)
            .add_req(T::one_spec().sub_spec(p.xx2.add_spec(p.zz2)).mul_spec(rhs.y))
        &&& p.yz2.sub_req(p.sx2)
        &&& p.yz2.sub_spec(p.sx2).mul_req(rhs.z)
        &&& p.xy2.add_spec(p.sz2)
            .mul_spec(rhs.x)
            .add_spec(T::one_spec().sub_spec(p.xx2.add_spec(p.zz2)).mul_spec(rhs.y))
            .add_req(p.yz2.sub_spec(p.sx2).mul_spec(rhs.z))
        &&& p.xz2.sub_req(p.sy2)
        &&& p.xz2.sub_spec(p.sy2).mul_req(rhs.x)
        &&& p.yz2.add_req(p.sx2)
        &&& p.yz2.add_spec(p.sx2).mul_req(rhs.y)
        &&& p.xz2.sub_spec(p.sy2).mul_spec(rhs.x).add_req(p.yz2.add_spec(p.sx2).mul_spec(rhs.y))
        &&& p.xx2.add_req(p.yy2)
        &&& T::one_spec().sub_req(p.xx2.add_spec(p.yy2))
        &&& T::one_spec().sub_spec(p.xx2.add_spec(p.yy2)).mul_req(rhs.z)
        &&& p.xz2.sub_spec(p.sy2)
            .mul_spec(rhs.x)
            .add_spec(p.yz2.add_spec(p.sx2).mul_spec(rhs.y))
            .add_req(T::one_spec().sub_spec(p.xx2.add_spec(p.yy2)).mul_spec(rhs.z))
    }

    /// The vector `rhs` turned by the quaternion: the rows of its rotation
    /// matrix, with each diagonal entry formed as one less a sum, times
    /// `rhs`.
    pub open spec fn mul_vector_spec(self, rhs: Vector3<T>) -> Vector3<T> {
        let p = self.products();
        Vector3 {
            x: T::one_spec().sub_spec(p.yy2.add_spec(p.zz2))
                .mul_spec(rhs.x)
                .add_spec(p.xy2.sub_spec(p.sz2).mul_spec(rhs.y))
                .add_spec(p.xz2.add_spec(p.sy2).mul_spec(rhs.z)),
            y: p.xy2.add_spec(p.sz2)
                .mul_spec(rhs.x)
                .add_spec(T::one_spec().sub_spec(p.xx2.add_spec(p.zz2)).mul_spec(rhs.y))
                .add_spec(p.yz2.sub_spec(p.sx2).mul_spec(rhs.z)),
            z: p.xz2.sub_spec(p.sy2)
                .mul_spec(rhs.x)
                .add_spec(p.yz2.add_spec(p.sx2).mul_spec(rhs.y))
                .add_spec(T::one_spec().sub_spec(p.xx2.add_spec(p.yy2)).mul_spec(rhs.z)),
        }
    }

    pub fn mul_vector(self, rhs: Vector3<T>) -> (r: Vector3<T>)
        requires
            self.mul_vector_req(rhs),
        ensures
            r == self.mul_vector_spec(rhs),
    {
        let p = self.doubled_products();
        Vector3 {
            x: T::one().sub(p.yy2.add(p.zz2))
                .mul(rhs.x)
                .add(p.xy2.sub(p.sz2).mul(rhs.y))
                .add(p.xz2.add(p.sy2).mul(rhs.z)),
            y: p.xy2.add(p.sz2)
                .mul(rhs.x)
                .add(T::one().sub(p.xx2.add(p.zz2)).mul(rhs.y))
                .add(p.yz2.sub(p.sx2).mul(rhs.z)),
            z: p.xz2.sub(p.sy2)
                .mul(rhs.x)
                .add(p.yz2.add(p.sx2).mul(rhs.y))
                .add(T::one().sub(p.xx2.add(p.yy2)).mul(rhs.z)),
        }
    }

    /// Whether the product with `rhs` may be formed.
    pub open spec fn mul_req(self, rhs: Self) -> bool {
        &&& self.scalar.mul_req(rhs.vector.x)
        &&& self.vector.x.mul_req(rhs.scalar)
        &&& self.scalar.mul_spec(rhs.vector.x).add_req(self.vector.x.mul_spec(rhs.scalar))
        &&& self.vector.y.mul_req(rhs.vector.z)
        &&& self.scalar.mul_spec(rhs.vector.x)
            .add_spec(self.vector.x.mul_spec(rhs.scalar))
            .add_req(self.vector.y.mul_spec(rhs.vector.z))
        &&& self.vector.z.mul_req(rhs.vector.y)
        &&& self.scalar.mul_spec(rhs.vector.x)
            .add_spec(self.vector.x.mul_spec(rhs.scalar))
            .add_spec(self.vector.y.mul_spec(rhs.vector.z))
            .sub_req(self.vector.z.mul_spec(rhs.vector.y))
        &&& self.scalar.mul_req(rhs.vector.y)
        &&& self.vector.y.mul_req(rhs.scalar)
        &&& self.scalar.mul_spec(rhs.vector.y).add_req(self.vector.y.mul_spec(rhs.scalar))
        &&& self.vector.z.mul_req(rhs.vector.x)
        &&& self.scalar.mul_spec(rhs.vector.y)
            .add_spec(self.vector.y.mul_spec(rhs.scalar))
            .add_req(self.vector.z.mul_spec(rhs.vector.x))
        &&& self.vector.x.mul_req(rhs.vector.z)
        &&& self.scalar.mul_spec(rhs.vector.y)
            .add_spec(self.vector.y.mul_spec(rhs.scalar))
            .add_spec(self.vector.z.mul_spec(rhs.vector.x))
            .sub_req(self.vector.x.mul_spec(rhs.vector.z))
        &&& self.scalar.mul_req(rhs.vector.z)
        &&& self.vector.z.mul_req(rhs.scalar)
        &&& self.scalar.mul_spec(rhs.vector.z).add_req(self.vector.z.mul_spec(rhs.scalar))
        &&& self.vector.x.mul_req(rhs.vector.y)
        &&& self.scalar.mul_spec(rhs.vector.z)
            .add_spec(self.vector.z.mul_spec(rhs.scalar))
            .add_req(self.vector.x.mul_spec(rhs.vector.y))
        &&& self.vector.y.mul_req(rhs.vector.x)
        &&& self.scalar.mul_spec(rhs.vector.z)
            .add_spec(self.vector.z.mul_spec(rhs.scalar))
            .add_spec(self.vector.x.mul_spec(rhs.vector.y))
            .sub_req(self.vector.y.mul_spec(rhs.vector.x))
        &&& self.scalar.mul_req(rhs.scalar)
        &&& self.vector.x.mul_req(rhs.vector.x)
        &&& self.scalar.mul_spec(rhs.scalar).sub_req(self.vector.x.mul_spec(rhs.vector.x))
        &&& self.vector.y.mul_req(rhs.vector.y)
        &&& self.scalar.mul_spec(rhs.scalar)
            .sub_spec(self.vector.x.mul_spec(rhs.vector.x))
            .sub_req(self.vector.y.mul_spec(rhs.vector.y))
        &&& self.vector.z.mul_req(rhs.vector.z)
        &&& self.scalar.mul_spec(rhs.scalar)
            .sub_spec(self.vector.x.mul_spec(rhs.vector.x))
            .sub_spec(self.vector.y.mul_spec(rhs.vector.y))
            .sub_req(self.vector.z.mul_spec(rhs.vector.z))
    }

    /// The Hamilton product of two quaternions.
    pub open spec fn mul_spec(self, rhs: Self) -> Self {
        Quaternion {
            vector: Vector3 {
                x: self.scalar.mul_spec(rhs.vector.x)
                    .add_spec(self.vector.x.mul_spec(rhs.scalar))
                    .add_spec(self.vector.y.mul_spec(rhs.vector.z))
                    .sub_spec(self.vector.z.mul_spec(rhs.vector.y)),
                y: self.scalar.mul_spec(rhs.vector.y)
                    .add_spec(self.vector.y.mul_spec(rhs.scalar))
                    .add_spec(self.vector.z.mul_spec(rhs.vector.x))
                    .sub_spec(self.vector.x.mul_spec(rhs.vector.z)),
                z: self.scalar.mul_spec(rhs.vector.z)
                    .add_spec(self.vector.z.mul_spec(rhs.scalar))
                    .add_spec(self.vector.x.mul_spec(rhs.vector.y))
                    .sub_spec(self.vector.y.mul_spec(rhs.vector.x)),
            },
            scalar: self.scalar.mul_spec(rhs.scalar)
                .sub_spec(self.vector.x.mul_spec(rhs.vector.x))
                .sub_spec(self.vector.y.mul_spec(rhs.vector.y))
                .sub_spec(self.vector.z.mul_spec(rhs.vector.z)),
        }
    }

    pub fn mul(self, rhs: Self) -> (r: Self)
        requires
            self.mul_req(rhs),
        ensures
            r == self.mul_spec(rhs),
    {
        Self {
            vector: Vector3 {
                x: self.scalar.mul(rhs.vector.x)
                    .add(self.vector.x.mul(rhs.scalar))
                    .add(self.vector.y.mul(rhs.vector.z))
                    .sub(self.vector.z.mul(rhs.vector.y)),
                y: self.scalar.mul(rhs.vector.y)
                    .add(self.vector.y.mul(rhs.scalar))
                    .add(self.vector.z.mul(rhs.vector.x))
                    .sub(self.vector.x.mul(rhs.vector.z)),
                z: self.scalar.mul(rhs.vector.z)
                    .add(self.vector.z.mul(rhs.scalar))
                    .add(self.vector.x.mul(rhs.vector.y))
                    .sub(self.vector.y.mul(rhs.vector.x)),
            },
            scalar: self.scalar.mul(rhs.scalar)
                .sub(self.vector.x.mul(rhs.vector.x))
                .sub(self.vector.y.mul(rhs.vector.y))
                .sub(self.vector.z.mul(rhs.vector.z)),
        }
    }
}

impl<T: Number> Matrix3<T> {
    /// The rotation matrix of `value`.
    pub fn from_quaternion(value: Quaternion<T>) -> (m: Self)
        requires
            value.matrix_req(),
        ensures
            m == value.matrix3_spec(),
    {
        let p = value.doubled_products();
        Matrix3 {
            x: Vector3 {
                x: T::one().sub(p.yy2).sub(p.zz2),
                y: p.xy2.add(p.sz2),
                z: p.xz2.sub(p.sy2),
            },
            y: Vector3 {
                x: p.xy2.sub(p.sz2),
                y: T::one().sub(p.xx2).sub(p.zz2),
                z: p.yz2.add(p.sx2),
            },
            z: Vector3 {
                x: p.xz2.add(p.sy2),
                y: p.yz2.sub(p.sx2),
                z: T::one().sub(p.xx2).sub(p.yy2),
            },
        }
    }
}

impl<T: Number> Matrix4<T> {
    /// The rotation matrix of `value` as a transformation of space.
    pub fn from_quaternion(value: Quaternion<T>) -> (m: Self)
        requires
            value.matrix_req(),
        ensures
            m == value.matrix4_spec(),
    {
        let p = value.doubled_products();
        Matrix4 {
            x: Vector4 {
                x: T::one().sub(p.yy2).sub(p.zz2),
                y: p.xy2.add(p.sz2),
                z: p.xz2.sub(p.sy2),
                w: T::zero(),
            },
            y: Vector4 {
                x: p.xy2.sub(p.sz2),
                y: T::one().sub(p.xx2).sub(p.zz2),
                z: p.yz2.add(p.sx2),
                w: T::zero(),
            },
            z: Vector4 {
                x: p.xz2.add(p.sy2),
                y: p.yz2.sub(p.sx2),
                z: T::one().sub(p.xx2).sub(p.yy2),
                w: T::zero(),
            },
            w: Vector4 { x: T::zero(), y: T::zero(), z: T::zero(), w: T::one() },
        }
    }
}

/// The sines and cosines of the halves of three angles.
pub struct HalfAngles<T> {
    pub sin_yaw: T,
    pub cos_yaw: T,
    pub sin_pitch: T,
    pub cos_pitch: T,
    pub sin_roll: T,
    pub cos_roll: T,
}

impl<T: FloatingPoint> HalfAngles<T> {
    /// Those of the angles `v`, with the yaw in `x`, the pitch in `y` and
    /// the roll in `z`.
    pub open spec fn of(v: Vector3<T>) -> Self {
        let two = T::from_i64_spec(2);
        HalfAngles {
            sin_yaw: v.x.div_spec(two).sin_spec(),
            cos_yaw: v.x.div_spec(two).cos_spec(),
            sin_pitch: v.y.div_spec(two).sin_spec(),
            cos_pitch: v.y.div_spec(two).cos_spec(),
            sin_roll: v.z.div_spec(two).sin_spec(),
            cos_roll: v.z.div_spec(two).cos_spec(),
        }
    }
}

impl<T: FloatingPoint> Quaternion<T> {
    /// The quaternion of the rotation by the Euler angles `v`, with the yaw
    /// in `x`, the pitch in `y` and the roll in `z`.
    pub open spec fn from_euler_spec(v: Vector3<T>) -> Self {
        let h = HalfAngles::of(v);
        Quaternion {
            vector: Vector3 {
                x: h.sin_roll.mul_spec(h.cos_pitch)
                    .mul_spec(h.cos_yaw)
                    .sub_spec(h.cos_roll.mul_spec(h.sin_pitch).mul_spec(h.sin_yaw)),
                y: h.cos_roll.mul_spec(h.sin_pitch)
                    .mul_spec(h.cos_yaw)
                    .add_spec(h.sin_roll.mul_spec(h.cos_pitch).mul_spec(h.sin_yaw)),
                z: h.cos_roll.mul_spec(h.cos_pitch)
                    .mul_spec(h.sin_yaw)
                    .sub_spec(h.sin_roll.mul_spec(h.sin_pitch).mul_spec(h.cos_yaw)),
            },
            scalar: h.cos_roll.mul_spec(h.cos_pitch)
                .mul_spec(h.cos_yaw)
                .add_spec(h.sin_roll.mul_spec(h.sin_pitch).mul_spec(h.sin_yaw)),
        }
    }

    /// Converts Euler angles into a quaternion.
    pub fn from_euler(v: Vector3<T>) -> (q: Self)
        ensures
            q == Self::from_euler_spec(v),
    {
        proof {
            T::arithmetic_is_total();
        }
        let two = T::from_i64(2);
        let h = HalfAngles {
            sin_yaw: v.x.div(two).sin(),
            cos_yaw: v.x.div(two).cos(),
            sin_pitch: v.y.div(two).sin(),
            cos_pitch: v.y.div(two).cos(),
            sin_roll: v.z.div(two).sin(),
            cos_roll: v.z.div(two).cos(),
        };
        Self {
            vector: Vector3 {
                x: h.sin_roll.mul(h.cos_pitch)
                    .mul(h.cos_yaw)
                    .sub(h.cos_roll.mul(h.sin_pitch).mul(h.sin_yaw)),
                y: h.cos_roll.mul(h.sin_pitch)
                    .mul(h.cos_yaw)
                    .add(h.sin_roll.mul(h.cos_pitch).mul(h.sin_yaw)),
                z: h.cos_roll.mul(h.cos_pitch)
                    .mul(h.sin_yaw)
                    .sub(h.sin_roll.mul(h.sin_pitch).mul(h.cos_yaw)),
            },
            scalar: h.cos_roll.mul(h.cos_pitch)
                .mul(h.cos_yaw)
                .add(h.sin_roll.mul(h.sin_pitch).mul(h.sin_yaw)),
        }
    }

    /// The quaternion of the rotation by `angle` about `vector`: `vector`
    /// times the sine of half the angle, with the cosine of half the angle
    /// as the scalar part.
    pub open spec fn angle_axis_spec(angle: T, vector: Vector3<T>) -> Self {
        let half_angle = angle.mul_spec(half_spec::<T>());
        Quaternion {
            vector: vector.mul_scalar_spec(half_angle.sin_spec()),
            scalar: half_angle.cos_spec(),
        }
    }

    pub fn angle_axis(angle: T, vector: Vector3<T>) -> (q: Self)
        ensures
            q == Self::angle_axis_spec(angle, vector),
    {
        proof {
            T::arithmetic_is_total();
        }
        let half_angle = angle.mul(half());
        let s = half_angle.sin();
        Self { vector: vector.mul_scalar(s), scalar: half_angle.cos() }
    }

    /// The sine of the pitch, `2·(w·y - z·x)`, held below one and then
    /// above minus one: outside of these no angle has it as its sine.
    pub open spec fn pitch_sine(self) -> T {
        let (x, y, z, w) = (self.vector.x, self.vector.y, self.vector.z, self.scalar);
        let two = T::from_i64_spec(2);
        let t2 = two.mul_spec(w.mul_spec(y).sub_spec(z.mul_spec(x)));
        let capped = if T::one_spec().less_spec(t2) {
            T::one_spec()
        } else {
            t2
        };
        if capped.less_spec(T::one_spec().neg_spec()) {
            T::one_spec().neg_spec()
        } else {
            capped
        }
    }

    /// The Euler angles of the rotation, with the yaw in `x`, the pitch in
    /// `y` and the roll in `z`:
    /// the yaw is `atan2(2·(w·z + x·y), 1 - 2·(y² + z²))`, the pitch the
    /// arc sine of `pitch_sine`, the roll
    /// `atan2(2·(w·x + y·z), 1 - 2·(x² + y²))`.
    pub open spec fn to_euler_spec(self) -> Vector3<T> {
        let (x, y, z, w) = (self.vector.x, self.vector.y, self.vector.z, self.scalar);
        let two = T::from_i64_spec(2);
        Vector3 {
            x: two.mul_spec(w.mul_spec(z).add_spec(x.mul_spec(y))).atan2_spec(
                T::one_spec().sub_spec(two.mul_spec(y.mul_spec(y).add_spec(z.mul_spec(z)))),
            ),
            y: self.pitch_sine().asin_spec(),
            z: two.mul_spec(w.mul_spec(x).add_spec(y.mul_spec(z))).atan2_spec(
                T::one_spec().sub_spec(two.mul_spec(x.mul_spec(x).add_spec(y.mul_spec(y)))),
            ),
        }
    }

    pub fn to_euler(&self) -> (v: Vector3<T>)
        ensures
            v == self.to_euler_spec(),
    {
        proof {
            T::arithmetic_is_total();
        }
        let (x, y, z, w) = (self.vector.x, self.vector.y, self.vector.z, self.scalar);
        let two = T::from_i64(2);
        let t0 = two.mul(w.mul(x).add(y.mul(z)));
        let t1 = T::one().sub(two.mul(x.mul(x).add(y.mul(y))));
        let roll = t0.atan2(t1);
        let t2 = two.mul(w.mul(y).sub(z.mul(x)));
        let t2 = if T::one().less(t2) {
            T::one()
        } else {
            t2
        };
        let t2 = if t2.less(T::one().neg()) {
            T::one().neg()
        } else {
            t2
        };
        let pitch = t2.asin();
        let t3 = two.mul(w.mul(z).add(x.mul(y)));
        let t4 = T::one().sub(two.mul(y.mul(y).add(z.mul(z))));
        let yaw = t3.atan2(t4);
        Vector3::new(yaw, pitch, roll)
    }
}

} // verus!
