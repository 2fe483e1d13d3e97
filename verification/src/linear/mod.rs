pub mod bbox;
pub mod candidates;
pub mod dimension;
pub mod distance;
pub mod exact;
pub mod geometry;
pub mod integers;
pub mod matrix;
pub mod mirror;
pub mod nearest;
pub mod rotation;
pub mod sdf;
pub mod segments;
pub mod shapes;
pub mod smoothing;
pub mod traits;
pub mod transform;
pub mod vector;

pub use bbox::BoundingBox2D;
pub use bbox::BoundingBox3D;
pub use dimension::Dimension;
pub use dimension::FlatDimension;
pub use dimension::SolidDimension;
pub use geometry::EuclideanGeometry;
pub use geometry::NonEuclideanGeometry;
pub use matrix::Matrix2;
pub use matrix::Matrix2x3;
pub use matrix::Matrix2x4;
pub use matrix::Matrix3;
pub use matrix::Matrix3x2;
pub use matrix::Matrix3x4;
pub use matrix::Matrix4;
pub use matrix::Matrix4x2;
pub use matrix::SquareMatrix;
pub use transform::MatrixRepresentation;
pub use transform::Transform;
pub use transform::Transform2D;
pub use transform::Transform3D;
pub use transform::TransformQuaternion3D;
pub use traits::half;
pub use traits::half_spec;
pub use exact::ExactNumber;
pub use exact::computes_cosines;
pub use exact::computes_exactly;
pub use traits::FloatingPoint;
pub use traits::Number;
pub use traits::SignedNumber;
pub use traits::UnsignedNumber;
pub use vector::Vector;
pub use vector::Vector2;
pub use vector::Vector3;
pub use vector::Vector4;
pub use rotation::Rotation;
pub use segments::CubicSegment;
pub use segments::FlatSegment;
pub use segments::LinearSegment;
pub use segments::QuadraticSegment;
pub use segments::Segment;
pub use shapes::Cube;
pub use shapes::Rectangle;
pub use shapes::Simplex;
pub use shapes::Triangle;

use vstd::prelude::*;

verus! {

// Vectors and matrices over the machine integers that are scalars.
pub type IVec2 = Vector2<i32>;
pub type LVec2 = Vector2<i64>;
pub type UIVec2 = Vector2<u32>;
pub type ULVec2 = Vector2<u64>;
pub type USizeVec2 = Vector2<usize>;

pub type IVec3 = Vector3<i32>;
pub type LVec3 = Vector3<i64>;
pub type UIVec3 = Vector3<u32>;
pub type ULVec3 = Vector3<u64>;
pub type USizeVec3 = Vector3<usize>;

pub type IVec4 = Vector4<i32>;
pub type LVec4 = Vector4<i64>;
pub type UIVec4 = Vector4<u32>;
pub type ULVec4 = Vector4<u64>;
pub type USizeVec4 = Vector4<usize>;

pub type IMat2 = Matrix2<i32>;
pub type LMat2 = Matrix2<i64>;
pub type UIMat2 = Matrix2<u32>;
pub type ULMat2 = Matrix2<u64>;
pub type USizeMat2 = Matrix2<usize>;

pub type IMat2x3 = Matrix2x3<i32>;
pub type LMat2x3 = Matrix2x3<i64>;
pub type UIMat2x3 = Matrix2x3<u32>;
pub type ULMat2x3 = Matrix2x3<u64>;
pub type USizeMat2x3 = Matrix2x3<usize>;

pub type IMat2x4 = Matrix2x4<i32>;
pub type LMat2x4 = Matrix2x4<i64>;
pub type UIMat2x4 = Matrix2x4<u32>;
pub type ULMat2x4 = Matrix2x4<u64>;
pub type USizeMat2x4 = Matrix2x4<usize>;

pub type IMat3 = Matrix3<i32>;
pub type LMat3 = Matrix3<i64>;
pub type UIMat3 = Matrix3<u32>;
pub type ULMat3 = Matrix3<u64>;
pub type USizeMat3 = Matrix3<usize>;

pub type IMat3x2 = Matrix3x2<i32>;
pub type LMat3x2 = Matrix3x2<i64>;
pub type UIMat3x2 = Matrix3x2<u32>;
pub type ULMat3x2 = Matrix3x2<u64>;
pub type USizeMat3x2 = Matrix3x2<usize>;

pub type IMat3x4 = Matrix3x4<i32>;
pub type LMat3x4 = Matrix3x4<i64>;
pub type UIMat3x4 = Matrix3x4<u32>;
pub type ULMat3x4 = Matrix3x4<u64>;
pub type USizeMat3x4 = Matrix3x4<usize>;

pub type IMat4 = Matrix4<i32>;
pub type LMat4 = Matrix4<i64>;
pub type UIMat4 = Matrix4<u32>;
pub type ULMat4 = Matrix4<u64>;
pub type USizeMat4 = Matrix4<usize>;

pub type IMat4x2 = Matrix4x2<i32>;
pub type LMat4x2 = Matrix4x2<i64>;
pub type UIMat4x2 = Matrix4x2<u32>;
pub type ULMat4x2 = Matrix4x2<u64>;
pub type USizeMat4x2 = Matrix4x2<usize>;

/// Whether the rows of `m`, each scaled by the component of `v` of its name,
/// may be summed from the first row on, and the last row of `m` added.
pub open spec fn translate_req<T: Number>(m: Matrix4<T>, v: Vector3<T>) -> bool {
    let x = m.x.mul_scalar_spec(v.x);
    let y = m.y.mul_scalar_spec(v.y);
    let z = m.z.mul_scalar_spec(v.z);
    &&& m.x.mul_scalar_req(v.x)
    &&& m.y.mul_scalar_req(v.y)
    &&& m.z.mul_scalar_req(v.z)
    &&& x.add_req(y)
    &&& x.add_spec(y).add_req(z)
    &&& x.add_spec(y).add_spec(z).add_req(m.w)
}

/// The transformation `m` followed by a move by `v`: the last row becomes
/// `m.x·v.x + m.y·v.y + m.z·v.z + m.w`, the others stay.
pub open spec fn translate_spec<T: Number>(m: Matrix4<T>, v: Vector3<T>) -> Matrix4<T> {
    Matrix4 {
        x: m.x,
        y: m.y,
        z: m.z,
        w: m.x.mul_scalar_spec(v.x).add_spec(m.y.mul_scalar_spec(v.y)).add_spec(
            m.z.mul_scalar_spec(v.z),
        ).add_spec(m.w),
    }
}

pub fn translate<T: Number>(m: &Matrix4<T>, v: Vector3<T>) -> (r: Matrix4<T>)
    requires
        translate_req(*m, v),
    ensures
        r == translate_spec(*m, v),
{
    let mut result = *m;
    result.w = m.x.mul_scalar(v.x).add(m.y.mul_scalar(v.y)).add(m.z.mul_scalar(v.z)).add(m.w);
    result
}

/// Whether the slope of the line through `a` and `b` may be formed.
pub open spec fn slope_req<T: Number>(a: Vector2<T>, b: Vector2<T>) -> bool {
    &&& b.y.sub_req(a.y)
    &&& b.x.sub_req(a.x)
    &&& b.y.sub_spec(a.y).div_req(b.x.sub_spec(a.x))
}

/// The rise of the line through `a` and `b` over its run:
/// `(b.y - a.y) / (b.x - a.x)`.
pub open spec fn slope_spec<T: Number>(a: Vector2<T>, b: Vector2<T>) -> T {
    b.y.sub_spec(a.y).div_spec(b.x.sub_spec(a.x))
}

pub fn slope<T: Number>(a: Vector2<T>, b: Vector2<T>) -> (r: T)
    requires
        slope_req(a, b),
    ensures
        r == slope_spec(a, b),
{
    b.y.sub(a.y).div(b.x.sub(a.x))
}

/// The dot products from which barycentric coordinates are computed, for
/// the edges `v0`, `v1` of a triangle from one of its corners and the
/// vector `v2` from that corner to the point asked about.
pub struct EdgeProducts<T> {
    pub d00: T,
    pub d01: T,
    pub d11: T,
    pub d20: T,
    pub d21: T,
}

impl<T: Number> EdgeProducts<T> {
    pub open spec fn of(v0: Vector2<T>, v1: Vector2<T>, v2: Vector2<T>) -> Self {
        EdgeProducts {
            d00: v0.dot_spec(v0),
            d01: v0.dot_spec(v1),
            d11: v1.dot_spec(v1),
            d20: v2.dot_spec(v0),
            d21: v2.dot_spec(v1),
        }
    }

    /// `d00·d11 - d01²`: twice the area of the triangle, squared.
    pub open spec fn denominator(self) -> T {
        self.d00.mul_spec(self.d11).sub_spec(self.d01.mul_spec(self.d01))
    }

    /// The weight of the corner at the end of `v0`:
    /// `(d11·d20 - d01·d21) / denominator`.
    pub open spec fn v(self) -> T {
        self.d11.mul_spec(self.d20).sub_spec(self.d01.mul_spec(self.d21)).div_spec(
            self.denominator(),
        )
    }

    /// The weight of the corner at the end of `v1`:
    /// `(d00·d21 - d01·d20) / denominator`.
    pub open spec fn w(self) -> T {
        self.d00.mul_spec(self.d21).sub_spec(self.d01.mul_spec(self.d20)).div_spec(
            self.denominator(),
        )
    }

    /// Whether the three weights may be formed.
    pub open spec fn weights_req(self) -> bool {
        &&& self.d00.mul_req(self.d11)
        &&& self.d01.mul_req(self.d01)
        &&& self.d00.mul_spec(self.d11).sub_req(self.d01.mul_spec(self.d01))
        &&& self.d11.mul_req(self.d20)
        &&& self.d01.mul_req(self.d21)
        &&& self.d11.mul_spec(self.d20).sub_req(self.d01.mul_spec(self.d21))
        &&& self.d11.mul_spec(self.d20).sub_spec(self.d01.mul_spec(self.d21)).div_req(
            self.denominator(),
        )
        &&& self.d00.mul_req(self.d21)
        &&& self.d01.mul_req(self.d20)
        &&& self.d00.mul_spec(self.d21).sub_req(self.d01.mul_spec(self.d20))
        &&& self.d00.mul_spec(self.d21).sub_spec(self.d01.mul_spec(self.d20)).div_req(
            self.denominator(),
        )
        &&& T::one_spec().sub_req(self.v())
        &&& T::one_spec().sub_spec(self.v()).sub_req(self.w())
    }
}

/// Whether the barycentric coordinates of `p` may be formed.
pub open spec fn barycentric_coordinates_req<T: Number>(
    start: Vector2<T>,
    end: Vector2<T>,
    control: Vector2<T>,
    p: Vector2<T>,
) -> bool {
    let v0 = end.sub_spec(start);
    let v1 = control.sub_spec(start);
    let v2 = p.sub_spec(start);
    &&& end.sub_req(start)
    &&& control.sub_req(start)
    &&& p.sub_req(start)
    &&& v0.dot_req(v0)
    &&& v0.dot_req(v1)
    &&& v1.dot_req(v1)
    &&& v2.dot_req(v0)
    &&& v2.dot_req(v1)
    &&& EdgeProducts::of(v0, v1, v2).weights_req()
}

/// The barycentric coordinates of `p` in the triangle `start`, `end`,
/// `control`: with `v` the weight of `end`, `w` that of `control` and
/// `u = 1 - v - w` that of `start`, the vector `(w, v, u)`.
pub open spec fn barycentric_coordinates_spec<T: Number>(
    start: Vector2<T>,
    end: Vector2<T>,
    control: Vector2<T>,
    p: Vector2<T>,
) -> Vector3<T> {
    let products = EdgeProducts::of(
        end.sub_spec(start), control.sub_spec(start), p.sub_spec(start),
    );
    Vector3 {
        x: products.w(),
        y: products.v(),
        z: T::one_spec().sub_spec(products.v()).sub_spec(products.w()),
    }
}

pub fn barycentric_coordinates<T: Number>(
    start: Vector2<T>,
    end: Vector2<T>,
    control: Vector2<T>,
    p: Vector2<T>,
) -> (r: Vector3<T>)
    requires
        barycentric_coordinates_req(start, end, control, p),
    ensures
        r == barycentric_coordinates_spec(start, end, control, p),
{
    let v0 = end.sub(start);
    let v1 = control.sub(start);
    let v2 = p.sub(start);
    let d00 = v0.dot(&v0);
    let d01 = v0.dot(&v1);
    let d11 = v1.dot(&v1);
    let d20 = v2.dot(&v0);
    let d21 = v2.dot(&v1);
    let denom = d00.mul(d11).sub(d01.mul(d01));
    let v = d11.mul(d20).sub(d01.mul(d21)).div(denom);
    let w = d00.mul(d21).sub(d01.mul(d20)).div(denom);
    let u = T::one().sub(v).sub(w);
    Vector3 { x: w, y: v, z: u }
}

/// Twice the signed area of the triangle `a`, `b`, `p`, computed as
/// `pa.x·n.y + pa.y·ba.x` with `pa = p - a`, `ba = b - a` and
/// `n = -b + a`.
pub open spec fn line_pseudo_sdf_spec<T: FloatingPoint>(
    a: Vector2<T>,
    b: Vector2<T>,
    p: Vector2<T>,
) -> T {
    let pa = p.sub_spec(a);
    let negba = b.neg_spec().add_spec(a);
    let ba = b.sub_spec(a);
    pa.x.mul_spec(negba.y).add_spec(pa.y.mul_spec(ba.x))
}

/// The signed distance from `p` to the line through `a` and `b`, without
/// the division by the length of the line.
pub fn line_pseudo_sdf<T: FloatingPoint>(a: Vector2<T>, b: Vector2<T>, p: Vector2<T>) -> (r: T)
    ensures
        r == line_pseudo_sdf_spec(a, b, p),
{
    proof {
        T::arithmetic_is_total();
    }
    let pa = p.sub(a);
    let negba = b.neg().add(a);
    let ba = b.sub(a);
    pa.x.mul(negba.y).add(pa.y.mul(ba.x))
}

/// The `line_pseudo_sdf_spec` divided by `√(n.y² + ba.x²)`, with
/// `ba = b - a` and `n = -b + a`.
pub open spec fn line_sdf_spec<T: FloatingPoint>(a: Vector2<T>, b: Vector2<T>, p: Vector2<T>) -> T {
    let negba = b.neg_spec().add_spec(a);
    let ba = b.sub_spec(a);
    line_pseudo_sdf_spec(a, b, p).div_spec(
        negba.y.mul_spec(negba.y).add_spec(ba.x.mul_spec(ba.x)).sqrt_spec(),
    )
}

/// The signed distance from `p` to the line through `a` and `b`.
pub fn line_sdf<T: FloatingPoint>(a: Vector2<T>, b: Vector2<T>, p: Vector2<T>) -> (r: T)
    ensures
        r == line_sdf_spec(a, b, p),
{
    proof {
        T::arithmetic_is_total();
    }
    let pa = p.sub(a);
    let negba = b.neg().add(a);
    let ba = b.sub(a);
    pa.x.mul(negba.y).add(pa.y.mul(ba.x)).div(negba.y.mul(negba.y).add(ba.x.mul(ba.x)).sqrt())
}

/// The implicit function of the quadratic curve from `start` to `end`
/// around `control`, at the point of the given barycentric coordinates:
/// with `u = x/2 + z` and `v = z`, the value `v - u²` where the control
/// triangle turns clockwise, that is where the cross product of
/// `start - control` and `end - control` is negative, and `u² - v` where
/// it does not.
pub open spec fn quadratic_bezier_curve_sdf_spec<T: FloatingPoint>(
    start: Vector2<T>,
    end: Vector2<T>,
    control: Vector2<T>,
    barycentric_coordinates: Vector3<T>,
) -> T {
    let cross_z = start.sub_spec(control).cross_spec(end.sub_spec(control));
    let u = half_spec::<T>().mul_spec(barycentric_coordinates.x)
        .add_spec(barycentric_coordinates.z);
    let v = barycentric_coordinates.z;
    if cross_z.less_spec(T::zero_spec()) {
        v.sub_spec(u.mul_spec(u))
    } else {
        u.mul_spec(u).sub_spec(v)
    }
}

pub fn quadratic_bezier_curve_sdf<T: FloatingPoint>(
    start: Vector2<T>,
    end: Vector2<T>,
    control: Vector2<T>,
    barycentric_coordinates: Vector3<T>,
) -> (r: T)
    ensures
        r == quadratic_bezier_curve_sdf_spec(start, end, control, barycentric_coordinates),
{
    proof {
        T::arithmetic_is_total();
    }
    let control_to_start = start.sub(control);
    let control_to_end = end.sub(control);
    let cross_z = control_to_start.cross(control_to_end);
    let uv_p = Vector2::<T>::new(
        half::<T>().mul(barycentric_coordinates.x).add(barycentric_coordinates.z),
        barycentric_coordinates.z,
    );
    if cross_z.less(T::zero()) {
        uv_p.y.sub(uv_p.x.mul(uv_p.x))
    } else {
        uv_p.x.mul(uv_p.x).sub(uv_p.y)
    }
}

/// One for a positive `n`, minus one for any other: a sign that is never
/// zero, so that a point on a curve still lies on a side of it.
pub open spec fn non_zero_sign_spec<T: FloatingPoint>(n: T) -> T {
    if T::zero_spec().less_spec(n) {
        T::one_spec()
    } else {
        T::one_spec().neg_spec()
    }
}

pub fn non_zero_sign<T: FloatingPoint>(n: T) -> (r: T)
    ensures
        r == non_zero_sign_spec(n),
        r == T::one_spec() || r == T::one_spec().neg_spec(),
        !r.equal_spec(T::zero_spec()),
{
    proof {
        T::arithmetic_is_total();
        T::zero_is_below_one();
        T::minus_one_is_not_zero();
    }
    if T::zero().less(n) {
        T::one()
    } else {
        T::one().neg()
    }
}

} // verus!
