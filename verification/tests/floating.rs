use drowsed_math::complex::quaternion::Quaternion;
use drowsed_math::debug::create_cube;
use drowsed_math::equations::quadratic::sd_bezier;
use drowsed_math::linear::transform::rotater;
use drowsed_math::smoothing::inverse_lerp;
use drowsed_math::smoothing::lerp;
use drowsed_math::smoothing::remap;
use drowsed_math::smoothing::smoothstep;
use drowsed_math::barycentric_coordinates;
use drowsed_math::line_pseudo_sdf;
use drowsed_math::line_sdf;
use drowsed_math::quadratic_bezier_curve_sdf;
use drowsed_math::FloatingPoint;
use drowsed_math::LinearSegment;
use drowsed_math::Matrix2;
use drowsed_math::Matrix3;
use drowsed_math::Matrix4;
use drowsed_math::MatrixRepresentation;
use drowsed_math::Number;
use drowsed_math::Rotation;
use drowsed_math::Segment;
use drowsed_math::SignedNumber;
use drowsed_math::SquareMatrix;
use drowsed_math::Transform;
use drowsed_math::Transform2D;
use drowsed_math::Transform3D;
use drowsed_math::TransformQuaternion3D;
use drowsed_math::Vector;
use drowsed_math::Vector2;
use drowsed_math::Vector3;
use drowsed_math::Vector4;
use num_traits::Float;
use std::f64::consts::PI;

/// A double as a scalar of the library.
#[derive(Clone, Copy, Debug, PartialEq, PartialOrd)]
struct Real(f64);

impl Number for Real {
    fn zero_spec() -> Self {
        Self::zero()
    }
    fn one_spec() -> Self {
        Self::one()
    }
    fn add_req(self, _rhs: Self) -> bool {
        true
    }
    fn add_spec(self, rhs: Self) -> Self {
        self.add(rhs)
    }
    fn sub_req(self, _rhs: Self) -> bool {
        true
    }
    fn sub_spec(self, rhs: Self) -> Self {
        self.sub(rhs)
    }
    fn mul_req(self, _rhs: Self) -> bool {
        true
    }
    fn mul_spec(self, rhs: Self) -> Self {
        self.mul(rhs)
    }
    fn div_req(self, _rhs: Self) -> bool {
        true
    }
    fn div_spec(self, rhs: Self) -> Self {
        self.div(rhs)
    }
    fn rem_req(self, _rhs: Self) -> bool {
        true
    }
    fn rem_spec(self, rhs: Self) -> Self {
        self.rem(rhs)
    }
    fn equal_spec(self, rhs: Self) -> bool {
        self.equal(rhs)
    }
    fn less_spec(self, rhs: Self) -> bool {
        self.less(rhs)
    }
    fn less_equal_spec(self, rhs: Self) -> bool {
        self.less_equal(rhs)
    }
    fn zero_is_below_one() {}
    fn zero() -> Self {
        Real(num_traits::Zero::zero())
    }
    fn one() -> Self {
        Real(num_traits::One::one())
    }
    fn add(self, rhs: Self) -> Self {
        Real(self.0 + rhs.0)
    }
    fn sub(self, rhs: Self) -> Self {
        Real(self.0 - rhs.0)
    }
    fn mul(self, rhs: Self) -> Self {
        Real(self.0 * rhs.0)
    }
    fn div(self, rhs: Self) -> Self {
        Real(self.0 / rhs.0)
    }
    fn rem(self, rhs: Self) -> Self {
        Real(self.0 % rhs.0)
    }
    fn equal(self, rhs: Self) -> bool {
        self.0 == rhs.0
    }
    fn less(self, rhs: Self) -> bool {
        self.0 < rhs.0
    }
    fn less_equal(self, rhs: Self) -> bool {
        self.0 <= rhs.0
    }
}

impl SignedNumber for Real {
    fn neg_req(self) -> bool {
        true
    }
    fn neg_spec(self) -> Self {
        self.neg()
    }
    fn abs_req(self) -> bool {
        true
    }
    fn abs_spec(self) -> Self {
        self.abs()
    }
    fn signum_spec(self) -> Self {
        self.signum()
    }
    fn minus_one_is_not_zero() {}
    fn neg(self) -> Self {
        Real(-self.0)
    }
    fn abs(self) -> Self {
        Real(Float::abs(self.0))
    }
    fn signum(self) -> Self {
        Real(Float::signum(self.0))
    }
}

impl FloatingPoint for Real {
    fn sqrt_spec(self) -> Self {
        self.sqrt()
    }
    fn cbrt_spec(self) -> Self {
        self.cbrt()
    }
    fn sin_spec(self) -> Self {
        self.sin()
    }
    fn cos_spec(self) -> Self {
        self.cos()
    }
    fn asin_spec(self) -> Self {
        self.asin()
    }
    fn acos_spec(self) -> Self {
        self.acos()
    }
    fn atan2_spec(self, other: Self) -> Self {
        self.atan2(other)
    }
    fn powf_spec(self, n: Self) -> Self {
        self.powf(n)
    }
    fn from_i64_spec(n: i64) -> Self {
        Self::from_i64(n)
    }
    fn pi_spec() -> Self {
        Self::pi()
    }
    fn arithmetic_is_total() {}
    fn sqrt(self) -> Self {
        Real(Float::sqrt(self.0))
    }
    fn cbrt(self) -> Self {
        Real(Float::cbrt(self.0))
    }
    fn sin(self) -> Self {
        Real(Float::sin(self.0))
    }
    fn cos(self) -> Self {
        Real(Float::cos(self.0))
    }
    fn asin(self) -> Self {
        Real(Float::asin(self.0))
    }
    fn acos(self) -> Self {
        Real(Float::acos(self.0))
    }
    fn atan2(self, other: Self) -> Self {
        Real(Float::atan2(self.0, other.0))
    }
    fn powf(self, n: Self) -> Self {
        Real(Float::powf(self.0, n.0))
    }
    fn from_i64(n: i64) -> Self {
        Real(n as f64)
    }
    fn pi() -> Self {
        Real(std::f64::consts::PI)
    }
}

fn v2(x: f64, y: f64) -> Vector2<Real> {
    Vector2::new(Real(x), Real(y))
}

fn v3(x: f64, y: f64, z: f64) -> Vector3<Real> {
    Vector3::new(Real(x), Real(y), Real(z))
}

fn v4(x: f64, y: f64, z: f64, w: f64) -> Vector4<Real> {
    Vector4::new(Real(x), Real(y), Real(z), Real(w))
}

fn close(a: Real, b: f64) -> bool {
    (a.0 - b).abs() < 1e-9
}

fn close2(a: Vector2<Real>, x: f64, y: f64) -> bool {
    close(a.x, x) && close(a.y, y)
}

fn close3(a: Vector3<Real>, x: f64, y: f64, z: f64) -> bool {
    close(a.x, x) && close(a.y, y) && close(a.z, z)
}

fn close4(a: Vector4<Real>, x: f64, y: f64, z: f64, w: f64) -> bool {
    close(a.x, x) && close(a.y, y) && close(a.z, z) && close(a.w, w)
}

#[test]
fn lengths() {
    assert_eq!(v2(3.0, 4.0).magnitude(), Real(5.0));
    assert_eq!(v2(3.0, 4.0).length(), Real(5.0));
    assert_eq!(v3(2.0, 3.0, 6.0).magnitude(), Real(7.0));
    assert_eq!(v4(1.0, 1.0, 1.0, 1.0).length(), Real(2.0));
    assert_eq!(Vector::magnitude(&v2(3.0, 4.0)), Real(5.0));
    assert_eq!(Vector::length(&v3(2.0, 3.0, 6.0)), Real(7.0));
}

#[test]
fn normalized_and_projected() {
    assert!(close2(v2(3.0, 4.0).normalize(), 0.6, 0.8));
    assert!(close3(v3(0.0, 0.0, 5.0).normalize(), 0.0, 0.0, 1.0));
    assert!(close4(v4(2.0, 2.0, 2.0, 2.0).normalize(), 0.5, 0.5, 0.5, 0.5));
    assert!(close2(v2(3.0, 4.0).project(&v2(1.0, 0.0)), 0.36, 0.48));
    assert!(close3(v3(0.0, 2.0, 0.0).project(&v3(5.0, 7.0, 9.0)), 0.0, 7.0, 0.0));
    assert!(close4(Vector::project(&v4(0.0, 0.0, 0.0, 3.0), &v4(1.0, 2.0, 3.0, 4.0)), 0.0, 0.0, 0.0, 4.0));
    assert!(v2(0.0, 0.0).normalize().x.0.is_nan());
}

#[test]
fn unit_normals() {
    assert!(close2(v2(3.0, 4.0).get_orthonomal(true, false), -0.8, 0.6));
    assert!(close2(v2(3.0, 4.0).get_orthonomal(false, false), 0.8, -0.6));
    assert_eq!(v2(0.0, 0.0).get_orthonomal(true, false), v2(0.0, 1.0));
    assert_eq!(v2(0.0, 0.0).get_orthonomal(false, false), v2(0.0, -1.0));
    assert_eq!(v2(0.0, 0.0).get_orthonomal(true, true), v2(0.0, 0.0));
    assert_eq!(v2(0.0, 0.0).get_orthonomal(false, true), v2(0.0, 0.0));
}

#[test]
fn powers_and_angles() {
    assert_eq!(v2(2.0, 3.0).pow(v2(3.0, 2.0)), v2(8.0, 9.0));
    assert_eq!(v3(2.0, 3.0, 4.0).pow(v3(1.0, 2.0, 0.5)), v3(2.0, 9.0, 2.0));
    assert_eq!(v4(1.0, 2.0, 3.0, 4.0).pow(v4(2.0, 2.0, 2.0, 2.0)), v4(1.0, 4.0, 9.0, 16.0));
    assert!(close(v2(1.0, 1.0).direction(), PI / 4.0));
    assert!(close(v2(0.0, 1.0).direction(), 0.0));
    assert!(close(v2(1.0, 0.0).direction(), PI / 2.0));
}

#[test]
fn distance_to_a_line() {
    assert_eq!(line_pseudo_sdf(v2(0.0, 0.0), v2(4.0, 0.0), v2(1.0, 3.0)), Real(12.0));
    assert_eq!(line_sdf(v2(0.0, 0.0), v2(4.0, 0.0), v2(1.0, 3.0)), Real(3.0));
    assert_eq!(line_sdf(v2(0.0, 0.0), v2(4.0, 0.0), v2(1.0, -3.0)), Real(-3.0));
    assert!(close(line_sdf(v2(0.0, 0.0), v2(3.0, 4.0), v2(3.0, 4.0)), 0.0));
}

#[test]
fn implicit_function_of_a_quadratic_curve() {
    let on_curve = v3(0.5, 0.25, 0.25);
    assert_eq!(
        quadratic_bezier_curve_sdf(v2(0.0, 0.0), v2(2.0, 0.0), v2(1.0, 1.0), on_curve),
        Real(0.0)
    );
    // u = 0 / 2 + 1, v = 1
    let at_end = v3(0.0, 0.0, 1.0);
    assert_eq!(
        quadratic_bezier_curve_sdf(v2(0.0, 0.0), v2(2.0, 0.0), v2(1.0, 1.0), at_end),
        Real(0.0)
    );
    // u = 1 / 2, v = 0: u² - v where the triangle does not turn clockwise
    let at_control = v3(1.0, 0.0, 0.0);
    assert_eq!(
        quadratic_bezier_curve_sdf(v2(0.0, 0.0), v2(2.0, 0.0), v2(1.0, 1.0), at_control),
        Real(0.25)
    );
    assert_eq!(
        quadratic_bezier_curve_sdf(v2(2.0, 0.0), v2(0.0, 0.0), v2(1.0, 1.0), at_control),
        Real(-0.25)
    );
}

#[test]
fn barycentric_coordinates_inside_a_triangle() {
    let r = barycentric_coordinates(v2(0.0, 0.0), v2(4.0, 0.0), v2(0.0, 4.0), v2(1.0, 2.0));
    // the weight of control, of end and of start
    assert!(close3(r, 0.5, 0.25, 0.25));
}

#[test]
fn interpolation_and_its_inverse() {
    assert_eq!(lerp(v2(0.0, 10.0), v2(4.0, 20.0), Real(0.25)), v2(1.0, 12.5));
    assert_eq!(smoothstep(v2(10.0, 20.0), v2(2.0, 4.0), Real(0.5)), v2(2.25, 4.5));
    assert_eq!(inverse_lerp(Real(2.0), Real(6.0), Real(3.0)), Real(0.25));
    assert_eq!(remap(Real(2.0), Real(6.0), Real(10.0), Real(20.0), Real(3.0)), Real(12.5));
}

#[test]
fn rounding_can_miss_the_end() {
    let segment = LinearSegment::new(v2(1e16, 0.0), v2(1.0, 0.0));
    assert_eq!(segment.interpolate(Real(0.0)), *segment.start());
    assert_eq!(segment.interpolate(Real(1.0)), v2(0.0, 0.0));
    assert_ne!(segment.interpolate(Real(1.0)), *segment.end());
}

#[test]
fn quaternion_of_no_rotation() {
    let q = Quaternion::from_euler(v3(0.0, 0.0, 0.0));
    assert_eq!((q.vector, q.scalar), (v3(0.0, 0.0, 0.0), Real(1.0)));
    assert_eq!(q.to_euler(), v3(0.0, 0.0, 0.0));
}

#[test]
fn quaternion_from_euler_angles() {
    // a quarter turn of roll, which is about x
    let q = Quaternion::from_euler(v3(0.0, 0.0, PI / 2.0));
    let h = (0.5f64).sqrt();
    assert!(close3(q.vector, h, 0.0, 0.0));
    assert!(close(q.scalar, h));
    // a quarter turn of yaw, which is about z
    let q = Quaternion::from_euler(v3(PI / 2.0, 0.0, 0.0));
    assert!(close3(q.vector, 0.0, 0.0, h));
    assert!(close(q.scalar, h));
    // a quarter turn of pitch, which is about y
    let q = Quaternion::from_euler(v3(0.0, PI / 2.0, 0.0));
    assert!(close3(q.vector, 0.0, h, 0.0));
    assert!(close(q.scalar, h));
}

#[test]
fn quaternion_back_to_euler_angles() {
    let angles = v3(0.3, 0.2, 0.1);
    assert!(close3(Quaternion::from_euler(angles).to_euler(), 0.3, 0.2, 0.1));
    let angles = v3(-1.0, 0.5, 2.0);
    assert!(close3(Quaternion::from_euler(angles).to_euler(), -1.0, 0.5, 2.0));
    // a sine of the pitch beyond one is held at one
    let q = Quaternion::new(v3(0.0, 1.0, 0.0), Real(1.0));
    assert!(close(q.to_euler().y, PI / 2.0));
    let q = Quaternion::new(v3(0.0, -1.0, 0.0), Real(1.0));
    assert!(close(q.to_euler().y, -PI / 2.0));
}

#[test]
fn quaternion_about_an_axis() {
    let q = Quaternion::angle_axis(Real(PI), v3(1.0, 0.0, 0.0));
    assert!(close3(q.vector, 1.0, 0.0, 0.0));
    assert!(close(q.scalar, 0.0));
    let q = Quaternion::angle_axis(Real(PI / 2.0), v3(0.0, 0.0, 2.0));
    assert!(close3(q.vector, 0.0, 0.0, 2.0 * (0.5f64).sqrt()));
    assert!(close(q.scalar, (0.5f64).sqrt()));
}

#[test]
fn quaternion_turns_a_vector() {
    // a quarter turn about z takes x to y
    let q = Quaternion::angle_axis(Real(PI / 2.0), v3(0.0, 0.0, 1.0));
    assert!(close3(q.mul_vector(v3(1.0, 0.0, 0.0)), 0.0, 1.0, 0.0));
    assert!(close3(q.mul_vector(v3(0.0, 1.0, 0.0)), -1.0, 0.0, 0.0));
    let m = Matrix3::from_quaternion(q);
    assert!(close3(m.x, 0.0, 1.0, 0.0));
    assert!(close3(m.y, -1.0, 0.0, 0.0));
    assert!(close3(m.z, 0.0, 0.0, 1.0));
    let twice = q.rotate(&q);
    assert!(close3(twice.vector, 0.0, 0.0, 1.0));
    assert!(close(twice.scalar, 0.0));
}

#[test]
fn vector_turned_by_an_angle() {
    assert!(close2(v2(1.0, 0.0).rotate(&Real(PI / 2.0)), 0.0, 1.0));
    assert!(close2(v2(2.0, 0.0).rotate(&Real(0.0)), 2.0, 0.0));
    // the second component is x·sin - y·cos
    assert!(close2(v2(0.0, 1.0).rotate(&Real(0.0)), 0.0, -1.0));
    assert!(close2(v2(0.0, 1.0).rotate(&Real(PI / 2.0)), -1.0, 0.0));
}

#[test]
fn matrix2_turned_by_an_angle() {
    let m = Matrix2::new(Real(1.0), Real(2.0), Real(3.0), Real(4.0));
    let r = m.rotate(&Real(0.0));
    assert!(close2(r.x, 1.0, 0.0));
    assert!(close2(r.y, 0.0, 4.0));
    let r = m.rotate(&Real(PI / 2.0));
    assert!(close2(r.x, 0.0, 2.0));
    assert!(close2(r.y, -3.0, 0.0));
}

#[test]
fn matrix_turned_about_an_axis() {
    let i = Matrix3::<Real>::identity();
    let r = i.rotate(&v4(0.0, 0.0, 1.0, 0.0));
    assert!(close3(r.x, 1.0, 0.0, 0.0));
    assert!(close3(r.y, 0.0, 1.0, 0.0));
    assert!(close3(r.z, 0.0, 0.0, 1.0));
    // the axis is taken from the vector of four components normalized
    let n = 1.0 / (1.0 + (PI / 2.0) * (PI / 2.0)).sqrt();
    let r = i.rotate(&v4(0.0, 0.0, 1.0, PI / 2.0));
    assert!(close3(r.x, 0.0, n, 0.0));
    assert!(close3(r.y, -n, 0.0, 0.0));
    assert!(close3(r.z, 0.0, 0.0, n * n));
    let m = Matrix4::new(
        Real(1.0), Real(2.0), Real(3.0), Real(4.0),
        Real(5.0), Real(6.0), Real(7.0), Real(8.0),
        Real(9.0), Real(10.0), Real(11.0), Real(12.0),
        Real(13.0), Real(14.0), Real(15.0), Real(16.0),
    );
    let r = m.rotate(&v4(1.0, 0.0, 0.0, 0.0));
    assert!(close4(r.x, 1.0, 2.0, 3.0, 4.0));
    assert!(close4(r.y, 5.0, 6.0, 7.0, 8.0));
    assert!(close4(r.z, 9.0, 10.0, 11.0, 12.0));
    assert_eq!(r.w, m.w);
    let r = m.rotate(&v4(0.0, 0.0, 1.0, PI / 2.0));
    assert!(close4(r.x, 5.0 * n, 6.0 * n, 7.0 * n, 8.0 * n));
    assert!(close4(r.y, -1.0 * n, -2.0 * n, -3.0 * n, -4.0 * n));
    assert!(close4(r.z, 9.0 * n * n, 10.0 * n * n, 11.0 * n * n, 12.0 * n * n));
    assert_eq!(r.w, m.w);
}

#[test]
fn rotations_in_place() {
    let mut v = v2(1.0, 0.0);
    rotater::Rotation::rotate(&Real(PI / 2.0), &mut v);
    // both components of the result begin with x·sin
    assert!(close2(v, 1.0, 1.0));
    let mut m = Matrix2::new(Real(9.0), Real(9.0), Real(9.0), Real(9.0));
    rotater::Rotation::rotate(&Real(0.0), &mut m);
    assert!(close2(m.x, 1.0, 0.0));
    assert!(close2(m.y, 0.0, 1.0));
    let q = Quaternion::angle_axis(Real(PI / 2.0), v3(0.0, 0.0, 1.0));
    let mut m = Matrix3::<Real>::identity();
    rotater::Rotation::rotate(&q, &mut m);
    assert!(close3(m.x, 0.0, 1.0, 0.0));
    assert!(close3(m.y, -1.0, 0.0, 0.0));
    assert!(close3(m.z, 0.0, 0.0, 1.0));
    let mut m = Matrix4::<Real>::identity();
    rotater::Rotation::rotate(&q, &mut m);
    assert!(close4(m.x, 0.0, 1.0, 0.0, 0.0));
    assert!(close4(m.y, -1.0, 0.0, 0.0, 0.0));
    assert!(close4(m.z, 0.0, 0.0, 1.0, 0.0));
    assert!(close4(m.w, 0.0, 0.0, 0.0, 1.0));
}

#[test]
fn placement_in_the_plane() {
    let t = Transform2D::<Real>::default();
    assert_eq!((t.translation, t.scale, t.rotation), (v2(0.0, 0.0), v2(1.0, 1.0), Real(0.0)));
    let mut t = Transform2D::new(v2(5.0, 6.0), v2(2.0, 3.0), Real(0.0));
    let m = t.mat2();
    assert!(close2(m.x, 2.0, 0.0));
    assert!(close2(m.y, 0.0, 3.0));
    let m = t.mat3();
    assert!(close3(m.x, 2.0, 0.0, 0.0));
    assert!(close3(m.y, 0.0, 3.0, 0.0));
    assert!(close3(m.z, 5.0, 6.0, 0.0));
    let mut m2 = Matrix2::<Real>::identity();
    t.apply_matrix2(&mut m2);
    assert!(close2(m2.x, 2.0, 0.0));
    let mut m3 = Matrix3::<Real>::identity();
    t.apply_matrix3(&mut m3);
    assert!(close3(m3.z, 5.0, 6.0, 0.0));
    t.normal_matrix(&mut m3);
    assert!(close3(m3.x, 0.5, 0.0, 0.0));
    assert!(close3(m3.y, 0.0, 1.0 / 3.0, 0.0));
    assert!(close3(m3.z, 5.0, 6.0, 0.0));
    let mut m4 = Matrix4::from(Real(7.0));
    t.apply_matrix4(&mut m4);
    assert_eq!(m4.x, v4(1.0, 0.0, 0.0, 0.0));
    assert_eq!(m4.w, v4(0.0, 0.0, 0.0, 1.0));
    let mut angle = Real(9.0);
    t.apply_rotation2d(&mut angle);
    assert_eq!(angle, Real(0.0));
    let mut p = v2(9.0, 9.0);
    t.apply_translation2d(&mut p);
    assert_eq!(p, v2(5.0, 6.0));
    t.apply_scaling2d(&mut p);
    assert_eq!(p, v2(2.0, 3.0));
    let mut untouched = v3(1.0, 2.0, 3.0);
    t.apply_translation3d(&mut untouched);
    assert_eq!(untouched, v3(1.0, 2.0, 3.0));
    t.rotate(&Real(0.5));
    t.rotate(&Real(0.25));
    assert_eq!(t.rotation, Real(0.75));
    t.translate(&v2(1.0, 1.0));
    assert_eq!(t.translation, v2(6.0, 7.0));
    t.scale(&v2(1.0, 1.0));
    assert_eq!(t.scale, v2(3.0, 4.0));
    t.set_rotation(&Real(PI / 2.0));
    t.set_translation(&v2(0.0, 0.0));
    t.set_scaling(&v2(1.0, 1.0));
    let m = t.mat2();
    assert!(close2(m.x, 0.0, 1.0));
    assert!(close2(m.y, -1.0, 0.0));
}

#[test]
fn placement_in_space_by_a_quaternion() {
    let t = TransformQuaternion3D::<Real>::default();
    assert_eq!((t.translation, t.scale), (v3(0.0, 0.0, 0.0), v3(1.0, 1.0, 1.0)));
    assert_eq!((t.rotation.vector, t.rotation.scalar), (v3(0.0, 0.0, 0.0), Real(1.0)));
    let mut t = TransformQuaternion3D::new(
        v3(1.0, 2.0, 3.0),
        v3(2.0, 2.0, 2.0),
        Quaternion::new(v3(0.0, 0.0, 0.0), Real(1.0)),
    );
    let m = t.mat4();
    assert_eq!((m.x, m.y, m.z, m.w), (v4(2.0, 0.0, 0.0, 0.0), v4(0.0, 2.0, 0.0, 0.0), v4(0.0, 0.0, 2.0, 0.0), v4(1.0, 2.0, 3.0, 1.0)));
    let m = t.mat3();
    assert_eq!((m.x, m.y, m.z), (v3(2.0, 0.0, 0.0), v3(0.0, 2.0, 0.0), v3(0.0, 0.0, 2.0)));
    let mut m4 = Matrix4::<Real>::identity();
    t.apply_matrix4(&mut m4);
    assert_eq!(m4.w, v4(1.0, 2.0, 3.0, 1.0));
    let mut m3 = Matrix3::<Real>::identity();
    t.apply_matrix3(&mut m3);
    assert_eq!(m3.y, v3(0.0, 2.0, 0.0));
    t.normal_matrix(&mut m3);
    assert_eq!((m3.x, m3.y, m3.z), (v3(0.5, 0.0, 0.0), v3(0.0, 0.5, 0.0), v3(0.0, 0.0, 0.5)));
    let mut q = Quaternion::new(v3(9.0, 9.0, 9.0), Real(9.0));
    t.apply_rotation4d(&mut q);
    assert_eq!((q.vector, q.scalar), (v3(0.0, 0.0, 0.0), Real(1.0)));
    let mut e = v3(9.0, 9.0, 9.0);
    t.apply_rotation3d(&mut e);
    assert_eq!(e, v3(0.0, 0.0, 0.0));
    t.apply_translation3d(&mut e);
    assert_eq!(e, v3(1.0, 2.0, 3.0));
    t.apply_scaling3d(&mut e);
    assert_eq!(e, v3(2.0, 2.0, 2.0));
    let mut p = v2(9.0, 9.0);
    t.apply_translation2d(&mut p);
    assert_eq!(p, v2(1.0, 2.0));
    t.apply_scaling2d(&mut p);
    assert_eq!(p, v2(2.0, 2.0));
    t.translate(&v3(1.0, 1.0, 1.0));
    assert_eq!(t.translation, v3(2.0, 3.0, 4.0));
    t.scale(&v3(1.0, 2.0, 3.0));
    assert_eq!(t.scale, v3(3.0, 4.0, 5.0));
    t.set_translation(&v3(0.0, 0.0, 0.0));
    t.set_scaling(&v3(1.0, 1.0, 1.0));
    t.set_rotation(&v3(PI / 2.0, 0.0, 0.0));
    assert!(close3(t.rotation.vector, 0.0, 0.0, (0.5f64).sqrt()));
    t.rotate(&v3(PI / 2.0, 0.0, 0.0));
    assert!(close3(t.rotation.vector, 0.0, 0.0, 1.0));
    assert!(close(t.rotation.scalar, 0.0));
}

#[test]
fn placement_in_space_by_euler_angles() {
    let t = Transform3D::<Real>::default();
    assert_eq!((t.translation, t.scale, t.rotation), (v3(0.0, 0.0, 0.0), v3(1.0, 1.0, 1.0), v3(0.0, 0.0, 0.0)));
    let mut t = Transform3D::new(v3(1.0, 2.0, 3.0), v3(2.0, 3.0, 4.0), v3(0.0, 0.0, 0.0));
    let m = t.mat4();
    assert!(close4(m.x, 2.0, 0.0, 0.0, 0.0));
    assert!(close4(m.y, 0.0, 3.0, 0.0, 0.0));
    assert!(close4(m.z, 0.0, 0.0, 4.0, 0.0));
    assert!(close4(m.w, 1.0, 2.0, 3.0, 1.0));
    let m = t.mat3();
    assert!(close3(m.x, 2.0, 0.0, 0.0));
    assert!(close3(m.y, 0.0, 3.0, 0.0));
    assert!(close3(m.z, 0.0, 0.0, 4.0));
    let mut m3 = Matrix3::<Real>::identity();
    t.normal_matrix(&mut m3);
    assert!(close3(m3.x, 0.5, 0.0, 0.0));
    assert!(close3(m3.z, 0.0, 0.0, 0.25));
    let mut e = v3(9.0, 9.0, 9.0);
    t.apply_rotation3d(&mut e);
    assert_eq!(e, v3(0.0, 0.0, 0.0));
    t.rotate(&v3(0.1, 0.2, 0.3));
    t.rotate(&v3(0.1, 0.2, 0.3));
    assert!(close3(t.rotation, 0.2, 0.4, 0.6));
    t.set_rotation(&v3(0.0, 0.0, 0.0));
    assert_eq!(t.rotation, v3(0.0, 0.0, 0.0));
    t.translate(&v3(1.0, 1.0, 1.0));
    t.scale(&v3(1.0, 1.0, 1.0));
    assert_eq!((t.translation, t.scale), (v3(2.0, 3.0, 4.0), v3(3.0, 4.0, 5.0)));
    t.set_translation(&v3(7.0, 7.0, 7.0));
    t.set_scaling(&v3(8.0, 8.0, 8.0));
    assert_eq!((t.translation, t.scale), (v3(7.0, 7.0, 7.0), v3(8.0, 8.0, 8.0)));
}

#[test]
fn closed_form_distance_to_a_quadratic_curve() {
    // the curve passes through (1, 1) at t = 1/2
    let (start, control, end) = (v2(0.0, 0.0), v2(1.0, 2.0), v2(2.0, 0.0));
    let above = sd_bezier(v2(1.0, 3.0), start, control, end);
    let below = sd_bezier(v2(1.0, 0.75), start, control, end);
    assert!((above.0.abs() - 2.0).abs() < 1e-6);
    assert!((below.0.abs() - 0.25).abs() < 1e-6);
    assert_eq!(above.0.signum(), -below.0.signum());
    // at the centre of curvature p and q both vanish, and p³ / q is 0 / 0
    assert!(sd_bezier(v2(1.0, 0.5), start, control, end).0.is_nan());
    // the three parameters are held between zero and one as one vector, in
    // the order of vectors: the first, which is above one here, decides for
    // all, and the distance is that to the end
    let d = sd_bezier(v2(-3.0, -4.0), start, control, end);
    assert!((d.0.abs() - 41.0f64.sqrt()).abs() < 1e-6);
}

#[test]
fn cube_mesh() {
    let (vertices, indices) = create_cube(v3(1.0, 2.0, 3.0));
    assert_eq!(vertices.len(), 24);
    assert_eq!(indices.len(), 36);
    assert_eq!(vertices[0], v3(0.5, 1.5, 2.5));
    assert_eq!(vertices[1], v3(0.5, 2.5, 3.5));
    assert_eq!(vertices[5], v3(1.5, 2.5, 3.5));
    assert_eq!(vertices[23], v3(1.5, 1.5, 2.5));
    assert_eq!(&indices[0..6], &[0, 1, 2, 0, 3, 1]);
    assert_eq!(&indices[30..36], &[20, 21, 22, 20, 23, 21]);
    assert!(indices.iter().all(|&i| i < 24));
}
