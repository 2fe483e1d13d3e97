use drowsed_math::complex::quaternion::Quaternion;
use drowsed_math::complex::Complex;
use drowsed_math::data::Average;
use drowsed_math::linear::sdf;
use drowsed_math::linear::IMat2;
use drowsed_math::linear::IVec2;
use drowsed_math::linear::LVec3;
use drowsed_math::smoothing::lerp;
use drowsed_math::smoothing::smoothstep;
use drowsed_math::barycentric_coordinates;
use drowsed_math::slope;
use drowsed_math::translate;
use drowsed_math::BoundingBox2D;
use drowsed_math::Cube;
use drowsed_math::CubicSegment;
use drowsed_math::EuclideanGeometry;
use drowsed_math::LinearSegment;
use drowsed_math::Matrix2;
use drowsed_math::Matrix2x3;
use drowsed_math::Matrix2x4;
use drowsed_math::Matrix3;
use drowsed_math::Matrix3x2;
use drowsed_math::Matrix3x4;
use drowsed_math::Matrix4;
use drowsed_math::Matrix4x2;
use drowsed_math::Number;
use drowsed_math::QuadraticSegment;
use drowsed_math::Rectangle;
use drowsed_math::Segment;
use drowsed_math::SignedNumber;
use drowsed_math::Simplex;
use drowsed_math::SquareMatrix;
use drowsed_math::Triangle;
use drowsed_math::Vector;
use drowsed_math::Vector2;
use drowsed_math::Vector3;
use drowsed_math::Vector4;

fn v2(x: i32, y: i32) -> Vector2<i32> {
    Vector2::new(x, y)
}

fn v3(x: i32, y: i32, z: i32) -> Vector3<i32> {
    Vector3::new(x, y, z)
}

fn v4(x: i32, y: i32, z: i32, w: i32) -> Vector4<i32> {
    Vector4::new(x, y, z, w)
}

#[test]
fn integer_identities() {
    assert_eq!(<i32 as Number>::zero(), 0);
    assert_eq!(<i32 as Number>::one(), 1);
    assert_eq!(<i64 as Number>::zero(), 0);
    assert_eq!(<i64 as Number>::one(), 1);
    assert_eq!(<u32 as Number>::zero(), 0);
    assert_eq!(<u32 as Number>::one(), 1);
    assert_eq!(<u64 as Number>::zero(), 0);
    assert_eq!(<u64 as Number>::one(), 1);
    assert_eq!(<usize as Number>::zero(), 0);
    assert_eq!(<usize as Number>::one(), 1);
}

#[test]
fn integer_arithmetic() {
    assert_eq!(Number::add(7i32, 5), 12);
    assert_eq!(Number::sub(7i32, 5), 2);
    assert_eq!(Number::mul(7i32, 5), 35);
    assert_eq!(Number::div(7i32, 2), 3);
    assert_eq!(Number::rem(7i32, 2), 1);
    assert_eq!(Number::add(7u64, 5), 12);
    assert_eq!(Number::sub(7u64, 5), 2);
    assert_eq!(Number::mul(7usize, 5), 35);
    assert_eq!(Number::div(7u32, 2), 3);
    assert_eq!(Number::rem(7u32, 2), 1);
}

#[test]
fn integer_division_rounds_toward_zero() {
    assert_eq!(Number::div(-7i32, 2), -3);
    assert_eq!(Number::rem(-7i32, 2), -1);
    assert_eq!(Number::div(7i64, -2), -3);
    assert_eq!(Number::rem(7i64, -2), 1);
    assert_eq!(Number::div(-7i64, -2), 3);
    assert_eq!(Number::rem(-7i64, -2), -1);
}

#[test]
fn integer_comparisons() {
    assert!(Number::equal(4i32, 4));
    assert!(!Number::equal(4i32, 5));
    assert!(Number::less(4i32, 5));
    assert!(!Number::less(5i32, 5));
    assert!(Number::less_equal(5u64, 5));
    assert!(!Number::less_equal(6u64, 5));
}

#[test]
fn integer_signs() {
    assert_eq!(SignedNumber::abs(-5i32), 5);
    assert_eq!(SignedNumber::abs(5i32), 5);
    assert_eq!(SignedNumber::abs(-9i64), 9);
    assert_eq!(SignedNumber::signum(-5i32), -1);
    assert_eq!(SignedNumber::signum(0i32), 0);
    assert_eq!(SignedNumber::signum(17i32), 1);
    assert_eq!(SignedNumber::signum(-17i64), -1);
    assert_eq!(SignedNumber::signum(17i64), 1);
    assert_eq!(SignedNumber::neg(5i64), -5);
    assert_eq!(SignedNumber::neg(-5i32), 5);
}

#[test]
fn vector_component_wise_arithmetic() {
    assert_eq!(v2(1, 2).add(v2(10, 20)), v2(11, 22));
    assert_eq!(v2(1, 2).sub(v2(10, 20)), v2(-9, -18));
    assert_eq!(v2(3, 4).mul(v2(5, 6)), v2(15, 24));
    assert_eq!(v2(15, 24).div(v2(5, 6)), v2(3, 4));
    assert_eq!(v2(17, 24).rem(v2(5, 7)), v2(2, 3));
    assert_eq!(v3(1, 2, 3).add(v3(10, 20, 30)), v3(11, 22, 33));
    assert_eq!(v3(1, 2, 3).mul(v3(4, 5, 6)), v3(4, 10, 18));
    assert_eq!(v4(1, 2, 3, 4).sub(v4(4, 3, 2, 1)), v4(-3, -1, 1, 3));
    assert_eq!(v4(8, 6, 4, 2).div(v4(4, 3, 2, 1)), v4(2, 2, 2, 2));
}

#[test]
fn vector_arithmetic_with_a_scalar() {
    assert_eq!(v2(1, 2).add_scalar(10), v2(11, 12));
    assert_eq!(v2(1, 2).sub_scalar(10), v2(-9, -8));
    assert_eq!(v2(3, 4).mul_scalar(5), v2(15, 20));
    assert_eq!(v2(15, 20).div_scalar(5), v2(3, 4));
    assert_eq!(v3(1, 2, 3).mul_scalar(2), v3(2, 4, 6));
    assert_eq!(v4(1, 2, 3, 4).add_scalar(1), v4(2, 3, 4, 5));
}

#[test]
fn vector_arithmetic_in_place() {
    let mut a = v2(1, 2);
    a.add_assign(v2(10, 20));
    assert_eq!(a, v2(11, 22));
    a.sub_assign(v2(1, 2));
    assert_eq!(a, v2(10, 20));
    a.mul_assign(v2(2, 3));
    assert_eq!(a, v2(20, 60));
    a.div_assign(v2(4, 6));
    assert_eq!(a, v2(5, 10));
    let mut b = v3(1, 2, 3);
    b.add_assign(v3(1, 1, 1));
    assert_eq!(b, v3(2, 3, 4));
}

#[test]
fn vector_signs() {
    assert_eq!(v2(1, -2).neg(), v2(-1, 2));
    assert_eq!(v2(1, -2).abs(), v2(1, 2));
    assert_eq!(v3(5, 0, -5).signum(), v3(1, 0, -1));
    assert_eq!(v4(-1, -2, 3, 0).abs(), v4(1, 2, 3, 0));
}

#[test]
fn vector_identities() {
    assert_eq!(Vector2::<i32>::zero(), v2(0, 0));
    assert_eq!(Vector2::<i32>::one(), v2(1, 1));
    assert_eq!(Vector3::<i32>::zero(), v3(0, 0, 0));
    assert_eq!(Vector4::<i32>::one(), v4(1, 1, 1, 1));
    assert!(v2(0, 0).is_zero());
    assert!(!v2(0, 1).is_zero());
    assert!(v3(1, 1, 1).is_one());
    assert!(!v3(1, 0, 1).is_one());
    let mut a = v2(5, 6);
    a.set_zero();
    assert_eq!(a, v2(0, 0));
    a.set_one();
    assert_eq!(a, v2(1, 1));
    assert!(v2(7, 7).equals_scalar(7));
    assert!(!v2(7, 8).equals_scalar(7));
    assert_eq!(Vector3::from(4), v3(4, 4, 4));
}

#[test]
fn vector_products() {
    assert_eq!(v2(1, 2).dot(&v2(3, 4)), 11);
    assert_eq!(v3(1, 2, 3).dot(&v3(4, 5, 6)), 32);
    assert_eq!(v4(1, 2, 3, 4).dot(&v4(5, 6, 7, 8)), 70);
    assert_eq!(v2(1, 2).cross(v2(3, 4)), -2);
    assert_eq!(v2(3, 4).cross(v2(1, 2)), 2);
    assert_eq!(v3(1, 0, 0).cross(v3(0, 1, 0)), v3(0, 0, 1));
    assert_eq!(v3(1, 2, 3).cross(v3(4, 5, 6)), v3(-3, 6, -3));
    assert_eq!(EuclideanGeometry::cross(&v2(1, 2), v2(3, 4)), -2);
    assert_eq!(Vector::dot(&v3(1, 2, 3), &v3(4, 5, 6)), 32);
    assert_eq!(<Vector2<i32> as Vector>::size(), 2);
    assert_eq!(<Vector3<i32> as Vector>::size(), 3);
    assert_eq!(<Vector4<i32> as Vector>::size(), 4);
}

#[test]
fn vector_order_and_clamp() {
    assert!(v2(1, 9).less(&v2(2, 0)));
    assert!(v2(1, 2).less(&v2(1, 3)));
    assert!(!v2(1, 3).less(&v2(1, 3)));
    assert!(v2(1, 3).less_equal(&v2(1, 3)));
    assert!(!v2(2, 0).less_equal(&v2(1, 9)));
    assert_eq!(v2(0, 5).clamp(v2(1, 1), v2(3, 3)), v2(1, 1));
    assert_eq!(v2(4, 0).clamp(v2(1, 1), v2(3, 3)), v2(3, 3));
    assert_eq!(v2(2, 7).clamp(v2(1, 1), v2(3, 3)), v2(2, 7));
    assert_eq!(v3(0, 0, 9).clamp(v3(0, 1, 0), v3(5, 5, 5)), v3(0, 1, 0));
}

#[test]
fn vector_sum() {
    assert_eq!(Vector2::sum(&vec![v2(1, 2), v2(3, 4), v2(5, 6)]), v2(9, 12));
    assert_eq!(Vector2::<i32>::sum(&Vec::new()), v2(0, 0));
}

#[test]
fn vector_changes_of_dimension() {
    assert_eq!(v3(1, 2, 3).xy(), v2(1, 2));
    assert_eq!(v4(1, 2, 3, 4).xyz(), v3(1, 2, 3));
    assert_eq!(Vector3::from(v2(1, 2)), v3(1, 2, 1));
    assert_eq!(Vector4::from(v3(1, 2, 3)), v4(1, 2, 3, 0));
    assert_eq!(Vector3::from(v4(1, 2, 3, 4)), v3(1, 2, 3));
}

#[test]
fn vector_times_matrix() {
    let m = Matrix2::new(1, 2, 3, 4);
    assert_eq!(v2(5, 6).mul_matrix(m), v2(5 * 1 + 6 * 3, 5 * 2 + 6 * 4));
    let m = Matrix3::new(1, 2, 3, 4, 5, 6, 7, 8, 9);
    assert_eq!(v3(1, 0, 2).mul_matrix(m), v3(15, 18, 21));
    let m = Matrix4::<i32>::identity();
    assert_eq!(v4(1, 2, 3, 4).mul_matrix(m), v4(1, 2, 3, 4));
}

#[test]
fn interpolation_of_integers() {
    assert_eq!(lerp(v2(1, 2), v2(5, 10), 0), v2(1, 2));
    assert_eq!(lerp(v2(1, 2), v2(5, 10), 1), v2(5, 10));
    assert_eq!(lerp(v2(1, 2), v2(5, 10), 2), v2(9, 18));
    assert_eq!(lerp(v3(0, 0, 0), v3(1, 2, 3), -1), v3(-1, -2, -3));
    assert_eq!(smoothstep(v2(10, 20), v2(1, 2), 3), v2(63, 126));
}

#[test]
fn matrices_are_built_row_by_row() {
    let m = Matrix2::new(1, 2, 3, 4);
    assert_eq!(m.x, v2(1, 2));
    assert_eq!(m.y, v2(3, 4));
    let m = Matrix2::from_vec(v2(1, 2), v2(3, 4));
    assert_eq!((m.x.x, m.x.y, m.y.x, m.y.y), (1, 2, 3, 4));
    let m = Matrix2x3::new(1, 2, 3, 4, 5, 6);
    assert_eq!((m.x, m.y, m.z), (v2(1, 2), v2(3, 4), v2(5, 6)));
    let m = Matrix2x4::new(1, 2, 3, 4, 5, 6, 7, 8);
    assert_eq!((m.x, m.y, m.z, m.w), (v2(1, 2), v2(3, 4), v2(5, 6), v2(7, 8)));
    let m = Matrix3::new(1, 2, 3, 4, 5, 6, 7, 8, 9);
    assert_eq!((m.x, m.y, m.z), (v3(1, 2, 3), v3(4, 5, 6), v3(7, 8, 9)));
    let m = Matrix3x2::new(1, 2, 3, 4, 5, 6);
    assert_eq!((m.x, m.y), (v3(1, 2, 3), v3(4, 5, 6)));
    let m = Matrix3x4::new(1, 2, 3, 4, 5, 6, 7, 8, 9, 10, 11, 12);
    assert_eq!((m.x, m.w), (v3(1, 2, 3), v3(10, 11, 12)));
    let m = Matrix4::new(1, 2, 3, 4, 5, 6, 7, 8, 9, 10, 11, 12, 13, 14, 15, 16);
    assert_eq!((m.x, m.y, m.z, m.w), (v4(1, 2, 3, 4), v4(5, 6, 7, 8), v4(9, 10, 11, 12), v4(13, 14, 15, 16)));
    let m = Matrix4x2::new(1, 2, 3, 4, 5, 6, 7, 8);
    assert_eq!((m.x, m.y), (v4(1, 2, 3, 4), v4(5, 6, 7, 8)));
    let m = Matrix2x3::from_vec(v2(1, 2), v2(3, 4), v2(5, 6));
    assert_eq!(m.z, v2(5, 6));
    let m = Matrix2x4::from_vec(v2(1, 2), v2(3, 4), v2(5, 6), v2(7, 8));
    assert_eq!(m.w, v2(7, 8));
    let m = Matrix3::from_vec(v3(1, 2, 3), v3(4, 5, 6), v3(7, 8, 9));
    assert_eq!(m.y, v3(4, 5, 6));
    let m = Matrix3x2::from_vec(v3(1, 2, 3), v3(4, 5, 6));
    assert_eq!(m.y, v3(4, 5, 6));
    let m = Matrix3x4::from_vec(v3(1, 2, 3), v3(4, 5, 6), v3(7, 8, 9), v3(10, 11, 12));
    assert_eq!(m.w, v3(10, 11, 12));
    let m = Matrix4::from_vec(v4(1, 2, 3, 4), v4(5, 6, 7, 8), v4(9, 10, 11, 12), v4(13, 14, 15, 16));
    assert_eq!(m.z, v4(9, 10, 11, 12));
    let m = Matrix4x2::from_vec(v4(1, 2, 3, 4), v4(5, 6, 7, 8), v4(0, 0, 0, 0), v4(9, 9, 9, 9));
    assert_eq!((m.x, m.y), (v4(1, 2, 3, 4), v4(5, 6, 7, 8)));
    let m = Matrix2::from(7);
    assert_eq!((m.x, m.y), (v2(7, 7), v2(7, 7)));
    let m = Matrix4x2::from(3);
    assert_eq!((m.x, m.y), (v4(3, 3, 3, 3), v4(3, 3, 3, 3)));
}

#[test]
fn matrix_sum_and_difference() {
    let a = Matrix2::new(1, 2, 3, 4);
    let b = Matrix2::new(10, 20, 30, 40);
    let s = a.add(b);
    assert_eq!((s.x, s.y), (v2(11, 22), v2(33, 44)));
    let d = b.sub(a);
    assert_eq!((d.x, d.y), (v2(9, 18), v2(27, 36)));
    let a = Matrix3x4::new(1, 2, 3, 4, 5, 6, 7, 8, 9, 10, 11, 12);
    let s = a.add(a);
    assert_eq!((s.x, s.y, s.z, s.w), (v3(2, 4, 6), v3(8, 10, 12), v3(14, 16, 18), v3(20, 22, 24)));
    let d = s.sub(a);
    assert_eq!((d.x, d.w), (a.x, a.w));
}

#[test]
fn matrix2_product() {
    let a = Matrix2::new(1, 2, 3, 4);
    let b = Matrix2::new(5, 6, 7, 8);
    let p = a.mul(b);
    // component c of row r: the c column of a, (a.x.c, a.y.c), dotted with row r of b
    assert_eq!(p.x, v2(1 * 5 + 3 * 6, 2 * 5 + 4 * 6));
    assert_eq!(p.y, v2(1 * 7 + 3 * 8, 2 * 7 + 4 * 8));
    assert_eq!(a.mul_vector(v2(5, 6)), v2(1 * 5 + 2 * 6, 3 * 5 + 4 * 6));
    let i = Matrix2::<i32>::identity();
    let p = a.mul(i);
    assert_eq!((p.x, p.y), (a.x, a.y));
}

#[test]
fn matrix3_product() {
    let a = Matrix3::new(1, 2, 3, 4, 5, 6, 7, 8, 9);
    let b = Matrix3::new(1, 0, 2, 0, 1, 0, 3, 0, 1);
    let p = a.mul(b);
    assert_eq!(p.x, v3(1 * 1 + 2 * 7, 1 * 2 + 2 * 8, 1 * 3 + 2 * 9));
    assert_eq!(p.y, v3(4, 5, 6));
    assert_eq!(p.z, v3(3 * 1 + 7, 3 * 2 + 8, 3 * 3 + 9));
    assert_eq!(a.mul_vector(v3(1, 0, 2)), v3(7, 16, 25));
}

#[test]
fn matrix4_product() {
    let a = Matrix4::new(1, 2, 3, 4, 5, 6, 7, 8, 9, 10, 11, 12, 13, 14, 15, 16);
    let i = Matrix4::<i32>::identity();
    let p = a.mul(i);
    assert_eq!((p.x, p.y, p.z, p.w), (a.x, a.y, a.z, a.w));
    let p = i.mul(a);
    assert_eq!((p.x, p.y, p.z, p.w), (a.x, a.y, a.z, a.w));
    let b = Matrix4::from_scale(v3(2, 3, 4));
    let p = a.mul(b);
    assert_eq!(p.x, v4(2, 4, 6, 8));
    assert_eq!(p.y, v4(15, 18, 21, 24));
    assert_eq!(p.z, v4(36, 40, 44, 48));
    assert_eq!(p.w, v4(13, 14, 15, 16));
    assert_eq!(a.mul_vector(v4(1, 0, 0, 1)), v4(5, 13, 21, 29));
}

#[test]
fn products_of_matrices_that_are_not_square() {
    let a = Matrix2x3::new(1, 2, 3, 4, 5, 6);
    let i3 = Matrix3::<i32>::identity();
    let p = a.mul(i3);
    assert_eq!((p.x, p.y, p.z), (a.x, a.y, a.z));
    let b = Matrix3x2::new(1, 0, 2, 0, 1, 3);
    let p = a.mul_matrix3x2(b);
    assert_eq!(p.x, v2(1 * 1 + 5 * 2, 2 * 1 + 6 * 2));
    assert_eq!(p.y, v2(3 * 1 + 5 * 3, 4 * 1 + 6 * 3));
    let a = Matrix2x4::new(1, 2, 3, 4, 5, 6, 7, 8);
    let p = a.mul(Matrix4::<i32>::identity());
    assert_eq!((p.x, p.y, p.z, p.w), (a.x, a.y, a.z, a.w));
    let a = Matrix3x2::new(1, 2, 3, 4, 5, 6);
    let p = a.mul(Matrix2::new(1, 2, 3, 4));
    assert_eq!(p.x, v3(1 * 1 + 2 * 4, 1 * 2 + 2 * 5, 1 * 3 + 2 * 6));
    assert_eq!(p.y, v3(3 * 1 + 4 * 4, 3 * 2 + 4 * 5, 3 * 3 + 4 * 6));
    let a = Matrix3x4::new(1, 2, 3, 4, 5, 6, 7, 8, 9, 10, 11, 12);
    let p = a.mul(Matrix4::<i32>::identity());
    assert_eq!((p.x, p.y, p.z, p.w), (a.x, a.y, a.z, a.w));
    let a = Matrix4x2::new(1, 2, 3, 4, 5, 6, 7, 8);
    let p = a.mul(Matrix2::new(0, 1, 1, 0));
    assert_eq!((p.x, p.y), (a.y, a.x));
}

#[test]
fn identity_and_transpose() {
    let i = Matrix2::<i32>::identity();
    assert_eq!((i.x, i.y), (v2(1, 0), v2(0, 1)));
    let i = Matrix3::<i32>::identity();
    assert_eq!((i.x, i.y, i.z), (v3(1, 0, 0), v3(0, 1, 0), v3(0, 0, 1)));
    let i = Matrix4::<i32>::identity();
    assert_eq!((i.x, i.w), (v4(1, 0, 0, 0), v4(0, 0, 0, 1)));
    let t = Matrix2::new(1, 2, 3, 4).transpose();
    assert_eq!((t.x, t.y), (v2(4, 3), v2(2, 1)));
    let t = Matrix3::new(1, 2, 3, 4, 5, 6, 7, 8, 9).transpose();
    assert_eq!((t.x, t.y, t.z), (v3(1, 4, 7), v3(2, 5, 8), v3(3, 6, 9)));
    let t = Matrix4::new(1, 2, 3, 4, 5, 6, 7, 8, 9, 10, 11, 12, 13, 14, 15, 16).transpose();
    assert_eq!((t.x, t.y, t.z, t.w), (v4(1, 5, 9, 13), v4(2, 6, 10, 14), v4(3, 7, 11, 15), v4(4, 8, 12, 16)));
    let mut m = Matrix3::new(1, 2, 3, 4, 5, 6, 7, 8, 9);
    m.set_identity();
    assert_eq!((m.x, m.y, m.z), (v3(1, 0, 0), v3(0, 1, 0), v3(0, 0, 1)));
}

#[test]
fn matrices_of_scale_and_translation() {
    let m = Matrix3::from_scale(v3(2, 3, 4));
    assert_eq!((m.x, m.y, m.z), (v3(2, 0, 0), v3(0, 3, 0), v3(0, 0, 4)));
    let m = Matrix4::from_scale(v3(2, 3, 4));
    assert_eq!((m.x, m.y, m.z, m.w), (v4(2, 0, 0, 0), v4(0, 3, 0, 0), v4(0, 0, 4, 0), v4(0, 0, 0, 1)));
    let m = Matrix4::from_translation(v3(2, 3, 4));
    assert_eq!((m.x, m.y, m.z, m.w), (v4(1, 0, 0, 0), v4(0, 1, 0, 0), v4(0, 0, 1, 0), v4(2, 3, 4, 1)));
    let a = Matrix4::new(1, 2, 3, 4, 5, 6, 7, 8, 9, 10, 11, 12, 13, 14, 15, 16);
    let s = a.scale(v3(2, 3, 4));
    assert_eq!((s.x, s.y, s.z, s.w), (v4(2, 4, 6, 8), v4(15, 18, 21, 24), v4(36, 40, 44, 48), a.w));
    let t = a.translate(v3(1, 2, 3));
    assert_eq!((t.x, t.y, t.z, t.w), (a.x, a.y, a.z, v4(14, 16, 18, 16)));
    let t = translate(&Matrix4::<i32>::identity(), v3(2, 3, 4));
    assert_eq!((t.x, t.y, t.z, t.w), (v4(1, 0, 0, 0), v4(0, 1, 0, 0), v4(0, 0, 1, 0), v4(2, 3, 4, 1)));
    let t = translate(&a, v3(1, 0, 2));
    assert_eq!(t.w, v4(1 + 18 + 13, 2 + 20 + 14, 3 + 22 + 15, 4 + 24 + 16));
    let m = Matrix3::from(a);
    assert_eq!((m.x, m.y, m.z), (v3(1, 2, 3), v3(5, 6, 7), v3(9, 10, 11)));
    let m = Matrix4::from(Matrix3::new(1, 2, 3, 4, 5, 6, 7, 8, 9));
    assert_eq!((m.x, m.y, m.z, m.w), (v4(1, 2, 3, 0), v4(4, 5, 6, 0), v4(7, 8, 9, 0), v4(0, 0, 0, 1)));
}

#[test]
fn slope_and_sides_of_a_line() {
    assert_eq!(slope(v2(1, 1), v2(3, 7)), 3);
    assert_eq!(slope(v2(0, 0), v2(4, -8)), -2);
    // (0 - 1)·(0 - 3) - (4 - 1)·(0 - 3)
    assert_eq!(sdf::line_sdf(v2(0, 0), v2(4, 0), v2(1, 3)), 12);
    assert_eq!(sdf::line_sdf(v2(0, 0), v2(4, 0), v2(1, -3)), -12);
    assert_eq!(sdf::line_sdf(v2(0, 0), v2(4, 0), v2(9, 0)), 0);
}

#[test]
fn barycentric_coordinates_of_corners() {
    let (start, end, control) = (v2(0, 0), v2(4, 0), v2(0, 4));
    assert_eq!(barycentric_coordinates(start, end, control, end), v3(0, 1, 0));
    assert_eq!(barycentric_coordinates(start, end, control, control), v3(1, 0, 0));
    assert_eq!(barycentric_coordinates(start, end, control, start), v3(0, 0, 1));
}

#[test]
fn complex_numbers() {
    let a = Complex::new(1, 2);
    let b = Complex::new(3, 4);
    let p = a.mul(b);
    assert_eq!((p.re, p.im), (-5, 10));
    let s = a.add(b);
    assert_eq!((s.re, s.im), (4, 6));
    let d = a.sub(b);
    assert_eq!((d.re, d.im), (-2, -2));
    let m = a.matrix();
    assert_eq!((m.x, m.y), (v2(1, 2), v2(2, 1)));
    let m = a.matrix_im();
    assert_eq!((m.x, m.y), (v2(0, 2), v2(2, 0)));
    let m = a.matrix_re();
    assert_eq!((m.x, m.y), (v2(1, 0), v2(0, 1)));
}

#[test]
fn quaternions_of_integers() {
    let i = Quaternion::new(v3(1, 0, 0), 0);
    let j = Quaternion::new(v3(0, 1, 0), 0);
    let k = i.mul(j);
    assert_eq!((k.vector, k.scalar), (v3(0, 0, 1), 0));
    let minus_k = j.mul(i);
    assert_eq!((minus_k.vector, minus_k.scalar), (v3(0, 0, -1), 0));
    let square = i.mul(i);
    assert_eq!((square.vector, square.scalar), (v3(0, 0, 0), -1));
    let one = Quaternion::new(v3(0, 0, 0), 1);
    let m = Matrix3::from_quaternion(one);
    assert_eq!((m.x, m.y, m.z), (v3(1, 0, 0), v3(0, 1, 0), v3(0, 0, 1)));
    // a half turn about x
    let m = Matrix3::from_quaternion(i);
    assert_eq!((m.x, m.y, m.z), (v3(1, 0, 0), v3(0, -1, 0), v3(0, 0, -1)));
    let m = Matrix4::from_quaternion(i);
    assert_eq!((m.x, m.y, m.z, m.w), (v4(1, 0, 0, 0), v4(0, -1, 0, 0), v4(0, 0, -1, 0), v4(0, 0, 0, 1)));
    assert_eq!(i.mul_vector(v3(1, 2, 3)), v3(1, -2, -3));
    assert_eq!(one.mul_vector(v3(1, 2, 3)), v3(1, 2, 3));
}

#[test]
fn shapes() {
    let mut t = Triangle::new(v2(0, 0), v2(1, 0), v2(0, 1));
    assert_eq!(*t.index(0), v2(0, 0));
    assert_eq!(*t.index(2), v2(0, 1));
    t.set(1, v2(5, 5));
    assert_eq!(*t.index(1), v2(5, 5));
    assert_eq!(*t.index(2), v2(0, 1));
    let r = Rectangle::new(v2(0, 1), v2(1, 1), v2(0, 0), v2(1, 0));
    assert_eq!((r.top_left, r.top_right, r.bottom_left, r.bottom_right), (v2(0, 1), v2(1, 1), v2(0, 0), v2(1, 0)));
    let c = Cube::new(r, Rectangle::new(v2(2, 3), v2(3, 3), v2(2, 2), v2(3, 2)));
    assert_eq!(c.front.top_left, v2(0, 1));
    assert_eq!(c.back.bottom_right, v2(3, 2));
}

#[test]
fn simplex_keeps_the_newest_points() {
    let mut s = Simplex::<IVec2, 3>::new();
    assert_eq!(s.size, 0);
    assert_eq!(s.points, [v2(0, 0), v2(0, 0), v2(0, 0)]);
    s.push(v2(1, 1));
    assert_eq!((s.size, s.points), (1, [v2(1, 1), v2(0, 0), v2(0, 0)]));
    s.push(v2(2, 2));
    s.push(v2(3, 3));
    assert_eq!((s.size, s.points), (3, [v2(3, 3), v2(2, 2), v2(1, 1)]));
    s.push(v2(4, 4));
    assert_eq!((s.size, s.points), (3, [v2(4, 4), v2(3, 3), v2(2, 2)]));
    s.initialize(vec![v2(9, 9), v2(8, 8)]);
    assert_eq!((s.size, s.points), (2, [v2(9, 9), v2(8, 8), v2(2, 2)]));
}

#[test]
fn mean_of_an_array() {
    assert_eq!([1usize, 2, 3, 4].mean(), 2);
    assert_eq!([7usize].mean(), 7);
    assert_eq!([10usize, 20, 30].mean(), 20);
}

#[test]
fn segments_of_integer_points() {
    let mut s = LinearSegment::new(v2(1, 2), v2(5, 10));
    assert_eq!(s.len(), 2);
    assert_eq!((*s.start(), *s.end()), (v2(1, 2), v2(5, 10)));
    assert_eq!(*s.get_point(1), v2(5, 10));
    assert_eq!(s.interpolate(0), *s.start());
    assert_eq!(s.interpolate(1), *s.end());
    assert_eq!(s.interpolate(3), v2(13, 26));
    s.set_start(&v2(0, 0));
    s.set_end(&v2(2, 2));
    assert_eq!((*s.start(), *s.end()), (v2(0, 0), v2(2, 2)));
    let q = QuadraticSegment::new(v2(0, 0), v2(3, 6), v2(8, -2));
    assert_eq!(q.len(), 3);
    assert_eq!(q.interpolate(0), *q.start());
    assert_eq!(q.interpolate(1), *q.end());
    let c = CubicSegment::new(LVec3::new(0, 0, 0), LVec3::new(1, 5, 2), LVec3::new(-4, 3, 3), LVec3::new(7, 7, 7));
    assert_eq!(c.len(), 4);
    assert_eq!(c.interpolate(0), *c.start());
    assert_eq!(c.interpolate(1), *c.end());
    assert_eq!(*c.get_point(2), LVec3::new(-4, 3, 3));
    let mut c = c;
    c.set_end(&LVec3::new(1, 1, 1));
    assert_eq!(*c.end(), LVec3::new(1, 1, 1));
    assert_eq!(*c.get_point(2), LVec3::new(-4, 3, 3));
}

#[test]
fn bounding_box_of_a_segment() {
    let s = LinearSegment::new(v2(1, 2), v2(5, 10));
    let b = s.bbox();
    assert_eq!((b.top_left, b.top_right, b.bottom_left, b.bottom_right), (v2(1, 1), v2(1, 1), v2(1, 1), v2(1, 1)));
}

#[test]
fn integer_matrix_alias() {
    let m: IMat2 = Matrix2::new(1, 2, 3, 4);
    assert_eq!(m.x.dot(&m.y), 11);
}
