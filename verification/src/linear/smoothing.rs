use vstd::prelude::*;
use crate::linear::exact::ExactNumber;
use crate::linear::traits::FloatingPoint;
use crate::linear::traits::Number;
use crate::linear::vector::Vector;

verus! {

/// Whether `a + (b - a)·t` may be formed. Over a floating-point scalar it
/// always may.
pub open spec fn lerp_req<V: Vector>(a: V, b: V, t: V::Scalar) -> bool {
    &&& b.sub_req(a)
    &&& b.sub_spec(a).mul_scalar_req(t)
    &&& a.add_req(b.sub_spec(a).mul_scalar_spec(t))
}

/// The point at `t` on the line through `a` and `b`: `a + (b - a)·t`.
pub open spec fn lerp_spec<V: Vector>(a: V, b: V, t: V::Scalar) -> V {
    a.add_spec(b.sub_spec(a).mul_scalar_spec(t))
}

/// Interpolates linearly between two values: `a` at `t = 0`, towards `b` as
/// `t` grows. A `t` outside of `0..1` extrapolates.
pub fn lerp<T: Number, V: Vector<Scalar = T>>(a: V, b: V, t: T) -> (r: V)
    requires
        lerp_req(a, b, t),
    ensures
        r == lerp_spec(a, b, t),
{
    a.add(b.sub(a).mul_scalar(t))
}

/// In exact arithmetic the interpolation is at `a` for `t = 0` and at `b`
/// for `t = 1`, wherever `b - a` can be formed.
pub proof fn lemma_lerp_ends<V: Vector>(a: V, b: V) where V::Scalar: ExactNumber
    requires
        b.sub_req(a),
    ensures
        lerp_req(a, b, V::Scalar::zero_spec()),
        lerp_spec(a, b, V::Scalar::zero_spec()) == a,
        lerp_req(a, b, V::Scalar::one_spec()),
        lerp_spec(a, b, V::Scalar::one_spec()) == b,
{
    V::exact_interpolation(a, b);
}

/// Whether `(a - b·t)·t²` may be formed.
pub open spec fn smoothstep_req<V: Vector>(a: V, b: V, t: V::Scalar) -> bool {
    &&& b.mul_scalar_req(t)
    &&& a.sub_req(b.mul_scalar_spec(t))
    &&& t.mul_req(t)
    &&& a.sub_spec(b.mul_scalar_spec(t)).mul_scalar_req(t.mul_spec(t))
}

/// `(a - b·t)·t²`.
pub open spec fn smoothstep_spec<V: Vector>(a: V, b: V, t: V::Scalar) -> V {
    a.sub_spec(b.mul_scalar_spec(t)).mul_scalar_spec(t.mul_spec(t))
}

pub fn smoothstep<T: Number, V: Vector<Scalar = T>>(a: V, b: V, t: T) -> (r: V)
    requires
        smoothstep_req(a, b, t),
    ensures
        r == smoothstep_spec(a, b, t),
{
    a.sub(b.mul_scalar(t)).mul_scalar(t.mul(t))
}

/// Where `t` lies between `from` and `to`, as a fraction of the way:
/// `(t - from) / (to - from)`.
pub open spec fn inverse_lerp_spec<V: FloatingPoint>(from: V, to: V, t: V) -> V {
    t.sub_spec(from).div_spec(to.sub_spec(from))
}

/// The inverse of `lerp` on scalars.
pub fn inverse_lerp<V: FloatingPoint>(from: V, to: V, t: V) -> (r: V)
    ensures
        r == inverse_lerp_spec(from, to, t),
{
    proof {
        V::arithmetic_is_total();
    }
    t.sub(from).div(to.sub(from))
}

/// `t` carried from the range `imin..imax` over to the range `omin..omax`:
/// `omin + (omax - omin)·s`, with `s` the fraction of the way that `t` is
/// from `imin` to `imax`.
pub open spec fn remap_spec<V: FloatingPoint>(imin: V, imax: V, omin: V, omax: V, t: V) -> V {
    omin.add_spec(omax.sub_spec(omin).mul_spec(inverse_lerp_spec(imin, imax, t)))
}

pub fn remap<V: FloatingPoint>(imin: V, imax: V, omin: V, omax: V, t: V) -> (r: V)
    ensures
        r == remap_spec(imin, imax, omin, omax, t),
{
    proof {
        V::arithmetic_is_total();
    }
    let t2 = inverse_lerp(imin, imax, t);
    omin.add(omax.sub(omin).mul(t2))
}

} // verus!
