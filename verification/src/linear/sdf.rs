use vstd::prelude::*;
use crate::linear::traits::Number;
use crate::linear::vector::Vector2;

verus! {

/// Whether the cross product of `a - p` and `b - p` may be formed.
pub open spec fn line_sdf_req<T: Number>(a: Vector2<T>, b: Vector2<T>, p: Vector2<T>) -> bool {
    &&& a.sub_req(p)
    &&& b.sub_req(p)
    &&& a.x.sub_spec(p.x).mul_req(b.y.sub_spec(p.y))
    &&& b.x.sub_spec(p.x).mul_req(a.y.sub_spec(p.y))
    &&& a.x.sub_spec(p.x).mul_spec(b.y.sub_spec(p.y)).sub_req(
        b.x.sub_spec(p.x).mul_spec(a.y.sub_spec(p.y)),
    )
}

/// Twice the signed area of the triangle `p`, `a`, `b`:
/// `(a.x - p.x)·(b.y - p.y) - (b.x - p.x)·(a.y - p.y)`. Its sign tells the
/// side of the line through `a` and `b` on which `p` lies.
pub open spec fn line_sdf_spec<T: Number>(a: Vector2<T>, b: Vector2<T>, p: Vector2<T>) -> T {
    a.x.sub_spec(p.x).mul_spec(b.y.sub_spec(p.y)).sub_spec(
        b.x.sub_spec(p.x).mul_spec(a.y.sub_spec(p.y)),
    )
}

pub fn line_sdf<T: Number>(a: Vector2<T>, b: Vector2<T>, p: Vector2<T>) -> (r: T)
    requires
        line_sdf_req(a, b, p),
    ensures
        r == line_sdf_spec(a, b, p),
{
    a.x.sub(p.x).mul(b.y.sub(p.y)).sub(b.x.sub(p.x).mul(a.y.sub(p.y)))
}

} // verus!
