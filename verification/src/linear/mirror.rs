use vstd::prelude::*;

verus! {

/// The dot product of the plane vectors `(qx, qy)` and `(bx, by)`.
pub open spec fn dot(qx: real, qy: real, bx: real, by: real) -> real {
    qx * bx + qy * by
}

/// The cross product of the plane vectors `(qx, qy)` and `(bx, by)`.
pub open spec fn cross(qx: real, qy: real, bx: real, by: real) -> real {
    qx * by - qy * bx
}

/// Whether `(mx, my)` is the mirror image of `(qx, qy)` across the line
/// through the origin along `(bx, by)`: the two reach as far along the
/// line, and lie as far off it on opposite sides.
pub open spec fn mirrors(qx: real, qy: real, mx: real, my: real, bx: real, by: real) -> bool {
    &&& dot(mx, my, bx, by) == dot(qx, qy, bx, by)
    &&& cross(mx, my, bx, by) == -cross(qx, qy, bx, by)
}

/// Two numbers that are not negative and have the same square are the same.
pub proof fn lemma_same_square(x: real, y: real)
    requires
        x >= 0real,
        y >= 0real,
        x * x == y * y,
    ensures
        x == y,
{
    assert(x == y) by (nonlinear_arith)
        requires
            x >= 0real,
            y >= 0real,
            x * x == y * y,
    ;
}

/// Lagrange's identity in the plane: the product of the squares of two
/// lengths is the sum of the squares of the dot and the cross product.
pub proof fn lemma_lagrange(qx: real, qy: real, bx: real, by: real)
    ensures
        (qx * qx + qy * qy) * (bx * bx + by * by) == dot(qx, qy, bx, by) * dot(qx, qy, bx, by)
            + cross(qx, qy, bx, by) * cross(qx, qy, bx, by),
{
    // the four products of a component of the one and a component of the other
    let (xx, yy, xy, yx) = (qx * bx, qy * by, qx * by, qy * bx);
    let (q2x, q2y, b2x, b2y) = (qx * qx, qy * qy, bx * bx, by * by);
    assert((q2x + q2y) * (b2x + b2y) == q2x * b2x + q2x * b2y + q2y * b2x + q2y * b2y)
        by (nonlinear_arith);
    assert(q2x * b2x == xx * xx) by (nonlinear_arith)
        requires
            q2x == qx * qx,
            b2x == bx * bx,
            xx == qx * bx,
    ;
    assert(q2x * b2y == xy * xy) by (nonlinear_arith)
        requires
            q2x == qx * qx,
            b2y == by * by,
            xy == qx * by,
    ;
    assert(q2y * b2x == yx * yx) by (nonlinear_arith)
        requires
            q2y == qy * qy,
            b2x == bx * bx,
            yx == qy * bx,
    ;
    assert(q2y * b2y == yy * yy) by (nonlinear_arith)
        requires
            q2y == qy * qy,
            b2y == by * by,
            yy == qy * by,
    ;
    assert(xx * yy == xy * yx) by (nonlinear_arith)
        requires
            xx == qx * bx,
            yy == qy * by,
            xy == qx * by,
            yx == qy * bx,
    ;
    assert((xx + yy) * (xx + yy) == xx * xx + 2real * (xx * yy) + yy * yy) by (nonlinear_arith);
    assert((xy - yx) * (xy - yx) == xy * xy - 2real * (xy * yx) + yx * yx) by (nonlinear_arith);
}

/// A vector and its mirror image are of one length, and as far from the
/// point `(bx, by)` of the mirror.
pub proof fn lemma_mirror_keeps_lengths(
    qx: real,
    qy: real,
    mx: real,
    my: real,
    bx: real,
    by: real,
)
    requires
        bx * bx + by * by != 0real,
        mirrors(qx, qy, mx, my, bx, by),
    ensures
        mx * mx + my * my == qx * qx + qy * qy,
        (bx - mx) * (bx - mx) + (by - my) * (by - my) == (bx - qx) * (bx - qx) + (by - qy) * (by
            - qy),
{
    let n = bx * bx + by * by;
    let (d, c) = (dot(qx, qy, bx, by), cross(qx, qy, bx, by));
    let (lq, lm) = (qx * qx + qy * qy, mx * mx + my * my);
    lemma_lagrange(qx, qy, bx, by);
    lemma_lagrange(mx, my, bx, by);
    assert((-c) * (-c) == c * c) by (nonlinear_arith);
    assert(lm * n == lq * n);
    assert(lm == lq) by (nonlinear_arith)
        requires
            lm * n == lq * n,
            n != 0real,
    ;
    assert((bx - mx) * (bx - mx) + (by - my) * (by - my) == n - 2real * (mx * bx + my * by) + lm)
        by (nonlinear_arith)
        requires
            n == bx * bx + by * by,
            lm == mx * mx + my * my,
    ;
    assert((bx - qx) * (bx - qx) + (by - qy) * (by - qy) == n - 2real * (qx * bx + qy * by) + lq)
        by (nonlinear_arith)
        requires
            n == bx * bx + by * by,
            lq == qx * qx + qy * qy,
    ;
}

/// The components of the unit normal times the length are the components
/// of the normal.
pub proof fn lemma_unit_normal(bx: real, by: real, l: real)
    requires
        l != 0real,
    ensures
        ((-by) / l) * l == -by,
        (bx / l) * l == bx,
{
    let (u, v) = ((-by) / l, bx / l);
    assert(u * l == -by) by (nonlinear_arith)
        requires
            l != 0real,
            u == (-by) / l,
    ;
    assert(v * l == bx) by (nonlinear_arith)
        requires
            l != 0real,
            v == bx / l,
    ;
}

/// The component of a vector along the unit normal `(u, v)` of the line
/// along `(bx, by)`, times the length of that line, is the negated cross
/// product of the vector and the line.
pub proof fn lemma_along_normal(qx: real, qy: real, bx: real, by: real, l: real, u: real, v: real)
    requires
        u * l == -by,
        v * l == bx,
    ensures
        (u * qx + v * qy) * l == -cross(qx, qy, bx, by),
{
    let (s, t) = (u * qx, v * qy);
    assert((s + t) * l == s * l + t * l) by (nonlinear_arith);
    assert(s * l == -(qx * by)) by (nonlinear_arith)
        requires
            s == u * qx,
            u * l == -by,
    ;
    assert(t * l == qy * bx) by (nonlinear_arith)
        requires
            t == v * qy,
            v * l == bx,
    ;
}

/// The mirror image lies as far off the line as the vector, on the other
/// side: its component along the unit normal of the line, the normal being
/// `(-by, bx)` over the length `l` of `(bx, by)`, is the negation.
pub proof fn lemma_mirror_flips_normal(
    qx: real,
    qy: real,
    mx: real,
    my: real,
    bx: real,
    by: real,
    l: real,
)
    requires
        l != 0real,
        cross(mx, my, bx, by) == -cross(qx, qy, bx, by),
    ensures
        ((-by) / l) * mx + (bx / l) * my == -(((-by) / l) * qx + (bx / l) * qy),
{
    let (u, v) = ((-by) / l, bx / l);
    lemma_unit_normal(bx, by, l);
    lemma_along_normal(qx, qy, bx, by, l, u, v);
    lemma_along_normal(mx, my, bx, by, l, u, v);
    let (o, om) = (u * qx + v * qy, u * mx + v * my);
    assert(om == -o) by (nonlinear_arith)
        requires
            om * l == -(o * l),
            l != 0real,
    ;
}

} // verus!
