use vstd::prelude::*;
use crate::linear::mirror::cross;
use crate::linear::mirror::dot;
use crate::linear::mirror::lemma_lagrange;

verus! {

/// The square of the distance from the vector `(qx, qy)` to the point at
/// the parameter `t` of the line through the origin along `(bx, by)`.
pub open spec fn offset_squared(qx: real, qy: real, bx: real, by: real, t: real) -> real {
    (qx - t * bx) * (qx - t * bx) + (qy - t * by) * (qy - t * by)
}

/// The square of the distance to the point at `t`, times the square `n` of
/// the length of the line, is `(t·n - d)² + c²`, with `d` the dot and `c`
/// the cross product of the vector and the line: least where `t·n = d`.
pub proof fn lemma_completed_square(qx: real, qy: real, bx: real, by: real, t: real)
    ensures
        (bx * bx + by * by) * offset_squared(qx, qy, bx, by, t) == (t * (bx * bx + by * by) - dot(
            qx,
            qy,
            bx,
            by,
        )) * (t * (bx * bx + by * by) - dot(qx, qy, bx, by)) + cross(qx, qy, bx, by) * cross(
            qx,
            qy,
            bx,
            by,
        ),
{
    let n = bx * bx + by * by;
    let d = qx * bx + qy * by;
    let c = qx * by - qy * bx;
    let l = qx * qx + qy * qy;
    let f = offset_squared(qx, qy, bx, by, t);
    // the offset squared is l - 2·t·d + t²·n
    let (ex, ey) = (t * bx, t * by);
    assert((qx - ex) * (qx - ex) == qx * qx - 2real * (qx * ex) + ex * ex) by (nonlinear_arith);
    assert((qy - ey) * (qy - ey) == qy * qy - 2real * (qy * ey) + ey * ey) by (nonlinear_arith);
    assert(qx * ex == t * (qx * bx)) by (nonlinear_arith)
        requires
            ex == t * bx,
    ;
    assert(qy * ey == t * (qy * by)) by (nonlinear_arith)
        requires
            ey == t * by,
    ;
    assert(ex * ex == (t * t) * (bx * bx)) by (nonlinear_arith)
        requires
            ex == t * bx,
    ;
    assert(ey * ey == (t * t) * (by * by)) by (nonlinear_arith)
        requires
            ey == t * by,
    ;
    assert((t * t) * (bx * bx) + (t * t) * (by * by) == (t * t) * n) by (nonlinear_arith)
        requires
            n == bx * bx + by * by,
    ;
    assert(t * (qx * bx) + t * (qy * by) == t * d) by (nonlinear_arith)
        requires
            d == qx * bx + qy * by,
    ;
    assert(f == l - 2real * (t * d) + (t * t) * n);
    // times n, with Lagrange's identity for l·n
    lemma_lagrange(qx, qy, bx, by);
    assert(l * n == d * d + c * c);
    assert(n * f == l * n - 2real * ((t * d) * n) + ((t * t) * n) * n) by (nonlinear_arith)
        requires
            f == l - 2real * (t * d) + (t * t) * n,
    ;
    let u = t * n;
    assert((u - d) * (u - d) == u * u - 2real * (u * d) + d * d) by (nonlinear_arith);
    assert(u * u == ((t * t) * n) * n) by (nonlinear_arith)
        requires
            u == t * n,
    ;
    assert(u * d == (t * d) * n) by (nonlinear_arith)
        requires
            u == t * n,
    ;
}

/// Nothing on the line is nearer than the foot of the perpendicular: with
/// `o` the distance to the line, for which `n·o² = c²`, the square of `o`
/// is at most the square of the distance to the point at any `t`.
pub proof fn lemma_least_at_the_foot(
    qx: real,
    qy: real,
    bx: real,
    by: real,
    t: real,
    o: real,
)
    requires
        bx * bx + by * by > 0real,
        (bx * bx + by * by) * (o * o) == cross(qx, qy, bx, by) * cross(qx, qy, bx, by),
    ensures
        o * o <= offset_squared(qx, qy, bx, by, t),
{
    let n = bx * bx + by * by;
    let f = offset_squared(qx, qy, bx, by, t);
    let u = t * n - dot(qx, qy, bx, by);
    lemma_completed_square(qx, qy, bx, by, t);
    assert(u * u >= 0real) by (nonlinear_arith);
    assert(n * (o * o) <= n * f);
    assert(o * o <= f) by (nonlinear_arith)
        requires
            n * (o * o) <= n * f,
            n > 0real,
    ;
}

/// Where the vector reaches back behind the start of the line, so that the
/// dot product is not positive, no point of the line at a parameter that is
/// not negative is nearer than the start.
pub proof fn lemma_least_at_the_start(qx: real, qy: real, bx: real, by: real, t: real)
    requires
        bx * bx + by * by > 0real,
        dot(qx, qy, bx, by) <= 0real,
        t >= 0real,
    ensures
        offset_squared(qx, qy, bx, by, 0real) <= offset_squared(qx, qy, bx, by, t),
{
    let n = bx * bx + by * by;
    let d = dot(qx, qy, bx, by);
    let (f0, f) = (offset_squared(qx, qy, bx, by, 0real), offset_squared(qx, qy, bx, by, t));
    lemma_completed_square(qx, qy, bx, by, 0real);
    lemma_completed_square(qx, qy, bx, by, t);
    let u = t * n;
    assert(0real * n - d == -d);
    assert((-d) * (-d) == d * d) by (nonlinear_arith);
    assert((u - d) * (u - d) == u * u - 2real * (u * d) + d * d) by (nonlinear_arith);
    assert(u >= 0real) by (nonlinear_arith)
        requires
            u == t * n,
            t >= 0real,
            n > 0real,
    ;
    assert(u * u >= 0real) by (nonlinear_arith);
    assert(u * d <= 0real) by (nonlinear_arith)
        requires
            u >= 0real,
            d <= 0real,
    ;
    assert(n * f0 <= n * f);
    assert(f0 <= f) by (nonlinear_arith)
        requires
            n * f0 <= n * f,
            n > 0real,
    ;
}

/// Where the vector reaches beyond the end of the line, so that the dot
/// product is at least the square of the length, no point of the line at a
/// parameter of at most one is nearer than the end.
pub proof fn lemma_least_at_the_end(qx: real, qy: real, bx: real, by: real, t: real)
    requires
        bx * bx + by * by > 0real,
        dot(qx, qy, bx, by) >= bx * bx + by * by,
        t <= 1real,
    ensures
        offset_squared(qx, qy, bx, by, 1real) <= offset_squared(qx, qy, bx, by, t),
{
    let n = bx * bx + by * by;
    let d = dot(qx, qy, bx, by);
    let (f1, f) = (offset_squared(qx, qy, bx, by, 1real), offset_squared(qx, qy, bx, by, t));
    lemma_completed_square(qx, qy, bx, by, 1real);
    lemma_completed_square(qx, qy, bx, by, t);
    // with g = d - n and h = n - t·n, both not negative: t·n - d = -(g + h)
    let g = d - n;
    let h = n - t * n;
    assert(h >= 0real) by (nonlinear_arith)
        requires
            h == n - t * n,
            t <= 1real,
            n > 0real,
    ;
    assert(1real * n - d == -g);
    assert(t * n - d == -(g + h));
    assert((-g) * (-g) == g * g) by (nonlinear_arith);
    assert((-(g + h)) * (-(g + h)) == g * g + 2real * (g * h) + h * h) by (nonlinear_arith);
    assert(g * h >= 0real) by (nonlinear_arith)
        requires
            g >= 0real,
            h >= 0real,
    ;
    assert(h * h >= 0real) by (nonlinear_arith);
    assert(n * f1 <= n * f);
    assert(f1 <= f) by (nonlinear_arith)
        requires
            n * f1 <= n * f,
            n > 0real,
    ;
}

/// Where the foot of the perpendicular lies strictly between the ends of
/// the line, either end is strictly farther off than the line.
pub proof fn lemma_ends_are_farther_than_the_foot(
    qx: real,
    qy: real,
    bx: real,
    by: real,
    o: real,
)
    requires
        bx * bx + by * by > 0real,
        0real < dot(qx, qy, bx, by) < bx * bx + by * by,
        (bx * bx + by * by) * (o * o) == cross(qx, qy, bx, by) * cross(qx, qy, bx, by),
    ensures
        o * o < offset_squared(qx, qy, bx, by, 0real),
        o * o < offset_squared(qx, qy, bx, by, 1real),
{
    let n = bx * bx + by * by;
    let d = dot(qx, qy, bx, by);
    let (f0, f1) = (offset_squared(qx, qy, bx, by, 0real), offset_squared(qx, qy, bx, by, 1real));
    lemma_completed_square(qx, qy, bx, by, 0real);
    lemma_completed_square(qx, qy, bx, by, 1real);
    assert(0real * n - d == -d);
    assert(1real * n - d == n - d);
    assert((-d) * (-d) > 0real) by (nonlinear_arith)
        requires
            d > 0real,
    ;
    assert((n - d) * (n - d) > 0real) by (nonlinear_arith)
        requires
            n - d > 0real,
    ;
    assert(n * (o * o) < n * f0);
    assert(n * (o * o) < n * f1);
    assert(o * o < f0) by (nonlinear_arith)
        requires
            n * (o * o) < n * f0,
            n > 0real,
    ;
    assert(o * o < f1) by (nonlinear_arith)
        requires
            n * (o * o) < n * f1,
            n > 0real,
    ;
}

/// At the foot of the perpendicular, where `t·n = d`, the square of the
/// distance to the line's point is the square of the distance to the line.
pub proof fn lemma_foot_is_attained(
    qx: real,
    qy: real,
    bx: real,
    by: real,
    t: real,
    o: real,
)
    requires
        bx * bx + by * by > 0real,
        t * (bx * bx + by * by) == dot(qx, qy, bx, by),
        (bx * bx + by * by) * (o * o) == cross(qx, qy, bx, by) * cross(qx, qy, bx, by),
    ensures
        o * o == offset_squared(qx, qy, bx, by, t),
{
    let n = bx * bx + by * by;
    let f = offset_squared(qx, qy, bx, by, t);
    lemma_completed_square(qx, qy, bx, by, t);
    assert(0real * 0real == 0real) by (nonlinear_arith);
    assert(n * (o * o) == n * f);
    assert(o * o == f) by (nonlinear_arith)
        requires
            n * (o * o) == n * f,
            n > 0real,
    ;
}

} // verus!
