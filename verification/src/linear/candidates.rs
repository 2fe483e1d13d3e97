use vstd::prelude::*;
use crate::equations::cardano::cubic_at;
use crate::equations::cubic::is_cubic_solved_as_it_stands;
use crate::equations::cubic::lemma_cubic_roots_solve;
use crate::linear::distance::length_squared;
use crate::linear::distance::lemma_magnitude_is_exact;
use crate::linear::distance::lemma_sign_is_a_unit;
use crate::linear::exact::ExactNumber;
use crate::linear::exact::computes_cosines;
use crate::linear::exact::computes_exactly;
use crate::linear::mirror::dot;
use crate::linear::non_zero_sign_spec;
use crate::linear::segments::quadratic_direction;
use crate::linear::segments::quadratic_endpoint_distance;
use crate::linear::segments::quadratic_signed_distance;
use crate::linear::segments::FlatSegment;
use crate::linear::segments::QuadraticFrame;
use crate::linear::segments::QuadraticSegment;
use crate::linear::segments::Segment;
use crate::linear::smoothing::lerp_spec;
use crate::linear::traits::FloatingPoint;
use crate::linear::traits::Number;
use crate::linear::traits::SignedNumber;
use crate::linear::vector::Vector2;

verus! {

/// The square of a real number.
pub open spec fn square(x: real) -> real {
    x * x
}

/// The square of the distance from the point asked about to the point of
/// the curve at the parameter `t`, in real numbers.
pub open spec fn offset_squared_at<T: ExactNumber + FloatingPoint>(frame: QuadraticFrame<T>, t: T) -> real {
    length_squared(frame.offset_at(t).x.value(), frame.offset_at(t).y.value())
}

/// Whether the parameter lies strictly inside of the curve.
pub open spec fn is_inside<T: ExactNumber + FloatingPoint>(t: T) -> bool {
    0real < t.value() < 1real
}

/// The square of a number with a sign of one or minus one is the square of
/// the number.
pub proof fn lemma_square_of_signed(sign: real, x: real)
    requires
        sign == 1real || sign == -1real,
    ensures
        square(sign * x) == square(x),
{
    assert((sign * x) * (sign * x) == x * x) by (nonlinear_arith)
        requires
            sign == 1real || sign == -1real,
    ;
}

/// Of two numbers that are not negative, the lesser has the lesser square.
pub proof fn lemma_squares_keep_order(x: real, y: real)
    requires
        0real <= x,
        0real <= y,
    ensures
        x <= y <==> square(x) <= square(y),
        x < y <==> square(x) < square(y),
{
    assert(x <= y <==> x * x <= y * y) by (nonlinear_arith)
        requires
            0real <= x,
            0real <= y,
    ;
    assert(x < y <==> x * x < y * y) by (nonlinear_arith)
        requires
            0real <= x,
            0real <= y,
    ;
}

/// The square of the absolute value is the square.
pub proof fn lemma_square_of_magnitude(x: real)
    ensures
        square(if x < 0real { -x } else { x }) == square(x),
{
    assert((-x) * (-x) == x * x) by (nonlinear_arith);
}

/// In exact arithmetic, what trying the stationary parameter `t` does to
/// the distance so far: it gets no farther; it is no farther than the
/// curve's point at `t`, if `t` lies inside of the curve; and it is the
/// distance so far or that to the curve's point at `t` inside of the curve.
pub proof fn lemma_nearer_at<T: ExactNumber + FloatingPoint>(frame: QuadraticFrame<T>, best: T, t: T)
    requires
        computes_exactly::<T>(),
    ensures
        square(frame.nearer_at(best, t).value()) <= square(best.value()),
        is_inside(t) ==> square(frame.nearer_at(best, t).value()) <= offset_squared_at(frame, t),
        square(frame.nearer_at(best, t).value()) == square(best.value()) || (is_inside(t) && square(
            frame.nearer_at(best, t).value(),
        ) == offset_squared_at(frame, t)),
{
    T::arithmetic_is_total();
    T::arithmetic_is_exact();
    let offset = frame.offset_at(t);
    let distance = offset.magnitude_spec();
    let tangent = frame.ab.add_spec(frame.br.mul_scalar_spec(t));
    let sign = non_zero_sign_spec(tangent.cross_spec(offset));
    lemma_magnitude_is_exact(offset);
    lemma_sign_is_a_unit(tangent.cross_spec(offset));
    let magnitude = best.abs_spec().value();
    lemma_square_of_magnitude(best.value());
    lemma_squares_keep_order(distance.value(), magnitude);
    lemma_square_of_signed(sign.value(), distance.value());
    assert(square(distance.value()) == offset_squared_at(frame, t));
    assert(sign.mul_spec(distance).value() == sign.value() * distance.value());
}

/// In exact arithmetic, what trying the stationary parameters `roots` in
/// turn does to the distance so far: it gets no farther; it is no farther
/// than the curve's point at any of them that lies inside of the curve; and
/// it is the distance so far or that to the curve's point at the parameter
/// that the lemma returns, one of `roots` inside of the curve.
pub proof fn lemma_nearer_among<T: ExactNumber + FloatingPoint>(
    frame: QuadraticFrame<T>,
    best: T,
    roots: Seq<T>,
) -> (nearest: Option<T>)
    requires
        computes_exactly::<T>(),
    ensures
        square(frame.nearer_among(best, roots).value()) <= square(best.value()),
        forall|i: int|
            0 <= i < roots.len() && is_inside(#[trigger] roots[i]) ==> square(
                frame.nearer_among(best, roots).value(),
            ) <= offset_squared_at(frame, roots[i]),
        match nearest {
            Some(t) => roots.contains(t) && is_inside(t) && square(
                frame.nearer_among(best, roots).value(),
            ) == offset_squared_at(frame, t),
            None => square(frame.nearer_among(best, roots).value()) == square(best.value()),
        },
    decreases roots.len(),
{
    if roots.len() == 0 {
        None
    } else {
        let first = roots[0];
        let next = frame.nearer_at(best, first);
        lemma_nearer_at(frame, best, first);
        let later = lemma_nearer_among(frame, next, roots.drop_first());
        let last = frame.nearer_among(best, roots);
        assert(last == frame.nearer_among(next, roots.drop_first()));
        assert forall|i: int| 0 <= i < roots.len() && is_inside(#[trigger] roots[i]) implies square(
            last.value(),
        ) <= offset_squared_at(frame, roots[i]) by {
            if i > 0 {
                assert(roots[i] == roots.drop_first()[i - 1]);
            }
        }
        match later {
            Some(t) => {
                let k = choose|k: int| 0 <= k < roots.drop_first().len() && roots.drop_first()[k]
                    == t;
                assert(roots[k + 1] == t);
                Some(t)
            },
            None => {
                if square(next.value()) == square(best.value()) {
                    None
                } else {
                    assert(roots[0] == first);
                    Some(first)
                }
            },
        }
    }
}

/// The point of the quadratic curve `start`, `control`, `end` at the
/// parameter `t`, by de Casteljau's construction.
pub open spec fn quadratic_point<T: ExactNumber + FloatingPoint>(
    start: Vector2<T>,
    control: Vector2<T>,
    end: Vector2<T>,
    t: T,
) -> Vector2<T> {
    lerp_spec(lerp_spec(start, control, t), lerp_spec(control, end, t), t)
}

/// One component of the point of a quadratic curve and of the offset from
/// which distances are computed: with the control values `s`, `c`, `e` and
/// the value `p` of the point asked about,
/// `s + (c - s)·t + ((c + (e - c)·t) - (s + (c - s)·t))·t - p` is
/// `(s - p) + ((c - s)·2)·t + (((e - c) - (c - s))·t)·t`.
pub proof fn lemma_de_casteljau(s: real, c: real, e: real, p: real, t: real)
    ensures
        (s + (c - s) * t) + ((c + (e - c) * t) - (s + (c - s) * t)) * t - p == ((s - p) + ((c - s)
            * 2real) * t) + (((e - c) - (c - s)) * t) * t,
{
    let (u, v) = ((c - s) * t, (e - c) * t);
    assert(((c + v) - (s + u)) * t == (c - s) * t + (v - u) * t) by (nonlinear_arith);
    assert(((c - s) * 2real) * t == 2real * u) by (nonlinear_arith)
        requires
            u == (c - s) * t,
    ;
    assert(((e - c) - (c - s)) * t == v - u) by (nonlinear_arith)
        requires
            u == (c - s) * t,
            v == (e - c) * t,
    ;
}

/// In exact arithmetic the offset at `t` is the vector from the point
/// asked about to the point of the curve at `t`.
pub proof fn lemma_offset_is_from_the_curve<T: ExactNumber + FloatingPoint>(
    start: Vector2<T>,
    control: Vector2<T>,
    end: Vector2<T>,
    p: Vector2<T>,
    t: T,
)
    requires
        computes_exactly::<T>(),
    ensures
        QuadraticFrame::of(start, control, end, p).offset_at(t).x.value() == quadratic_point(
            start,
            control,
            end,
            t,
        ).x.value() - p.x.value(),
        QuadraticFrame::of(start, control, end, p).offset_at(t).y.value() == quadratic_point(
            start,
            control,
            end,
            t,
        ).y.value() - p.y.value(),
{
    T::arithmetic_is_total();
    T::arithmetic_is_exact();
    lemma_de_casteljau(
        start.x.value(),
        control.x.value(),
        end.x.value(),
        p.x.value(),
        t.value(),
    );
    lemma_de_casteljau(
        start.y.value(),
        control.y.value(),
        end.y.value(),
        p.y.value(),
        t.value(),
    );
}

/// In exact arithmetic the offsets at zero and at one are the vectors from
/// the point asked about to the start and to the end of the curve.
pub proof fn lemma_offsets_at_the_ends<T: ExactNumber + FloatingPoint>(
    start: Vector2<T>,
    control: Vector2<T>,
    end: Vector2<T>,
    p: Vector2<T>,
)
    requires
        computes_exactly::<T>(),
    ensures
        offset_squared_at(QuadraticFrame::of(start, control, end, p), T::zero_spec())
            == length_squared(start.x.value() - p.x.value(), start.y.value() - p.y.value()),
        offset_squared_at(QuadraticFrame::of(start, control, end, p), T::one_spec())
            == length_squared(end.x.value() - p.x.value(), end.y.value() - p.y.value()),
{
    T::arithmetic_is_total();
    T::arithmetic_is_exact();
    let frame = QuadraticFrame::of(start, control, end, p);
    let (o, i) = (T::zero_spec(), T::one_spec());
    lemma_offset_is_from_the_curve(start, control, end, p, o);
    lemma_offset_is_from_the_curve(start, control, end, p, i);
    lemma_de_casteljau_at_the_ends(start.x.value(), control.x.value(), end.x.value());
    lemma_de_casteljau_at_the_ends(start.y.value(), control.y.value(), end.y.value());
}

/// One component of the point of a quadratic curve at zero is that of the
/// start, and at one that of the end.
pub proof fn lemma_de_casteljau_at_the_ends(s: real, c: real, e: real)
    ensures
        (s + (c - s) * 0real) + ((c + (e - c) * 0real) - (s + (c - s) * 0real)) * 0real == s,
        (s + (c - s) * 1real) + ((c + (e - c) * 1real) - (s + (c - s) * 1real)) * 1real == e,
{
    assert((c - s) * 0real == 0real) by (nonlinear_arith);
    assert((e - c) * 0real == 0real) by (nonlinear_arith);
    assert((c - s) * 1real == c - s) by (nonlinear_arith);
    assert((e - c) * 1real == e - c) by (nonlinear_arith);
    assert(((c + 0real) - (s + 0real)) * 0real == 0real) by (nonlinear_arith);
    assert(((c + (e - c)) - (s + (c - s))) * 1real == e - c) by (nonlinear_arith);
}

/// In exact arithmetic the distance to the nearer end of the curve is, in
/// magnitude, the lesser of the distances to the curve's points at zero and
/// at one.
pub proof fn lemma_nearer_end<T: ExactNumber + FloatingPoint>(
    start: Vector2<T>,
    control: Vector2<T>,
    end: Vector2<T>,
    p: Vector2<T>,
)
    requires
        computes_exactly::<T>(),
    ensures
        square(quadratic_endpoint_distance(start, control, end, p).value()) <= offset_squared_at(
            QuadraticFrame::of(start, control, end, p),
            T::zero_spec(),
        ),
        square(quadratic_endpoint_distance(start, control, end, p).value()) <= offset_squared_at(
            QuadraticFrame::of(start, control, end, p),
            T::one_spec(),
        ),
        square(quadratic_endpoint_distance(start, control, end, p).value()) == offset_squared_at(
            QuadraticFrame::of(start, control, end, p),
            T::zero_spec(),
        ) || square(quadratic_endpoint_distance(start, control, end, p).value())
            == offset_squared_at(QuadraticFrame::of(start, control, end, p), T::one_spec()),
{
    T::arithmetic_is_total();
    T::arithmetic_is_exact();
    lemma_offsets_at_the_ends(start, control, end, p);
    let qa = start.sub_spec(p);
    let to_end = end.sub_spec(p);
    let at_start = quadratic_direction(start, control, end, T::zero_spec()).cross_spec(qa);
    let at_end = quadratic_direction(start, control, end, T::one_spec()).cross_spec(to_end);
    let from_start = non_zero_sign_spec(at_start).mul_spec(qa.magnitude_spec());
    lemma_magnitude_is_exact(qa);
    lemma_magnitude_is_exact(to_end);
    lemma_sign_is_a_unit(at_start);
    lemma_sign_is_a_unit(at_end);
    lemma_square_of_signed(non_zero_sign_spec(at_start).value(), qa.magnitude_spec().value());
    lemma_square_of_signed(non_zero_sign_spec(at_end).value(), to_end.magnitude_spec().value());
    lemma_square_of_magnitude(from_start.value());
    lemma_squares_keep_order(to_end.magnitude_spec().value(), from_start.abs_spec().value());
}

/// In exact arithmetic the magnitude of the signed distance to a quadratic
/// curve is the distance from the point to a point of the curve: to that at
/// the parameter that the lemma returns, which is zero, one, or a
/// stationary parameter strictly between them.
pub proof fn lemma_distance_is_to_the_curve<T: ExactNumber + FloatingPoint>(
    start: Vector2<T>,
    control: Vector2<T>,
    end: Vector2<T>,
    p: Vector2<T>,
) -> (t: T)
    requires
        computes_exactly::<T>(),
    ensures
        0real <= t.value() <= 1real,
        square(quadratic_signed_distance(start, control, end, p).value()) == length_squared(
            quadratic_point(start, control, end, t).x.value() - p.x.value(),
            quadratic_point(start, control, end, t).y.value() - p.y.value(),
        ),
{
    T::arithmetic_is_exact();
    let frame = QuadraticFrame::of(start, control, end, p);
    let nearer_end = quadratic_endpoint_distance(start, control, end, p);
    lemma_nearer_end(start, control, end, p);
    let inside = lemma_nearer_among(frame, nearer_end, frame.stationary_parameters().real_roots());
    let t = match inside {
        Some(t) => t,
        None => if square(nearer_end.value()) == offset_squared_at(frame, T::zero_spec()) {
            T::zero_spec()
        } else {
            T::one_spec()
        },
    };
    lemma_offset_is_from_the_curve(start, control, end, p, t);
    t
}

/// In exact arithmetic the signed distance to a quadratic curve is, in
/// magnitude, the least of the distances from the point to the ends of the
/// curve and to its points at the stationary parameters strictly between
/// zero and one.
pub proof fn lemma_distance_is_the_least_tried<T: ExactNumber + FloatingPoint>(
    start: Vector2<T>,
    control: Vector2<T>,
    end: Vector2<T>,
    p: Vector2<T>,
)
    requires
        computes_exactly::<T>(),
    ensures
        square(quadratic_signed_distance(start, control, end, p).value()) <= length_squared(
            start.x.value() - p.x.value(),
            start.y.value() - p.y.value(),
        ),
        square(quadratic_signed_distance(start, control, end, p).value()) <= length_squared(
            end.x.value() - p.x.value(),
            end.y.value() - p.y.value(),
        ),
        forall|i: int|
            #![trigger QuadraticFrame::of(start, control, end, p).stationary_parameters().real_roots()[i]]
            {
                let roots = QuadraticFrame::of(
                    start,
                    control,
                    end,
                    p,
                ).stationary_parameters().real_roots();
                0 <= i < roots.len() && is_inside(roots[i]) ==> square(
                    quadratic_signed_distance(start, control, end, p).value(),
                ) <= length_squared(
                    quadratic_point(start, control, end, roots[i]).x.value() - p.x.value(),
                    quadratic_point(start, control, end, roots[i]).y.value() - p.y.value(),
                )
            },
{
    let frame = QuadraticFrame::of(start, control, end, p);
    let roots = frame.stationary_parameters().real_roots();
    let nearer_end = quadratic_endpoint_distance(start, control, end, p);
    lemma_nearer_end(start, control, end, p);
    lemma_offsets_at_the_ends(start, control, end, p);
    let inside = lemma_nearer_among(frame, nearer_end, roots);
    assert forall|i: int| 0 <= i < roots.len() && is_inside(#[trigger] roots[i]) implies square(
        quadratic_signed_distance(start, control, end, p).value(),
    ) <= length_squared(
        quadratic_point(start, control, end, roots[i]).x.value() - p.x.value(),
        quadratic_point(start, control, end, roots[i]).y.value() - p.y.value(),
    ) by {
        lemma_offset_is_from_the_curve(start, control, end, p, roots[i]);
    }
}

/// One component of the offset at `t` times the same component of the
/// tangent there, as a polynomial in `t`: with the components `q`, `u` and
/// `w` of the three vectors of the frame,
/// `(q + 2·u·t + w·t²)·(u + w·t)` is
/// `q·u + (q·w + 2·u²)·t + 3·u·w·t² + w²·t³`.
pub proof fn lemma_offset_times_tangent(q: real, u: real, w: real, t: real)
    ensures
        ((q + (u * 2real) * t) + (w * t) * t) * (u + w * t) == q * u + (q * w + 2real * (u * u))
            * t + 3real * (u * w) * (t * t) + (w * w) * (t * t * t),
{
    let (ut, wt) = (u * t, w * t);
    let offset = (q + 2real * ut) + wt * t;
    let tangent = u + wt;
    assert((u * 2real) * t == 2real * ut) by (nonlinear_arith)
        requires
            ut == u * t,
    ;
    assert(offset * tangent == offset * u + offset * wt) by (nonlinear_arith)
        requires
            tangent == u + wt,
    ;
    assert(offset * u == q * u + 2real * (ut * u) + (wt * t) * u) by (nonlinear_arith)
        requires
            offset == (q + 2real * ut) + wt * t,
    ;
    assert(offset * wt == q * wt + 2real * (ut * wt) + (wt * t) * wt) by (nonlinear_arith)
        requires
            offset == (q + 2real * ut) + wt * t,
    ;
    // each product as a multiple of a power of t
    assert(ut * u == (u * u) * t) by (nonlinear_arith)
        requires
            ut == u * t,
    ;
    assert((wt * t) * u == (u * w) * (t * t)) by (nonlinear_arith)
        requires
            wt == w * t,
    ;
    assert(q * wt == (q * w) * t) by (nonlinear_arith)
        requires
            wt == w * t,
    ;
    assert(ut * wt == (u * w) * (t * t)) by (nonlinear_arith)
        requires
            ut == u * t,
            wt == w * t,
    ;
    assert((wt * t) * wt == (w * w) * (t * t * t)) by (nonlinear_arith)
        requires
            wt == w * t,
    ;
    assert((q * w + 2real * (u * u)) * t == (q * w) * t + 2real * ((u * u) * t))
        by (nonlinear_arith);
    assert(3real * (u * w) * (t * t) == 3real * ((u * w) * (t * t))) by (nonlinear_arith);
}

/// In exact arithmetic the stationary parameters are what they are called:
/// at each of them the offset from the point to the curve stands at a right
/// angle on the tangent `ab + br·t` of the curve, so that the distance
/// neither grows nor shrinks there. The cubic equation must have been
/// solved as it stands.
pub proof fn lemma_stationary_parameters_are_stationary<T: ExactNumber + FloatingPoint>(
    frame: QuadraticFrame<T>,
    i: int,
    cosine: spec_fn(real) -> real,
)
    requires
        computes_exactly::<T>(),
        computes_cosines::<T>(cosine),
        is_cubic_solved_as_it_stands(
            frame.coefficients().0,
            frame.coefficients().1,
            frame.coefficients().2,
        ),
        0 <= i < frame.stationary_parameters().real_roots().len(),
    ensures
        ({
            let t = frame.stationary_parameters().real_roots()[i];
            let tangent = frame.ab.add_spec(frame.br.mul_scalar_spec(t));
            dot(
                frame.offset_at(t).x.value(),
                frame.offset_at(t).y.value(),
                tangent.x.value(),
                tangent.y.value(),
            ) == 0real
        }),
{
    T::arithmetic_is_total();
    T::arithmetic_is_exact();
    let (a, b, c, d) = frame.coefficients();
    let t = frame.stationary_parameters().real_roots()[i];
    let tv = t.value();
    lemma_cubic_roots_solve(a, b, c, d, cosine);
    assert(cubic_at(a.value(), b.value(), c.value(), d.value(), tv) == 0real);
    let (q1, q2) = (frame.qa.x.value(), frame.qa.y.value());
    let (u1, u2) = (frame.ab.x.value(), frame.ab.y.value());
    let (w1, w2) = (frame.br.x.value(), frame.br.y.value());
    lemma_offset_times_tangent(q1, u1, w1, tv);
    lemma_offset_times_tangent(q2, u2, w2, tv);
    // the coefficients, in real numbers
    let (va, vb, vc, vd) = (a.value(), b.value(), c.value(), d.value());
    assert(va == w1 * w1 + w2 * w2);
    assert(vb == 3real * (u1 * w1 + u2 * w2));
    assert(vc == 2real * (u1 * u1 + u2 * u2) + (q1 * w1 + q2 * w2));
    assert(vd == q1 * u1 + q2 * u2);
    assert(va * tv * tv * tv == (w1 * w1) * (tv * tv * tv) + (w2 * w2) * (tv * tv * tv))
        by (nonlinear_arith)
        requires
            va == w1 * w1 + w2 * w2,
    ;
    assert(vb * tv * tv == 3real * (u1 * w1) * (tv * tv) + 3real * (u2 * w2) * (tv * tv))
        by (nonlinear_arith)
        requires
            vb == 3real * (u1 * w1 + u2 * w2),
    ;
    assert(vc * tv == (q1 * w1 + 2real * (u1 * u1)) * tv + (q2 * w2 + 2real * (u2 * u2)) * tv)
        by (nonlinear_arith)
        requires
            vc == 2real * (u1 * u1 + u2 * u2) + (q1 * w1 + q2 * w2),
    ;
}

} // verus!
