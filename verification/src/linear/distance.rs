use vstd::prelude::*;
use crate::linear::exact::ExactNumber;
use crate::linear::exact::computes_exactly;
use crate::linear::mirror::cross;
use crate::linear::mirror::dot;
use crate::linear::mirror::lemma_along_normal;
use crate::linear::mirror::lemma_mirror_flips_normal;
use crate::linear::mirror::lemma_mirror_keeps_lengths;
use crate::linear::mirror::lemma_same_square;
use crate::linear::mirror::lemma_unit_normal;
use crate::linear::mirror::mirrors;
use crate::linear::nearest::lemma_ends_are_farther_than_the_foot;
use crate::linear::nearest::lemma_foot_is_attained;
use crate::linear::nearest::lemma_least_at_the_end;
use crate::linear::nearest::lemma_least_at_the_foot;
use crate::linear::nearest::lemma_least_at_the_start;
use crate::linear::nearest::offset_squared;
use crate::linear::non_zero_sign_spec;
use crate::linear::segments::linear_signed_distance;
use crate::linear::segments::projection_parameter;
use crate::linear::segments::quadratic_direction;
use crate::linear::segments::quadratic_endpoint_distance;
use crate::linear::segments::quadratic_signed_distance;
use crate::linear::segments::FlatSegment;
use crate::linear::segments::LinearSegment;
use crate::linear::segments::QuadraticFrame;
use crate::linear::segments::QuadraticSegment;
use crate::linear::segments::Segment;
use crate::linear::traits::half_spec;
use crate::linear::traits::FloatingPoint;
use crate::linear::traits::Number;
use crate::linear::traits::SignedNumber;
use crate::linear::vector::Vector2;

verus! {

/// The square of the length of the vector of the components `x` and `y`.
pub open spec fn length_squared(x: real, y: real) -> real {
    x * x + y * y
}

/// In exact arithmetic the magnitude of a vector is the number that is not
/// negative and whose square is the sum of the squares of the components.
pub proof fn lemma_magnitude_is_exact<T: ExactNumber + FloatingPoint>(v: Vector2<T>)
    requires
        computes_exactly::<T>(),
    ensures
        v.magnitude_spec().value() >= 0real,
        v.magnitude_spec().value() * v.magnitude_spec().value() == length_squared(
            v.x.value(),
            v.y.value(),
        ),
{
    T::arithmetic_is_total();
    T::arithmetic_is_exact();
    let (x, y) = (v.x.value(), v.y.value());
    assert(v.dot_spec(v).value() == x * x + y * y);
    assert(x * x + y * y >= 0real) by (nonlinear_arith);
}

/// In exact arithmetic a vector of the length zero has the magnitude zero.
pub proof fn lemma_magnitude_of_nothing<T: ExactNumber + FloatingPoint>(v: Vector2<T>)
    requires
        computes_exactly::<T>(),
        v.x.value() == 0real,
        v.y.value() == 0real,
    ensures
        v.magnitude_spec().value() == 0real,
{
    lemma_magnitude_is_exact(v);
    let m = v.magnitude_spec().value();
    assert(m == 0real) by (nonlinear_arith)
        requires
            m * m == 0real * 0real + 0real * 0real,
    ;
}

/// In exact arithmetic the sign that is never zero is one for a positive
/// number and minus one for any other.
pub proof fn lemma_sign_is_a_unit<T: ExactNumber + FloatingPoint>(n: T)
    requires
        computes_exactly::<T>(),
    ensures
        non_zero_sign_spec(n).value() == if n.value() > 0real {
            1real
        } else {
            -1real
        },
{
    T::arithmetic_is_exact();
}

/// In exact arithmetic a distance of zero stays zero, whatever stationary
/// parameters are tried on it: nothing is nearer than on the spot.
pub proof fn lemma_nothing_is_nearer_than_zero<T: ExactNumber + FloatingPoint>(
    frame: QuadraticFrame<T>,
    best: T,
    roots: Seq<T>,
)
    requires
        computes_exactly::<T>(),
        best.value() == 0real,
    ensures
        frame.nearer_among(best, roots).value() == 0real,
    decreases roots.len(),
{
    if roots.len() > 0 {
        T::arithmetic_is_total();
        T::arithmetic_is_exact();
        let t = roots[0];
        let offset = frame.offset_at(t);
        let distance = offset.magnitude_spec();
        let sign = non_zero_sign_spec(
            frame.ab.add_spec(frame.br.mul_scalar_spec(t)).cross_spec(offset),
        );
        lemma_magnitude_is_exact(offset);
        lemma_sign_is_a_unit(frame.ab.add_spec(frame.br.mul_scalar_spec(t)).cross_spec(offset));
        assert(best.abs_spec().value() == 0real);
        if distance.less_equal_spec(best.abs_spec()) {
            assert(distance.value() == 0real);
            assert(sign.mul_spec(distance).value() == 0real) by (nonlinear_arith)
                requires
                    sign.mul_spec(distance).value() == sign.value() * distance.value(),
                    distance.value() == 0real,
            ;
        }
        assert(frame.nearer_at(best, t).value() == 0real);
        lemma_nothing_is_nearer_than_zero(frame, frame.nearer_at(best, t), roots.drop_first());
    }
}

/// In exact arithmetic the signed distance from an end of a quadratic curve
/// to the curve is zero.
pub proof fn lemma_distance_at_ends_is_zero<T: ExactNumber + FloatingPoint>(
    start: Vector2<T>,
    control: Vector2<T>,
    end: Vector2<T>,
)
    requires
        computes_exactly::<T>(),
    ensures
        quadratic_signed_distance(start, control, end, start).value() == 0real,
        quadratic_signed_distance(start, control, end, end).value() == 0real,
{
    T::arithmetic_is_total();
    T::arithmetic_is_exact();
    // seen from the start
    {
        let p = start;
        let frame = QuadraticFrame::of(start, control, end, p);
        let qa = start.sub_spec(p);
        let direction = quadratic_direction(
            start,
            control,
            end,
            T::zero_spec(),
        );
        let sign = non_zero_sign_spec(direction.cross_spec(qa));
        let from_start = sign.mul_spec(qa.magnitude_spec());
        lemma_magnitude_of_nothing(qa);
        lemma_sign_is_a_unit(direction.cross_spec(qa));
        assert(from_start.value() == 0real) by (nonlinear_arith)
            requires
                from_start.value() == sign.value() * qa.magnitude_spec().value(),
                qa.magnitude_spec().value() == 0real,
        ;
        lemma_magnitude_is_exact(end.sub_spec(p));
        assert(quadratic_endpoint_distance(start, control, end, p) == from_start);
        lemma_nothing_is_nearer_than_zero(
            frame,
            from_start,
            frame.stationary_parameters().real_roots(),
        );
    }
    // seen from the end
    {
        let p = end;
        let frame = QuadraticFrame::of(start, control, end, p);
        let to_end = end.sub_spec(p);
        let direction = quadratic_direction(
            start,
            control,
            end,
            T::one_spec(),
        );
        let sign = non_zero_sign_spec(direction.cross_spec(to_end));
        let at_end = sign.mul_spec(to_end.magnitude_spec());
        lemma_magnitude_of_nothing(to_end);
        lemma_sign_is_a_unit(direction.cross_spec(to_end));
        assert(at_end.value() == 0real) by (nonlinear_arith)
            requires
                at_end.value() == sign.value() * to_end.magnitude_spec().value(),
                to_end.magnitude_spec().value() == 0real,
        ;
        let nearest = quadratic_endpoint_distance(start, control, end, p);
        assert(nearest.value() == 0real);
        lemma_nothing_is_nearer_than_zero(
            frame,
            nearest,
            frame.stationary_parameters().real_roots(),
        );
    }
}

impl<T: ExactNumber + FloatingPoint> QuadraticSegment<Vector2<T>> {
    /// In exact arithmetic the signed distance from the start of the curve
    /// and from its end to the curve is zero.
    pub proof fn lemma_ends_lie_on_the_curve(&self)
        requires
            computes_exactly::<T>(),
        ensures
            self.signed_distance_spec(self.points().first()).value() == 0real,
            self.signed_distance_spec(self.points().last()).value() == 0real,
    {
        self.point_count();
        lemma_distance_at_ends_is_zero(self.points()[0], self.points()[1], self.points()[2]);
    }
}

/// How far `p` reaches along the line from `a` to `b`: the dot product of
/// `p - a` and `b - a`, in real numbers.
pub open spec fn reach<T: ExactNumber + FloatingPoint>(a: Vector2<T>, b: Vector2<T>, p: Vector2<T>) -> real {
    dot(
        p.x.value() - a.x.value(),
        p.y.value() - a.y.value(),
        b.x.value() - a.x.value(),
        b.y.value() - a.y.value(),
    )
}

/// On which side of the line from `a` to `b` the point `p` lies, and how
/// far off: the cross product of `p - a` and `b - a`, in real numbers. It
/// is zero for a point on the line.
pub open spec fn side<T: ExactNumber + FloatingPoint>(a: Vector2<T>, b: Vector2<T>, p: Vector2<T>) -> real {
    cross(
        p.x.value() - a.x.value(),
        p.y.value() - a.y.value(),
        b.x.value() - a.x.value(),
        b.y.value() - a.y.value(),
    )
}

/// The square of the distance from `a` to `b`, in real numbers.
pub open spec fn distance_squared<T: ExactNumber + FloatingPoint>(a: Vector2<T>, b: Vector2<T>) -> real {
    length_squared(b.x.value() - a.x.value(), b.y.value() - a.y.value())
}

/// Whether `m` is the mirror image of `p` across the line through `a` and
/// `b`: it reaches as far along the line, and lies as far off it on the
/// other side.
pub open spec fn is_mirror_image<T: ExactNumber + FloatingPoint>(
    a: Vector2<T>,
    b: Vector2<T>,
    p: Vector2<T>,
    m: Vector2<T>,
) -> bool {
    reach(a, b, m) == reach(a, b, p) && side(a, b, m) == -side(a, b, p)
}

/// The magnitude of a real number.
pub open spec fn magnitude(x: real) -> real {
    if x < 0real {
        -x
    } else {
        x
    }
}

/// How far `p` lies off the line from `a` to `b`, on the left of it as
/// positive: the component of `p - a` along the normal of the line that
/// points to the left, for a segment of the length `length`.
pub open spec fn lift<T: ExactNumber + FloatingPoint>(
    a: Vector2<T>,
    b: Vector2<T>,
    p: Vector2<T>,
    length: real,
) -> real {
    let (bx, by) = (b.x.value() - a.x.value(), b.y.value() - a.y.value());
    ((-by) / length) * (p.x.value() - a.x.value()) + (bx / length) * (p.y.value() - a.y.value())
}

/// What the signed distance to a segment is made of, in exact arithmetic
/// and for a segment of two different points.
pub struct Anatomy {
    /// The length of the segment.
    pub length: real,
    /// The distance to the nearer end.
    pub to_end: real,
    /// The distance to the line, with its sign.
    pub to_line: real,
}

/// In exact arithmetic, for a segment from `a` to a different point `b`:
/// the parameter of the projection is the reach over the square of the
/// length; the distance to the nearer end is not negative, and its square
/// is the square of the distance to `a` where the parameter is at most a
/// half, else to `b`; the distance to the line times the length is the
/// negated side; and the signed distance is the distance to the line where
/// the parameter lies strictly between zero and one and the line is
/// strictly nearer than the end, else the distance to the end with the
/// sign of the side.
pub proof fn lemma_anatomy<T: ExactNumber + FloatingPoint>(a: Vector2<T>, b: Vector2<T>, p: Vector2<T>) -> (n: Anatomy)
    requires
        computes_exactly::<T>(),
        distance_squared(a, b) != 0real,
    ensures
        n.length > 0real,
        n.length * n.length == distance_squared(a, b),
        projection_parameter(a, b, p).value() == reach(a, b, p) / distance_squared(a, b),
        n.to_end >= 0real,
        n.to_end * n.to_end == if reach(a, b, p) / distance_squared(a, b) <= 1real / 2real {
            distance_squared(p, a)
        } else {
            distance_squared(p, b)
        },
        n.to_line == lift(a, b, p, n.length),
        linear_signed_distance(a, b, p).value() == if 0real < reach(a, b, p) / distance_squared(
            a,
            b,
        ) < 1real && magnitude(n.to_line) < n.to_end {
            n.to_line
        } else if side(a, b, p) > 0real {
            n.to_end
        } else {
            -n.to_end
        },
{
    T::arithmetic_is_total();
    T::arithmetic_is_exact();
    let aq = p.sub_spec(a);
    let ab = b.sub_spec(a);
    let param = projection_parameter(a, b, p);
    assert(aq.dot_spec(ab).value() == reach(a, b, p));
    assert(ab.dot_spec(ab).value() == distance_squared(a, b));
    assert(half_spec::<T>().value() == 1real / 2real);
    // the length of the segment is not zero
    lemma_magnitude_is_exact(ab);
    let length = ab.magnitude_spec().value();
    assert(length != 0real) by (nonlinear_arith)
        requires
            length * length != 0real,
    ;
    // the nearer end
    let nearer = if param.less_equal_spec(half_spec::<T>()) {
        a
    } else {
        b
    };
    lemma_magnitude_is_exact(nearer.sub_spec(p));
    let to_end = nearer.sub_spec(p).magnitude_spec().value();
    // the distance to the line
    let normal = ab.get_orthonomal_spec(true, false);
    assert(normal.x.value() == (-(b.y.value() - a.y.value())) / length);
    assert(normal.y.value() == (b.x.value() - a.x.value()) / length);
    let to_line = normal.dot_spec(aq).value();
    // the sign of the side
    lemma_sign_is_a_unit(aq.cross_spec(ab));
    assert(aq.cross_spec(ab).value() == side(a, b, p));
    let sign = non_zero_sign_spec(aq.cross_spec(ab));
    let signed = sign.mul_spec(nearer.sub_spec(p).magnitude_spec());
    assert(signed.value() == if side(a, b, p) > 0real {
        to_end
    } else {
        -to_end
    }) by (nonlinear_arith)
        requires
            signed.value() == sign.value() * to_end,
            sign.value() == if side(a, b, p) > 0real {
                1real
            } else {
                -1real
            },
    ;
    Anatomy { length, to_end, to_line }
}

/// In exact arithmetic the mirror image of a point across the line of a
/// segment is as far from the segment as the point, on the other side: its
/// signed distance is the negation. The segment must have two different
/// ends, and the point must not lie on the line, where it is its own mirror
/// image.
pub proof fn lemma_mirror_image_is_opposite<T: ExactNumber + FloatingPoint>(
    a: Vector2<T>,
    b: Vector2<T>,
    p: Vector2<T>,
    m: Vector2<T>,
)
    requires
        computes_exactly::<T>(),
        distance_squared(a, b) != 0real,
        is_mirror_image(a, b, p, m),
        side(a, b, p) != 0real,
    ensures
        linear_signed_distance(a, b, m).value() == -linear_signed_distance(a, b, p).value(),
{
    let of_p = lemma_anatomy(a, b, p);
    let of_m = lemma_anatomy(a, b, m);
    let (bx, by) = (b.x.value() - a.x.value(), b.y.value() - a.y.value());
    let (qx, qy) = (p.x.value() - a.x.value(), p.y.value() - a.y.value());
    let (mx, my) = (m.x.value() - a.x.value(), m.y.value() - a.y.value());
    // one length of the segment
    lemma_same_square(of_p.length, of_m.length);
    // the mirror image is as far from either end
    lemma_mirror_keeps_lengths(qx, qy, mx, my, bx, by);
    assert(distance_squared(p, a) == qx * qx + qy * qy) by (nonlinear_arith)
        requires
            distance_squared(p, a) == (-qx) * (-qx) + (-qy) * (-qy),
    ;
    assert(distance_squared(m, a) == mx * mx + my * my) by (nonlinear_arith)
        requires
            distance_squared(m, a) == (-mx) * (-mx) + (-my) * (-my),
    ;
    assert(distance_squared(p, b) == (bx - qx) * (bx - qx) + (by - qy) * (by - qy));
    assert(distance_squared(m, b) == (bx - mx) * (bx - mx) + (by - my) * (by - my));
    lemma_same_square(of_p.to_end, of_m.to_end);
    // and as far from the line, on the other side
    lemma_mirror_flips_normal(qx, qy, mx, my, bx, by, of_p.length);
}

impl<T: ExactNumber + FloatingPoint> LinearSegment<Vector2<T>> {
    /// In exact arithmetic no point of the segment is nearer to `p` than
    /// the signed distance tells.
    pub proof fn lemma_no_point_is_nearer(&self, p: Vector2<T>, t: real)
        requires
            computes_exactly::<T>(),
            distance_squared(self.points()[0], self.points()[1]) != 0real,
            0real <= t <= 1real,
        ensures
            self.signed_distance_spec(p).value() * self.signed_distance_spec(p).value()
                <= distance_squared_at(self.points()[0], self.points()[1], p, t),
    {
        lemma_no_point_is_nearer(self.points()[0], self.points()[1], p, t);
    }

    /// In exact arithmetic the signed distance of the mirror image of a
    /// point across the line of the segment is the negation of that of the
    /// point: the same magnitude, and the opposite sign.
    pub proof fn lemma_mirror_image_is_opposite(&self, p: Vector2<T>, m: Vector2<T>)
        requires
            computes_exactly::<T>(),
            distance_squared(self.points()[0], self.points()[1]) != 0real,
            is_mirror_image(self.points()[0], self.points()[1], p, m),
            side(self.points()[0], self.points()[1], p) != 0real,
        ensures
            self.signed_distance_spec(m).value() == -self.signed_distance_spec(p).value(),
    {
        lemma_mirror_image_is_opposite(self.points()[0], self.points()[1], p, m);
    }
}

/// The square of the distance from `p` to the point of the segment from
/// `a` to `b` at the parameter `t`, in real numbers.
pub open spec fn distance_squared_at<T: ExactNumber + FloatingPoint>(
    a: Vector2<T>,
    b: Vector2<T>,
    p: Vector2<T>,
    t: real,
) -> real {
    offset_squared(
        p.x.value() - a.x.value(),
        p.y.value() - a.y.value(),
        b.x.value() - a.x.value(),
        b.y.value() - a.y.value(),
        t,
    )
}

/// What the parts of the signed distance have to do with the line, in
/// exact arithmetic: the parameter times the square of the length of the
/// segment is the reach; the square of the distance to the line, times the
/// square of that length, is the square of the side; and the distance to
/// the nearer end is that to the start where the parameter is at most a
/// half, else that to the end.
pub proof fn lemma_anatomy_on_the_line<T: ExactNumber + FloatingPoint>(
    a: Vector2<T>,
    b: Vector2<T>,
    p: Vector2<T>,
    n: Anatomy,
)
    requires
        computes_exactly::<T>(),
        distance_squared(a, b) != 0real,
        n.length > 0real,
        n.length * n.length == distance_squared(a, b),
        n.to_end * n.to_end == if reach(a, b, p) / distance_squared(a, b) <= 1real / 2real {
            distance_squared(p, a)
        } else {
            distance_squared(p, b)
        },
        n.to_line == lift(a, b, p, n.length),
    ensures
        distance_squared(a, b) > 0real,
        (reach(a, b, p) / distance_squared(a, b)) * distance_squared(a, b) == reach(a, b, p),
        distance_squared(a, b) * (n.to_line * n.to_line) == side(a, b, p) * side(a, b, p),
        n.to_end * n.to_end == if reach(a, b, p) / distance_squared(a, b) <= 1real / 2real {
            distance_squared_at(a, b, p, 0real)
        } else {
            distance_squared_at(a, b, p, 1real)
        },
{
    let (bx, by) = (b.x.value() - a.x.value(), b.y.value() - a.y.value());
    let (qx, qy) = (p.x.value() - a.x.value(), p.y.value() - a.y.value());
    let size = distance_squared(a, b);
    let r = reach(a, b, p) / size;
    assert(r * size == reach(a, b, p)) by (nonlinear_arith)
        requires
            r == reach(a, b, p) / size,
            size != 0real,
    ;
    assert(size > 0real) by (nonlinear_arith)
        requires
            size == n.length * n.length,
            n.length > 0real,
    ;
    // the distance to the line
    let (l, o, c) = (n.length, n.to_line, side(a, b, p));
    lemma_unit_normal(bx, by, l);
    lemma_along_normal(qx, qy, bx, by, l, (-by) / l, bx / l);
    assert(o * l == -c);
    assert((o * l) * (o * l) == (l * l) * (o * o)) by (nonlinear_arith);
    assert((-c) * (-c) == c * c) by (nonlinear_arith);
    // the distances to the ends
    assert(distance_squared(p, a) == distance_squared_at(a, b, p, 0real)) by (nonlinear_arith)
        requires
            distance_squared(p, a) == (-qx) * (-qx) + (-qy) * (-qy),
            distance_squared_at(a, b, p, 0real) == (qx - 0real * bx) * (qx - 0real * bx) + (qy
                - 0real * by) * (qy - 0real * by),
    ;
    assert(distance_squared(p, b) == distance_squared_at(a, b, p, 1real)) by (nonlinear_arith)
        requires
            distance_squared(p, b) == (bx - qx) * (bx - qx) + (by - qy) * (by - qy),
            distance_squared_at(a, b, p, 1real) == (qx - 1real * bx) * (qx - 1real * bx) + (qy
                - 1real * by) * (qy - 1real * by),
    ;
}

/// In exact arithmetic the magnitude of the signed distance is the
/// distance from the point to the nearest point of the segment. Here: no
/// point of the segment is nearer.
pub proof fn lemma_no_point_is_nearer<T: ExactNumber + FloatingPoint>(
    a: Vector2<T>,
    b: Vector2<T>,
    p: Vector2<T>,
    t: real,
)
    requires
        computes_exactly::<T>(),
        distance_squared(a, b) != 0real,
        0real <= t <= 1real,
    ensures
        linear_signed_distance(a, b, p).value() * linear_signed_distance(a, b, p).value()
            <= distance_squared_at(a, b, p, t),
{
    let n = lemma_anatomy(a, b, p);
    lemma_anatomy_on_the_line(a, b, p, n);
    let (bx, by) = (b.x.value() - a.x.value(), b.y.value() - a.y.value());
    let (qx, qy) = (p.x.value() - a.x.value(), p.y.value() - a.y.value());
    let size = distance_squared(a, b);
    let r = reach(a, b, p) / size;
    let (o, e) = (n.to_line, n.to_end);
    let d = linear_signed_distance(a, b, p).value();
    let off = magnitude(o);
    assert(r <= 0real <==> reach(a, b, p) <= 0real) by (nonlinear_arith)
        requires
            r * size == reach(a, b, p),
            size > 0real,
    ;
    assert(r >= 1real <==> reach(a, b, p) >= size) by (nonlinear_arith)
        requires
            r * size == reach(a, b, p),
            size > 0real,
    ;
    if 0real < r < 1real && off < e {
        lemma_least_at_the_foot(qx, qy, bx, by, t, o);
    } else {
        assert(d * d == e * e) by (nonlinear_arith)
            requires
                d == e || d == -e,
        ;
        if r <= 0real {
            lemma_least_at_the_start(qx, qy, bx, by, t);
        } else if r >= 1real {
            lemma_least_at_the_end(qx, qy, bx, by, t);
        } else {
            // the foot lies between the ends, and yet an end is no farther
            // off than the line: this cannot be
            lemma_ends_are_farther_than_the_foot(qx, qy, bx, by, o);
            assert(off * off == o * o) by (nonlinear_arith)
                requires
                    off == o || off == -o,
            ;
            assert(off < e) by (nonlinear_arith)
                requires
                    off * off < e * e,
                    off >= 0real,
                    e >= 0real,
            ;
        }
    }
}

/// In exact arithmetic the magnitude of the signed distance is the
/// distance from the point to the nearest point of the segment. Here: the
/// point of the segment that is as near, by its parameter.
pub proof fn lemma_nearest_point<T: ExactNumber + FloatingPoint>(a: Vector2<T>, b: Vector2<T>, p: Vector2<T>) -> (t:
    real)
    requires
        computes_exactly::<T>(),
        distance_squared(a, b) != 0real,
    ensures
        0real <= t <= 1real,
        linear_signed_distance(a, b, p).value() * linear_signed_distance(a, b, p).value()
            == distance_squared_at(a, b, p, t),
{
    let n = lemma_anatomy(a, b, p);
    lemma_anatomy_on_the_line(a, b, p, n);
    let (bx, by) = (b.x.value() - a.x.value(), b.y.value() - a.y.value());
    let (qx, qy) = (p.x.value() - a.x.value(), p.y.value() - a.y.value());
    let r = reach(a, b, p) / distance_squared(a, b);
    let (o, e) = (n.to_line, n.to_end);
    let d = linear_signed_distance(a, b, p).value();
    let off = magnitude(o);
    if 0real < r < 1real && off < e {
        lemma_foot_is_attained(qx, qy, bx, by, r, o);
        r
    } else {
        assert(d * d == e * e) by (nonlinear_arith)
            requires
                d == e || d == -e,
        ;
        if r <= 1real / 2real {
            0real
        } else {
            1real
        }
    }
}

} // verus!
