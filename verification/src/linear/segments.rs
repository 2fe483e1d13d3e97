use vstd::prelude::*;
use crate::equations::cubic::cubic_solution;
use crate::equations::cubic::cubic_solve;
use crate::equations::cubic::CubicSolution;
use crate::linear::non_zero_sign;
use crate::linear::non_zero_sign_spec;
use crate::linear::smoothing::lerp;
use crate::linear::smoothing::lemma_lerp_ends;
use crate::linear::smoothing::lerp_req;
use crate::linear::smoothing::lerp_spec;
use crate::linear::traits::half;
use crate::linear::traits::half_spec;
use crate::linear::exact::ExactNumber;
use crate::linear::traits::FloatingPoint;
use crate::linear::traits::Number;
use crate::linear::traits::SignedNumber;
use crate::linear::vector::Vector;
use crate::linear::vector::Vector2;

verus! {

/// A curve given by control points, in any dimension.
pub trait Segment {
    type VectorType: Vector;

    /// The control points, from the start of the curve to its end.
    spec fn points(&self) -> Seq<Self::VectorType>;

    /// Whether the point at `t` may be computed. Over a floating-point
    /// scalar it always may.
    spec fn interpolate_req(&self, t: <Self::VectorType as Vector>::Scalar) -> bool;

    /// The point of the curve at the parameter `t`, by de Casteljau's
    /// construction.
    spec fn interpolate_spec(&self, t: <Self::VectorType as Vector>::Scalar) -> Self::VectorType;

    proof fn interpolate_is_total(&self, t: <Self::VectorType as Vector>::Scalar) where
        <Self::VectorType as Vector>::Scalar: FloatingPoint,

        ensures
            self.interpolate_req(t),
    ;

    /// Every segment has a start and an end: at least two control points.
    proof fn has_ends(&self)
        ensures
            self.points().len() >= 2,
    ;

    /// The point of the curve at `t`. A `t` outside of `0..1` is no error:
    /// it extrapolates.
    fn interpolate(&self, t: <Self::VectorType as Vector>::Scalar) -> (r: Self::VectorType)
        requires
            self.interpolate_req(t),
        ensures
            r == self.interpolate_spec(t),
    ;

    fn start(&self) -> (r: &Self::VectorType)
        ensures
            *r == self.points().first(),
    ;

    fn end(&self) -> (r: &Self::VectorType)
        ensures
            *r == self.points().last(),
    ;

    fn get_point(&self, idx: usize) -> (r: &Self::VectorType)
        requires
            idx < self.points().len(),
        ensures
            *r == self.points()[idx as int],
    ;

    /// Replaces the first control point and leaves the others as they are.
    fn set_start(&mut self, value: &Self::VectorType)
        ensures
            final(self).points() == old(self).points().update(0, *value),
    ;

    /// Replaces the last control point and leaves the others as they are.
    fn set_end(&mut self, value: &Self::VectorType)
        ensures
            final(self).points() == old(self).points().update(
                old(self).points().len() - 1,
                *value,
            ),
    ;

    /// The number of control points.
    fn len(&self) -> (r: usize)
        ensures
            r == self.points().len(),
    ;
}

/// A curve in the plane: it has a tangent, and a side on which a point
/// lies.
pub trait FlatSegment: Segment {
    spec fn direction_spec(
        &self,
        t: <<Self as Segment>::VectorType as Vector>::Scalar,
    ) -> <Self as Segment>::VectorType where
        <<Self as Segment>::VectorType as Vector>::Scalar: FloatingPoint,
    ;

    spec fn signed_distance_spec(
        &self,
        p: <Self as Segment>::VectorType,
    ) -> <<Self as Segment>::VectorType as Vector>::Scalar where
        <<Self as Segment>::VectorType as Vector>::Scalar: FloatingPoint,
    ;

    /// The tangent of the curve at `t`, not normalized.
    fn direction(&self, t: <<Self as Segment>::VectorType as Vector>::Scalar) -> (r: <
        Self as Segment
    >::VectorType) where <<Self as Segment>::VectorType as Vector>::Scalar: FloatingPoint
        ensures
            r == self.direction_spec(t),
    ;

    /// The distance from `p` to the nearest point of the curve, with the
    /// sign of the side of the curve on which `p` lies. It is never reported
    /// with a sign of zero.
    fn signed_distance(&self, p: <Self as Segment>::VectorType) -> (r: <<
        Self as Segment
    >::VectorType as Vector>::Scalar) where
        <<Self as Segment>::VectorType as Vector>::Scalar: FloatingPoint,

        ensures
            r == self.signed_distance_spec(p),
    ;
}

/// A straight line from the first point to the second.
pub struct LinearSegment<T: Vector> {
    points: [T; 2],
}

/// A quadratic Bézier curve: it leaves the first point towards the second
/// and arrives at the third.
pub struct QuadraticSegment<T: Vector> {
    points: [T; 3],
}

/// A cubic Bézier curve of four control points.
pub struct CubicSegment<T: Vector> {
    points: [T; 4],
}

impl<T: Vector> LinearSegment<T> {
    pub fn new(v0: T, v1: T) -> (s: Self)
        ensures
            s.points() == seq![v0, v1],
    {
        Self { points: [v0, v1] }
    }
}

impl<T: Vector> QuadraticSegment<T> {
    pub fn new(v0: T, v1: T, v2: T) -> (s: Self)
        ensures
            s.points() == seq![v0, v1, v2],
    {
        Self { points: [v0, v1, v2] }
    }
}

impl<T: Vector> CubicSegment<T> {
    pub fn new(v0: T, v1: T, v2: T, v3: T) -> (s: Self)
        ensures
            s.points() == seq![v0, v1, v2, v3],
    {
        Self { points: [v0, v1, v2, v3] }
    }
}

impl<T: Vector> Segment for LinearSegment<T> {
    type VectorType = T;

    closed spec fn points(&self) -> Seq<T> {
        self.points@
    }

    open spec fn interpolate_req(&self, t: T::Scalar) -> bool {
        lerp_req(self.points()[0], self.points()[1], t)
    }

    /// With the control points `a` and `b`, `lerp(a, b, t)`.
    open spec fn interpolate_spec(&self, t: T::Scalar) -> T {
        lerp_spec(self.points()[0], self.points()[1], t)
    }

    proof fn interpolate_is_total(&self, t: T::Scalar) where T::Scalar: FloatingPoint {
        T::arithmetic_is_total();
    }

    proof fn has_ends(&self) {
    }

    fn interpolate(&self, t: T::Scalar) -> (r: T) {
        lerp(self.points[0], self.points[1], t)
    }

    fn start(&self) -> (r: &T) {
        &self.points[0]
    }

    fn end(&self) -> (r: &T) {
        &self.points[1]
    }

    fn get_point(&self, idx: usize) -> (r: &T) {
        &self.points[idx]
    }

    fn set_start(&mut self, value: &T) {
        self.points[0] = *value;
    }

    fn set_end(&mut self, value: &T) {
        self.points[1] = *value;
    }

    fn len(&self) -> (r: usize) {
        2
    }
}

impl<T: Vector> Segment for QuadraticSegment<T> {
    type VectorType = T;

    closed spec fn points(&self) -> Seq<T> {
        self.points@
    }

    open spec fn interpolate_req(&self, t: T::Scalar) -> bool {
        let p = self.points();
        &&& lerp_req(p[0], p[1], t)
        &&& lerp_req(p[1], p[2], t)
        &&& lerp_req(lerp_spec(p[0], p[1], t), lerp_spec(p[1], p[2], t), t)
    }

    /// With the control points `a`, `b` and `c`,
    /// `lerp(lerp(a, b, t), lerp(b, c, t), t)`.
    open spec fn interpolate_spec(&self, t: T::Scalar) -> T {
        let p = self.points();
        lerp_spec(lerp_spec(p[0], p[1], t), lerp_spec(p[1], p[2], t), t)
    }

    proof fn interpolate_is_total(&self, t: T::Scalar) where T::Scalar: FloatingPoint {
        T::arithmetic_is_total();
    }

    proof fn has_ends(&self) {
    }

    fn interpolate(&self, t: T::Scalar) -> (r: T) {
        lerp(
            lerp(self.points[0], self.points[1], t),
            lerp(self.points[1], self.points[2], t),
            t,
        )
    }

    fn start(&self) -> (r: &T) {
        &self.points[0]
    }

    fn end(&self) -> (r: &T) {
        &self.points[2]
    }

    fn get_point(&self, idx: usize) -> (r: &T) {
        &self.points[idx]
    }

    fn set_start(&mut self, value: &T) {
        self.points[0] = *value;
    }

    fn set_end(&mut self, value: &T) {
        self.points[2] = *value;
    }

    fn len(&self) -> (r: usize) {
        3
    }
}

impl<T: Vector> Segment for CubicSegment<T> {
    type VectorType = T;

    closed spec fn points(&self) -> Seq<T> {
        self.points@
    }

    open spec fn interpolate_req(&self, t: T::Scalar) -> bool {
        let p = self.points();
        let m = lerp_spec(p[1], p[2], t);
        let near = lerp_spec(lerp_spec(p[0], p[1], t), m, t);
        let far = lerp_spec(m, lerp_spec(p[2], p[3], t), t);
        &&& lerp_req(p[1], p[2], t)
        &&& lerp_req(p[0], p[1], t)
        &&& lerp_req(lerp_spec(p[0], p[1], t), m, t)
        &&& lerp_req(p[2], p[3], t)
        &&& lerp_req(m, lerp_spec(p[2], p[3], t), t)
        &&& lerp_req(near, far, t)
    }

    proof fn interpolate_is_total(&self, t: T::Scalar) where T::Scalar: FloatingPoint {
        T::arithmetic_is_total();
    }

    /// De Casteljau's construction on the four control points `a`, `b`,
    /// `c` and `d`: with `m = lerp(b, c, t)`, the point
    /// `lerp(lerp(lerp(a, b, t), m, t), lerp(m, lerp(c, d, t), t), t)`.
    open spec fn interpolate_spec(&self, t: T::Scalar) -> T {
        let p = self.points();
        let m = lerp_spec(p[1], p[2], t);
        lerp_spec(
            lerp_spec(lerp_spec(p[0], p[1], t), m, t),
            lerp_spec(m, lerp_spec(p[2], p[3], t), t),
            t,
        )
    }

    proof fn has_ends(&self) {
    }

    fn interpolate(&self, t: T::Scalar) -> (r: T) {
        let p12 = lerp(self.points[1], self.points[2], t);
        lerp(
            lerp(lerp(self.points[0], self.points[1], t), p12, t),
            lerp(p12, lerp(self.points[2], self.points[3], t), t),
            t,
        )
    }

    fn start(&self) -> (r: &T) {
        &self.points[0]
    }

    fn end(&self) -> (r: &T) {
        &self.points[3]
    }

    fn get_point(&self, idx: usize) -> (r: &T) {
        &self.points[idx]
    }

    fn set_start(&mut self, value: &T) {
        self.points[0] = *value;
    }

    fn set_end(&mut self, value: &T) {
        self.points[3] = *value;
    }

    fn len(&self) -> (r: usize) {
        4
    }
}

impl<T: Vector> LinearSegment<T> {
    /// A linear segment has two control points.
    pub proof fn point_count(&self)
        ensures
            self.points().len() == 2,
    {
    }

    /// In exact arithmetic the segment is at its start for `t = 0` and at
    /// its end for `t = 1`, wherever the difference of its two points can be
    /// formed. A scalar that rounds can miss the end: over the doubles, the
    /// step from `10¹⁶` to `1` is rounded, and comes out beside `1`.
    pub proof fn lemma_interpolate_ends(&self) where T::Scalar: ExactNumber
        requires
            self.points()[1].sub_req(self.points()[0]),
        ensures
            self.interpolate_req(T::Scalar::zero_spec()),
            self.interpolate_spec(T::Scalar::zero_spec()) == self.points().first(),
            self.interpolate_req(T::Scalar::one_spec()),
            self.interpolate_spec(T::Scalar::one_spec()) == self.points().last(),
    {
        lemma_lerp_ends(self.points()[0], self.points()[1]);
    }
}

impl<T: Vector> QuadraticSegment<T> {
    /// A quadratic segment has three control points.
    pub proof fn point_count(&self)
        ensures
            self.points().len() == 3,
    {
    }

    /// In exact arithmetic the curve is at its start for `t = 0` and at its
    /// end for `t = 1`, wherever the differences of its neighbouring points
    /// can be formed.
    pub proof fn lemma_interpolate_ends(&self) where T::Scalar: ExactNumber
        requires
            self.points()[1].sub_req(self.points()[0]),
            self.points()[2].sub_req(self.points()[1]),
        ensures
            self.interpolate_req(T::Scalar::zero_spec()),
            self.interpolate_spec(T::Scalar::zero_spec()) == self.points().first(),
            self.interpolate_req(T::Scalar::one_spec()),
            self.interpolate_spec(T::Scalar::one_spec()) == self.points().last(),
    {
        lemma_lerp_ends(self.points()[0], self.points()[1]);
        lemma_lerp_ends(self.points()[1], self.points()[2]);
    }
}

impl<T: Vector> CubicSegment<T> {
    /// A cubic segment has four control points.
    pub proof fn point_count(&self)
        ensures
            self.points().len() == 4,
    {
    }

    /// In exact arithmetic the curve is at its start for `t = 0` and at its
    /// end for `t = 1`, wherever the differences of its neighbouring points
    /// can be formed.
    pub proof fn lemma_interpolate_ends(&self) where T::Scalar: ExactNumber
        requires
            self.points()[1].sub_req(self.points()[0]),
            self.points()[2].sub_req(self.points()[1]),
            self.points()[3].sub_req(self.points()[2]),
        ensures
            self.interpolate_req(T::Scalar::zero_spec()),
            self.interpolate_spec(T::Scalar::zero_spec()) == self.points().first(),
            self.interpolate_req(T::Scalar::one_spec()),
            self.interpolate_spec(T::Scalar::one_spec()) == self.points().last(),
    {
        lemma_lerp_ends(self.points()[0], self.points()[1]);
        lemma_lerp_ends(self.points()[1], self.points()[2]);
        lemma_lerp_ends(self.points()[2], self.points()[3]);
    }
}

/// The parameter of the foot of the perpendicular from `p` on the line
/// through `a` and `b`: 0 at `a`, 1 at `b`.
pub open spec fn projection_parameter<T: FloatingPoint>(
    a: Vector2<T>,
    b: Vector2<T>,
    p: Vector2<T>,
) -> T {
    let ab = b.sub_spec(a);
    p.sub_spec(a).dot_spec(ab).div_spec(ab.dot_spec(ab))
}

/// The signed distance from `p` to the segment from `a` to `b`.
///
/// With `param` the `projection_parameter` of `p`, the nearer end is `a`
/// if `param ≤ 1/2`, else `b`. Where `p` projects between the ends,
/// `0 < param < 1`, and the perpendicular distance is smaller in magnitude
/// than the distance to that end, the perpendicular distance is the result,
/// with the sign it has: it is the dot product of `p - a` with the unit
/// normal of the line that points to the left of the way from `a` to `b`,
/// and so positive on the left. Else the result is the distance to the
/// nearer end, as `non_zero_sign` of the cross product of `p - a` and
/// `b - a` signs it: positive on the right of the line, negative on the
/// left and on the line itself.
pub open spec fn linear_signed_distance<T: FloatingPoint>(
    a: Vector2<T>,
    b: Vector2<T>,
    p: Vector2<T>,
) -> T {
    let aq = p.sub_spec(a);
    let ab = b.sub_spec(a);
    let param = projection_parameter(a, b, p);
    let nearer = if param.less_equal_spec(half_spec::<T>()) {
        a
    } else {
        b
    };
    let endpoint_distance = nearer.sub_spec(p).magnitude_spec();
    let ortho_distance = ab.get_orthonomal_spec(true, false).dot_spec(aq);
    if T::zero_spec().less_spec(param) && param.less_spec(T::one_spec())
        && ortho_distance.abs_spec().less_spec(endpoint_distance) {
        ortho_distance
    } else {
        non_zero_sign_spec(aq.cross_spec(ab)).mul_spec(endpoint_distance)
    }
}

impl<T: Number> FlatSegment for LinearSegment<Vector2<T>> {
    /// The same at every `t`: from the start to the end.
    open spec fn direction_spec(&self, t: T) -> Vector2<T> where T: FloatingPoint {
        self.points()[1].sub_spec(self.points()[0])
    }

    open spec fn signed_distance_spec(&self, p: Vector2<T>) -> T where T: FloatingPoint {
        linear_signed_distance(self.points()[0], self.points()[1], p)
    }

    fn direction(&self, t: T) -> (r: Vector2<T>) where T: FloatingPoint {
        proof {
            T::arithmetic_is_total();
        }
        self.points[1].sub(self.points[0])
    }

    fn signed_distance(&self, p: Vector2<T>) -> (r: T) where T: FloatingPoint {
        proof {
            T::arithmetic_is_total();
        }
        let aq = p.sub(self.points[0]);
        let ab = self.points[1].sub(self.points[0]);
        let param = aq.dot(&ab).div(ab.dot(&ab));
        let nearer = if param.less_equal(half()) {
            self.points[0]
        } else {
            self.points[1]
        };
        let endpoint_distance = nearer.sub(p).length();
        if T::zero().less(param) && param.less(T::one()) {
            let ortho_distance = ab.get_orthonomal(true, false).dot(&aq);
            if ortho_distance.abs().less(endpoint_distance) {
                return ortho_distance;
            }
        }
        non_zero_sign(aq.cross(ab)).mul(endpoint_distance)
    }
}

/// The tangent at `t` of the quadratic curve of the control points `start`,
/// `control`, `end`: `lerp(control - start, end - control, t)`, and where
/// both of its components are zero the chord `end - start` in its place.
pub open spec fn quadratic_direction<T: FloatingPoint>(
    start: Vector2<T>,
    control: Vector2<T>,
    end: Vector2<T>,
    t: T,
) -> Vector2<T> {
    let tangent = lerp_spec(control.sub_spec(start), end.sub_spec(control), t);
    if tangent.x.equal_spec(T::zero_spec()) && tangent.y.equal_spec(T::zero_spec()) {
        end.sub_spec(start)
    } else {
        tangent
    }
}

/// The three vectors from which the distance to a quadratic curve is
/// computed.
pub struct QuadraticFrame<T> {
    /// From the point asked about to the start of the curve.
    pub qa: Vector2<T>,
    /// From the first control point to the second.
    pub ab: Vector2<T>,
    /// The second difference of the control points.
    pub br: Vector2<T>,
}

impl<T: FloatingPoint> QuadraticFrame<T> {
    /// The frame of the curve `start`, `control`, `end` seen from `p`:
    /// `qa = start - p`, `ab = control - start`, `br = end - control - ab`.
    pub open spec fn of(
        start: Vector2<T>,
        control: Vector2<T>,
        end: Vector2<T>,
        p: Vector2<T>,
    ) -> Self {
        let ab = control.sub_spec(start);
        QuadraticFrame { qa: start.sub_spec(p), ab, br: end.sub_spec(control).sub_spec(ab) }
    }

    /// The coefficients of the cubic equation in `t` that the parameters
    /// solve at which the distance from the curve to the point is
    /// stationary: `br·br`, `3·ab·br`, `2·ab·ab + qa·br` and `qa·ab`, from
    /// the leading one on.
    pub open spec fn coefficients(self) -> (T, T, T, T) {
        (
            self.br.dot_spec(self.br),
            T::from_i64_spec(3).mul_spec(self.ab.dot_spec(self.br)),
            T::from_i64_spec(2).mul_spec(self.ab.dot_spec(self.ab)).add_spec(
                self.qa.dot_spec(self.br),
            ),
            self.qa.dot_spec(self.ab),
        )
    }

    /// The solution of the cubic equation of the `coefficients`: its real
    /// roots are the stationary parameters.
    pub open spec fn stationary_parameters(self) -> CubicSolution<T> {
        let (a, b, c, d) = self.coefficients();
        cubic_solution(a, b, c, d)
    }

    /// The vector from the point asked about to the point of the curve at
    /// `t`: `qa + 2·ab·t + br·t²`.
    pub open spec fn offset_at(self, t: T) -> Vector2<T> {
        self.qa.add_spec(self.ab.mul_scalar_spec(T::from_i64_spec(2)).mul_scalar_spec(t)).add_spec(
            self.br.mul_scalar_spec(t).mul_scalar_spec(t),
        )
    }

    /// The signed distance so far, `best`, or that to the curve's point at
    /// the stationary parameter `t`, if `t` lies strictly inside `0..1` and
    /// that point is no farther off than `best` in magnitude. Its sign is
    /// `non_zero_sign` of the cross product of the tangent `ab + br·t` and
    /// the offset.
    pub open spec fn nearer_at(self, best: T, t: T) -> T {
        let offset = self.offset_at(t);
        let distance = offset.magnitude_spec();
        if T::zero_spec().less_spec(t) && t.less_spec(T::one_spec()) && distance.less_equal_spec(
            best.abs_spec(),
        ) {
            non_zero_sign_spec(
                self.ab.add_spec(self.br.mul_scalar_spec(t)).cross_spec(offset),
            ).mul_spec(distance)
        } else {
            best
        }
    }

    /// `best` improved by each of `roots` in turn.
    pub open spec fn nearer_among(self, best: T, roots: Seq<T>) -> T
        decreases roots.len(),
    {
        if roots.len() == 0 {
            best
        } else {
            self.nearer_among(self.nearer_at(best, roots[0]), roots.drop_first())
        }
    }

    fn improve(&self, best: T, t: T) -> (r: T)
        ensures
            r == self.nearer_at(best, t),
    {
        proof {
            T::arithmetic_is_total();
        }
        if T::zero().less(t) && t.less(T::one()) {
            let offset = self.qa.add(self.ab.mul_scalar(T::from_i64(2)).mul_scalar(t)).add(
                self.br.mul_scalar(t).mul_scalar(t),
            );
            let distance = offset.length();
            if distance.less_equal(best.abs()) {
                return non_zero_sign(self.ab.add(self.br.mul_scalar(t)).cross(offset)).mul(
                    distance,
                );
            }
        }
        best
    }
}

/// The signed distance from `p` to the nearer end of the quadratic curve
/// `start`, `control`, `end`: that to the start, signed by the cross product
/// of the tangent there and `start - p`, unless the end is strictly nearer,
/// and then that to the end, signed by the cross product of the tangent
/// there and `end - p`.
pub open spec fn quadratic_endpoint_distance<T: FloatingPoint>(
    start: Vector2<T>,
    control: Vector2<T>,
    end: Vector2<T>,
    p: Vector2<T>,
) -> T {
    let qa = start.sub_spec(p);
    let from_start = non_zero_sign_spec(
        quadratic_direction(start, control, end, T::zero_spec()).cross_spec(qa),
    ).mul_spec(qa.magnitude_spec());
    let to_end = end.sub_spec(p);
    if to_end.magnitude_spec().less_spec(from_start.abs_spec()) {
        non_zero_sign_spec(
            quadratic_direction(start, control, end, T::one_spec()).cross_spec(to_end),
        ).mul_spec(to_end.magnitude_spec())
    } else {
        from_start
    }
}

/// The signed distance from `p` to the quadratic curve `start`, `control`,
/// `end`: the `quadratic_endpoint_distance`, improved by each real root of
/// the `stationary_parameters` in turn.
pub open spec fn quadratic_signed_distance<T: FloatingPoint>(
    start: Vector2<T>,
    control: Vector2<T>,
    end: Vector2<T>,
    p: Vector2<T>,
) -> T {
    let frame = QuadraticFrame::of(start, control, end, p);
    frame.nearer_among(
        quadratic_endpoint_distance(start, control, end, p),
        frame.stationary_parameters().real_roots(),
    )
}

impl<T: Number> FlatSegment for QuadraticSegment<Vector2<T>> {
    open spec fn direction_spec(&self, t: T) -> Vector2<T> where T: FloatingPoint {
        quadratic_direction(self.points()[0], self.points()[1], self.points()[2], t)
    }

    open spec fn signed_distance_spec(&self, p: Vector2<T>) -> T where T: FloatingPoint {
        quadratic_signed_distance(self.points()[0], self.points()[1], self.points()[2], p)
    }

    fn direction(&self, t: T) -> (r: Vector2<T>) where T: FloatingPoint {
        proof {
            T::arithmetic_is_total();
            Vector2::<T>::arithmetic_is_total();
        }
        let tangent = lerp(
            self.points[1].sub(self.points[0]),
            self.points[2].sub(self.points[1]),
            t,
        );
        if tangent.x.equal(T::zero()) && tangent.y.equal(T::zero()) {
            return self.points[2].sub(self.points[0]);
        }
        tangent
    }

    fn signed_distance(&self, p: Vector2<T>) -> (r: T) where T: FloatingPoint {
        proof {
            T::arithmetic_is_total();
        }
        let qa = self.points[0].sub(p);
        let ab = self.points[1].sub(self.points[0]);
        let br = self.points[2].sub(self.points[1]).sub(ab);
        let frame = QuadraticFrame { qa, ab, br };
        let a = br.dot(&br);
        let b = T::from_i64(3).mul(ab.dot(&br));
        let c = T::from_i64(2).mul(ab.dot(&ab)).add(qa.dot(&br));
        let d = qa.dot(&ab);
        let solution = cubic_solve(a, b, c, d);
        let mut min_distance = non_zero_sign(self.direction(T::zero()).cross(qa)).mul(qa.length());
        let to_end = self.points[2].sub(p);
        let distance = to_end.length();
        if distance.less(min_distance.abs()) {
            min_distance = non_zero_sign(self.direction(T::one()).cross(to_end)).mul(distance);
        }
        let ghost from_ends = min_distance;
        proof {
            reveal_with_fuel(QuadraticFrame::nearer_among, 4);
        }
        match solution {
            CubicSolution::NoSolution | CubicSolution::AllReals => {},
            CubicSolution::OneReal(t) => {
                assert(solution.real_roots().drop_first() =~= seq![]);
                min_distance = frame.improve(min_distance, t);
            },
            CubicSolution::OneRealTwoComplex(t, _) => {
                assert(solution.real_roots().drop_first() =~= seq![]);
                min_distance = frame.improve(min_distance, t);
            },
            CubicSolution::TwoReal(t) => {
                assert(solution.real_roots().drop_first() =~= seq![t[1]]);
                assert(seq![t[1]].drop_first() =~= seq![]);
                min_distance = frame.improve(min_distance, t[0]);
                min_distance = frame.improve(min_distance, t[1]);
            },
            CubicSolution::ThreeReal(t) => {
                assert(solution.real_roots().drop_first() =~= seq![t[1], t[2]]);
                assert(seq![t[1], t[2]].drop_first() =~= seq![t[2]]);
                assert(seq![t[2]].drop_first() =~= seq![]);
                min_distance = frame.improve(min_distance, t[0]);
                min_distance = frame.improve(min_distance, t[1]);
                min_distance = frame.improve(min_distance, t[2]);
            },
        }
        assert(min_distance == frame.nearer_among(from_ends, solution.real_roots()));
        min_distance
    }
}

} // verus!
