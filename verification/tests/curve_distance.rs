use drowsed_math::equations::cubic_solve;
use drowsed_math::equations::quadratic_solve;
use drowsed_math::equations::CubicSolution;
use drowsed_math::equations::QuadraticSolution;
use drowsed_math::non_zero_sign;
use drowsed_math::FlatSegment;
use drowsed_math::FloatingPoint;
use drowsed_math::LinearSegment;
use drowsed_math::Number;
use drowsed_math::QuadraticSegment;
use drowsed_math::Segment;
use drowsed_math::SignedNumber;
use drowsed_math::Vector2;
use num_traits::Float;

/// A double as a scalar of the library.
#[derive(Clone, Copy, Debug, PartialEq, PartialOrd)]
struct Real(f64);

impl Number for Real {
    fn zero_spec() -> Self {
        Self::zero()
    }
    fn one_spec() -> Self {
        Self::one()
    }
    fn add_req(self, _rhs: Self) -> bool {
        true
    }
    fn add_spec(self, rhs: Self) -> Self {
        self.add(rhs)
    }
    fn sub_req(self, _rhs: Self) -> bool {
        true
    }
    fn sub_spec(self, rhs: Self) -> Self {
        self.sub(rhs)
    }
    fn mul_req(self, _rhs: Self) -> bool {
        true
    }
    fn mul_spec(self, rhs: Self) -> Self {
        self.mul(rhs)
    }
    fn div_req(self, _rhs: Self) -> bool {
        true
    }
    fn div_spec(self, rhs: Self) -> Self {
        self.div(rhs)
    }
    fn rem_req(self, _rhs: Self) -> bool {
        true
    }
    fn rem_spec(self, rhs: Self) -> Self {
        self.rem(rhs)
    }
    fn equal_spec(self, rhs: Self) -> bool {
        self.equal(rhs)
    }
    fn less_spec(self, rhs: Self) -> bool {
        self.less(rhs)
    }
    fn less_equal_spec(self, rhs: Self) -> bool {
        self.less_equal(rhs)
    }
    fn zero_is_below_one() {}
    fn zero() -> Self {
        Real(num_traits::Zero::zero())
    }
    fn one() -> Self {
        Real(num_traits::One::one())
    }
    fn add(self, rhs: Self) -> Self {
        Real(self.0 + rhs.0)
    }
    fn sub(self, rhs: Self) -> Self {
        Real(self.0 - rhs.0)
    }
    fn mul(self, rhs: Self) -> Self {
        Real(self.0 * rhs.0)
    }
    fn div(self, rhs: Self) -> Self {
        Real(self.0 / rhs.0)
    }
    fn rem(self, rhs: Self) -> Self {
        Real(self.0 % rhs.0)
    }
    fn equal(self, rhs: Self) -> bool {
        self.0 == rhs.0
    }
    fn less(self, rhs: Self) -> bool {
        self.0 < rhs.0
    }
    fn less_equal(self, rhs: Self) -> bool {
        self.0 <= rhs.0
    }
}

impl SignedNumber for Real {
    fn neg_req(self) -> bool {
        true
    }
    fn neg_spec(self) -> Self {
        self.neg()
    }
    fn abs_req(self) -> bool {
        true
    }
    fn abs_spec(self) -> Self {
        self.abs()
    }
    fn signum_spec(self) -> Self {
        self.signum()
    }
    fn minus_one_is_not_zero() {}
    fn neg(self) -> Self {
        Real(-self.0)
    }
    fn abs(self) -> Self {
        Real(Float::abs(self.0))
    }
    fn signum(self) -> Self {
        Real(Float::signum(self.0))
    }
}

impl FloatingPoint for Real {
    fn sqrt_spec(self) -> Self {
        self.sqrt()
    }
    fn cbrt_spec(self) -> Self {
        self.cbrt()
    }
    fn sin_spec(self) -> Self {
        self.sin()
    }
    fn cos_spec(self) -> Self {
        self.cos()
    }
    fn asin_spec(self) -> Self {
        self.asin()
    }
    fn acos_spec(self) -> Self {
        self.acos()
    }
    fn atan2_spec(self, other: Self) -> Self {
        self.atan2(other)
    }
    fn powf_spec(self, n: Self) -> Self {
        self.powf(n)
    }
    fn from_i64_spec(n: i64) -> Self {
        Self::from_i64(n)
    }
    fn pi_spec() -> Self {
        Self::pi()
    }
    fn arithmetic_is_total() {}
    fn sqrt(self) -> Self {
        Real(Float::sqrt(self.0))
    }
    fn cbrt(self) -> Self {
        Real(Float::cbrt(self.0))
    }
    fn sin(self) -> Self {
        Real(Float::sin(self.0))
    }
    fn cos(self) -> Self {
        Real(Float::cos(self.0))
    }
    fn asin(self) -> Self {
        Real(Float::asin(self.0))
    }
    fn acos(self) -> Self {
        Real(Float::acos(self.0))
    }
    fn atan2(self, other: Self) -> Self {
        Real(Float::atan2(self.0, other.0))
    }
    fn powf(self, n: Self) -> Self {
        Real(Float::powf(self.0, n.0))
    }
    fn from_i64(n: i64) -> Self {
        Real(n as f64)
    }
    fn pi() -> Self {
        Real(std::f64::consts::PI)
    }
}

fn v(x: f64, y: f64) -> Vector2<Real> {
    Vector2::new(Real(x), Real(y))
}

fn close(a: f64, b: f64) -> bool {
    (a - b).abs() < 1e-9
}

fn quadratic_at(a: f64, b: f64, c: f64, x: f64) -> f64 {
    a * x * x + b * x + c
}

fn cubic_at(a: f64, b: f64, c: f64, d: f64, x: f64) -> f64 {
    ((a * x + b) * x + c) * x + d
}

#[test]
fn quadratic_two_real_roots_in_order() {
    match quadratic_solve(Real(1.0), Real(-3.0), Real(2.0)) {
        QuadraticSolution::TwoReal(r) => {
            assert_eq!(r[0], Real(2.0));
            assert_eq!(r[1], Real(1.0));
        }
        other => panic!("{:?}", other),
    }
}

#[test]
fn quadratic_repeated_root() {
    match quadratic_solve(Real(1.0), Real(-2.0), Real(1.0)) {
        QuadraticSolution::OneReal(r) => assert_eq!(r, Real(1.0)),
        other => panic!("{:?}", other),
    }
}

#[test]
fn quadratic_conjugate_pair() {
    match quadratic_solve(Real(1.0), Real(2.0), Real(5.0)) {
        QuadraticSolution::TwoComplex(c) => {
            assert_eq!(c[0].re, Real(-1.0));
            assert_eq!(c[0].im, Real(2.0));
            assert_eq!(c[1].re, Real(-1.0));
            assert_eq!(c[1].im, Real(-2.0));
        }
        other => panic!("{:?}", other),
    }
}

#[test]
fn quadratic_without_leading_term_is_linear() {
    match quadratic_solve(Real(0.0), Real(2.0), Real(-4.0)) {
        QuadraticSolution::OneReal(r) => assert_eq!(r, Real(2.0)),
        other => panic!("{:?}", other),
    }
}

#[test]
fn quadratic_of_zeros_is_solved_by_all() {
    assert!(matches!(
        quadratic_solve(Real(0.0), Real(0.0), Real(0.0)),
        QuadraticSolution::AllReals
    ));
}

#[test]
fn quadratic_constant_has_no_solution() {
    assert!(matches!(
        quadratic_solve(Real(0.0), Real(0.0), Real(3.0)),
        QuadraticSolution::NoSolution
    ));
}

#[test]
fn quadratic_negligible_leading_term_is_dropped() {
    // |b| > 1e12 * |a|
    match quadratic_solve(Real(1e-13), Real(1.0), Real(-3.0)) {
        QuadraticSolution::OneReal(r) => assert_eq!(r, Real(3.0)),
        other => panic!("{:?}", other),
    }
    // |b| == 1e12 * |a| is not above the bound
    assert!(matches!(
        quadratic_solve(Real(1.0), Real(1e12), Real(0.0)),
        QuadraticSolution::TwoReal(_)
    ));
}

#[test]
fn quadratic_nan_goes_into_the_root() {
    match quadratic_solve(Real(0.0), Real(1.0), Real(f64::NAN)) {
        QuadraticSolution::OneReal(r) => assert!(r.0.is_nan()),
        other => panic!("{:?}", other),
    }
}

#[test]
fn quadratic_roots_solve_the_equation() {
    let cases = [(1.0, -3.0, 2.0), (2.0, 5.0, -3.0), (-1.5, 0.25, 8.0), (3.0, 6.0, 3.0), (1.0, 1e3, 1.0)];
    for (a, b, c) in cases {
        let scale = 1.0 + a.abs() + b.abs() + c.abs();
        match quadratic_solve(Real(a), Real(b), Real(c)) {
            QuadraticSolution::OneReal(r) => {
                assert!(quadratic_at(a, b, c, r.0).abs() < 1e-9 * scale);
            }
            QuadraticSolution::TwoReal(r) => {
                assert!(quadratic_at(a, b, c, r[0].0).abs() < 1e-9 * scale * (1.0 + r[0].0 * r[0].0));
                assert!(quadratic_at(a, b, c, r[1].0).abs() < 1e-9 * scale * (1.0 + r[1].0 * r[1].0));
            }
            other => panic!("{:?}", other),
        }
    }
}

#[test]
fn cubic_three_real_roots() {
    match cubic_solve(Real(1.0), Real(-6.0), Real(11.0), Real(-6.0)) {
        CubicSolution::ThreeReal(r) => {
            assert!(close(r[0].0, 3.0));
            assert!(close(r[1].0, 1.0));
            assert!(close(r[2].0, 2.0));
        }
        other => panic!("{:?}", other),
    }
}

#[test]
fn cubic_one_real_and_a_conjugate_pair() {
    match cubic_solve(Real(1.0), Real(0.0), Real(0.0), Real(-1.0)) {
        CubicSolution::OneRealTwoComplex(r, c) => {
            assert!(close(r.0, 1.0));
            assert!(close(c[0].re.0, -0.5));
            assert!(close(c[0].im.0, 3.0f64.sqrt() / 2.0));
            assert_eq!(c[1].re, c[0].re);
            assert_eq!(c[1].im.0, -c[0].im.0);
        }
        other => panic!("{:?}", other),
    }
}

#[test]
fn cubic_simple_and_doubled_root() {
    // (x - 1)^2 (x + 2)
    match cubic_solve(Real(1.0), Real(0.0), Real(-3.0), Real(2.0)) {
        CubicSolution::TwoReal(r) => {
            assert_eq!(r[0], Real(-2.0));
            assert_eq!(r[1], Real(1.0));
        }
        other => panic!("{:?}", other),
    }
}

#[test]
fn cubic_is_divided_by_its_leading_coefficient() {
    // 2 (x - 1)^2 (x + 2)
    match cubic_solve(Real(2.0), Real(0.0), Real(-6.0), Real(4.0)) {
        CubicSolution::TwoReal(r) => {
            assert_eq!(r[0], Real(-2.0));
            assert_eq!(r[1], Real(1.0));
        }
        other => panic!("{:?}", other),
    }
}

#[test]
fn cubic_roots_solve_the_equation() {
    let cases = [
        (1.0, -6.0, 11.0, -6.0),
        (2.0, 1.0, -7.0, 3.0),
        (1.0, 0.0, 0.0, -8.0),
        (-3.0, 2.0, 5.0, 1.0),
        (0.5, 4.0, -1.0, -2.0),
        (1.0, 3.0, 3.0, 1.0),
    ];
    for (a, b, c, d) in cases {
        let scale = 1.0 + a.abs() + b.abs() + c.abs() + d.abs();
        let roots: Vec<f64> = match cubic_solve(Real(a), Real(b), Real(c), Real(d)) {
            CubicSolution::OneReal(r) => vec![r.0],
            CubicSolution::TwoReal(r) => vec![r[0].0, r[1].0],
            CubicSolution::ThreeReal(r) => vec![r[0].0, r[1].0, r[2].0],
            CubicSolution::OneRealTwoComplex(r, _) => vec![r.0],
            other => panic!("{:?}", other),
        };
        assert!(!roots.is_empty());
        for x in roots {
            assert!(
                cubic_at(a, b, c, d, x).abs() < 1e-7 * scale * (1.0 + x.abs().powi(3)),
                "{} is no root of {:?}",
                x,
                (a, b, c, d)
            );
        }
    }
}

#[test]
fn cubic_without_leading_term_is_the_quadratic() {
    match cubic_solve(Real(0.0), Real(1.0), Real(-3.0), Real(2.0)) {
        CubicSolution::TwoReal(r) => {
            assert_eq!(r[0], Real(2.0));
            assert_eq!(r[1], Real(1.0));
        }
        other => panic!("{:?}", other),
    }
    match cubic_solve(Real(0.0), Real(0.0), Real(2.0), Real(-4.0)) {
        CubicSolution::OneReal(r) => assert_eq!(r, Real(2.0)),
        other => panic!("{:?}", other),
    }
    assert!(matches!(
        cubic_solve(Real(0.0), Real(0.0), Real(0.0), Real(0.0)),
        CubicSolution::AllReals
    ));
    assert!(matches!(
        cubic_solve(Real(0.0), Real(0.0), Real(0.0), Real(1.0)),
        CubicSolution::NoSolution
    ));
}

#[test]
fn cubic_without_first_and_last_term_is_the_quadratic() {
    // x² - 3x
    match cubic_solve(Real(0.0), Real(1.0), Real(-3.0), Real(0.0)) {
        CubicSolution::TwoReal(r) => {
            assert_eq!(r[0], Real(3.0));
            assert_eq!(r[1], Real(0.0));
        }
        other => panic!("{:?}", other),
    }
}

#[test]
fn cubic_degenerate_conjugate_pair_has_no_real_root() {
    assert!(matches!(
        cubic_solve(Real(0.0), Real(1.0), Real(0.0), Real(1.0)),
        CubicSolution::NoSolution
    ));
}

#[test]
fn cubic_negligible_leading_term_is_dropped() {
    // |b / a| >= 1e6
    match cubic_solve(Real(1e-6), Real(1.0), Real(-3.0), Real(2.0)) {
        CubicSolution::TwoReal(r) => {
            assert_eq!(r[0], Real(2.0));
            assert_eq!(r[1], Real(1.0));
        }
        other => panic!("{:?}", other),
    }
}

#[test]
fn cubic_at_the_degenerate_ratio_is_the_quadratic() {
    // |b / a| = 1e6 is no longer a cubic: 1e6·x² - 3e6·x + 2e6
    match cubic_solve(Real(1.0), Real(1e6), Real(-3e6), Real(2e6)) {
        CubicSolution::TwoReal(r) => {
            assert_eq!(r[0], Real(2.0));
            assert_eq!(r[1], Real(1.0));
        }
        other => panic!("{:?}", other),
    }
    // just below it the cubic is solved
    assert!(matches!(
        cubic_solve(Real(1.0), Real(999_999.0), Real(-3e6), Real(2e6)),
        CubicSolution::ThreeReal(_)
    ));
}

#[test]
fn from_quadratic_keeps_the_real_outcomes() {
    assert!(matches!(
        CubicSolution::from_quadratic(QuadraticSolution::<Real>::NoSolution),
        CubicSolution::NoSolution
    ));
    assert!(matches!(
        CubicSolution::from_quadratic(QuadraticSolution::<Real>::AllReals),
        CubicSolution::AllReals
    ));
    match CubicSolution::from_quadratic(QuadraticSolution::OneReal(Real(4.0))) {
        CubicSolution::OneReal(r) => assert_eq!(r, Real(4.0)),
        other => panic!("{:?}", other),
    }
    match CubicSolution::from_quadratic(QuadraticSolution::TwoReal([Real(4.0), Real(5.0)])) {
        CubicSolution::TwoReal(r) => assert_eq!(r, [Real(4.0), Real(5.0)]),
        other => panic!("{:?}", other),
    }
}

#[test]
fn non_zero_sign_is_never_zero() {
    assert_eq!(non_zero_sign(Real(3.5)), Real(1.0));
    assert_eq!(non_zero_sign(Real(-0.25)), Real(-1.0));
    assert_eq!(non_zero_sign(Real(0.0)), Real(-1.0));
    assert_eq!(non_zero_sign(Real(-0.0)), Real(-1.0));
    assert_eq!(non_zero_sign(Real(f64::NAN)), Real(-1.0));
    assert_eq!(non_zero_sign(Real(f64::INFINITY)), Real(1.0));
}

#[test]
fn linear_distance_inside_is_perpendicular() {
    let segment = LinearSegment::new(v(0.0, 0.0), v(1.0, 0.0));
    assert_eq!(segment.signed_distance(v(0.5, 1.0)), Real(1.0));
}

#[test]
fn linear_distance_outside_is_to_the_nearer_end() {
    let segment = LinearSegment::new(v(0.0, 0.0), v(1.0, 0.0));
    let d = segment.signed_distance(v(2.0, 0.0));
    assert_eq!(d.0.abs(), 1.0);
    assert_eq!(d, non_zero_sign(Real(0.0)).mul(Real(1.0)));
    assert_eq!(d, Real(-1.0));
    let d = segment.signed_distance(v(-3.0, 4.0));
    assert_eq!(d.0.abs(), 5.0);
}

#[test]
fn linear_distance_to_a_segment_without_length() {
    // the parameter is 0 / 0, no point lies inside, and the side is none
    let segment = LinearSegment::new(v(1.0, 1.0), v(1.0, 1.0));
    assert_eq!(segment.signed_distance(v(4.0, 5.0)), Real(-5.0));
}

#[test]
fn linear_distance_at_the_middle_goes_to_the_start() {
    // at the parameter 1/2 the start counts as the nearer end
    let segment = LinearSegment::new(v(0.0, 0.0), v(2.0, 0.0));
    assert_eq!(segment.signed_distance(v(1.0, 3.0)), Real(3.0));
    assert_eq!(segment.signed_distance(v(1.0, -3.0)), Real(-3.0));
}

#[test]
fn linear_distance_changes_sign_across_the_line() {
    let segment = LinearSegment::new(v(0.0, 0.0), v(4.0, 0.0));
    for (x, y) in [(1.0, 2.0), (3.5, 0.5), (-2.0, 1.0), (6.0, 3.0), (2.0, 7.25)] {
        let above = segment.signed_distance(v(x, y));
        let below = segment.signed_distance(v(x, -y));
        assert_eq!(above.0, -below.0);
        assert!(above.0 != 0.0);
    }
}

#[test]
fn linear_direction_runs_from_start_to_end() {
    let segment = LinearSegment::new(v(1.0, 2.0), v(4.0, 6.0));
    assert_eq!(segment.direction(Real(0.3)), v(3.0, 4.0));
}

#[test]
fn linear_interpolate_at_the_ends() {
    let segment = LinearSegment::new(v(1.0, 2.0), v(4.0, 6.0));
    assert_eq!(segment.interpolate(Real(0.0)), *segment.start());
    assert_eq!(segment.interpolate(Real(1.0)), *segment.end());
    assert_eq!(segment.interpolate(Real(0.5)), v(2.5, 4.0));
    assert_eq!(segment.interpolate(Real(2.0)), v(7.0, 10.0));
}

#[test]
fn quadratic_interpolate_at_the_ends() {
    let segment = QuadraticSegment::new(v(0.0, 0.0), v(1.0, 2.0), v(2.0, 0.0));
    assert_eq!(segment.interpolate(Real(0.0)), *segment.start());
    assert_eq!(segment.interpolate(Real(1.0)), *segment.end());
    assert_eq!(segment.interpolate(Real(0.5)), v(1.0, 1.0));
}

#[test]
fn quadratic_direction_falls_back_to_the_chord() {
    // the two control deltas cancel at t = 1/2
    let segment = QuadraticSegment::new(v(0.0, 0.0), v(1.0, 1.0), v(0.0, 0.0));
    assert_eq!(segment.direction(Real(0.5)), v(0.0, 0.0));
    let segment = QuadraticSegment::new(v(0.0, 0.0), v(1.0, 0.0), v(0.0, 2.0));
    assert_eq!(segment.direction(Real(0.0)), v(1.0, 0.0));
    assert_eq!(segment.direction(Real(1.0)), v(-1.0, 2.0));
    let segment = QuadraticSegment::new(v(1.0, 1.0), v(1.0, 1.0), v(3.0, 5.0));
    assert_eq!(segment.direction(Real(0.0)), v(2.0, 4.0));
}

#[test]
fn quadratic_distance_at_its_ends_is_zero() {
    let segment = QuadraticSegment::new(v(0.0, 0.0), v(1.0, 2.0), v(2.0, 0.0));
    assert_eq!(segment.signed_distance(*segment.start()).0.abs(), 0.0);
    assert_eq!(segment.signed_distance(*segment.end()).0.abs(), 0.0);
    let segment = QuadraticSegment::new(v(-1.5, 0.25), v(3.0, 4.0), v(2.0, -7.0));
    assert!(segment.signed_distance(*segment.start()).0.abs() < 1e-12);
    assert!(segment.signed_distance(*segment.end()).0.abs() < 1e-12);
}

#[test]
fn quadratic_distance_to_the_apex() {
    // the curve passes through (1, 1) at t = 1/2
    let segment = QuadraticSegment::new(v(0.0, 0.0), v(1.0, 2.0), v(2.0, 0.0));
    let above = segment.signed_distance(v(1.0, 3.0));
    let below = segment.signed_distance(v(1.0, 0.5));
    assert!(close(above.0.abs(), 2.0));
    assert!(close(below.0.abs(), 0.5));
    assert_eq!(above.0.signum(), -below.0.signum());
}

#[test]
fn quadratic_distance_to_a_straight_curve() {
    // the control point lies midway: the second difference vanishes, and
    // the cubic equation is a linear one
    let segment = QuadraticSegment::new(v(0.0, 0.0), v(1.0, 0.0), v(2.0, 0.0));
    let d = segment.signed_distance(v(0.5, 2.0));
    assert!(close(d.0.abs(), 2.0));
    let d = segment.signed_distance(v(5.0, 4.0));
    assert!(close(d.0.abs(), 5.0));
}

#[test]
fn quadratic_distance_is_the_least_over_the_curve() {
    let segment = QuadraticSegment::new(v(0.0, 0.0), v(3.0, 4.0), v(5.0, -1.0));
    for (x, y) in [(1.0, 1.0), (2.5, 3.0), (4.0, -2.0), (-1.0, 0.5), (6.0, 1.0), (3.0, 0.0)] {
        let d = segment.signed_distance(v(x, y)).0.abs();
        let mut least = f64::INFINITY;
        for i in 0..=10_000 {
            let q = segment.interpolate(Real(i as f64 / 10_000.0));
            least = least.min(((q.x.0 - x).powi(2) + (q.y.0 - y).powi(2)).sqrt());
        }
        assert!((d - least).abs() < 1e-6, "{} and {} at {:?}", d, least, (x, y));
    }
}

#[test]
fn quadratic_distance_beyond_an_end() {
    let segment = QuadraticSegment::new(v(0.0, 0.0), v(1.0, 2.0), v(2.0, 0.0));
    let d = segment.signed_distance(v(-3.0, -4.0));
    assert!(close(d.0.abs(), 5.0));
}

#[test]
fn segment_points_can_be_read_and_replaced() {
    let mut segment = QuadraticSegment::new(v(0.0, 0.0), v(1.0, 2.0), v(2.0, 0.0));
    assert_eq!(segment.len(), 3);
    assert_eq!(*segment.get_point(1), v(1.0, 2.0));
    segment.set_start(&v(-1.0, -1.0));
    segment.set_end(&v(5.0, 5.0));
    assert_eq!(*segment.start(), v(-1.0, -1.0));
    assert_eq!(*segment.get_point(1), v(1.0, 2.0));
    assert_eq!(*segment.end(), v(5.0, 5.0));
}
