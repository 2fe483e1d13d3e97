use vstd::prelude::*;
use crate::complex::Complex;
use crate::equations::cardano::cubic_at;
use crate::equations::cardano::lemma_cardano_doubled;
use crate::equations::cardano::lemma_cardano_sum;
use crate::equations::cardano::lemma_cosine_in_range;
use crate::equations::cardano::lemma_cube_is_injective;
use crate::equations::cardano::lemma_depressed_cubic;
use crate::equations::cardano::lemma_scaled_cubic;
use crate::equations::cardano::lemma_trigonometric_root;
use crate::equations::quadratic::is_solved_as_it_stands;
use crate::equations::quadratic::lemma_quadratic_roots_solve;
use crate::equations::quadratic::quadratic_at;
use crate::equations::quadratic::quadratic_solution;
use crate::equations::quadratic::quadratic_solve;
use crate::equations::quadratic::QuadraticSolution;
use crate::linear::exact::ExactNumber;
use crate::linear::exact::computes_cosines;
use crate::linear::exact::computes_exactly;
use crate::linear::traits::FloatingPoint;
use crate::linear::traits::Number;
use crate::linear::traits::SignedNumber;

verus! {

/// What solving `a·x³ + b·x² + c·x + d = 0` can yield: the outcomes of a
/// quadratic equation that are real, and those of a true cubic.
#[derive(Debug)]
pub enum CubicSolution<T: Number> {
    NoSolution,
    AllReals,
    OneReal(T),
    /// The two roots of a quadratic equation, or the simple and the doubled
    /// root of a cubic one, in this order.
    TwoReal([T; 2]),
    ThreeReal([T; 3]),
    OneRealTwoComplex(T, [Complex<T>; 2]),
}

impl<T: Number> CubicSolution<T> {
    /// The real roots that the solution names, in its order.
    pub open spec fn real_roots(self) -> Seq<T> {
        match self {
            CubicSolution::OneReal(r) => seq![r],
            CubicSolution::TwoReal(r) => seq![r[0], r[1]],
            CubicSolution::ThreeReal(r) => seq![r[0], r[1], r[2]],
            CubicSolution::OneRealTwoComplex(r, _) => seq![r],
            _ => seq![],
        }
    }

    /// The solution of a cubic equation that is solved as the quadratic
    /// equation of its last three coefficients. The real outcomes keep
    /// their kind and their roots; a conjugate pair, which names no real
    /// root, becomes `NoSolution`.
    pub open spec fn of_quadratic(q: QuadraticSolution<T>) -> Self {
        match q {
            QuadraticSolution::NoSolution => CubicSolution::NoSolution,
            QuadraticSolution::AllReals => CubicSolution::AllReals,
            QuadraticSolution::OneReal(r) => CubicSolution::OneReal(r),
            QuadraticSolution::TwoReal(r) => CubicSolution::TwoReal(r),
            QuadraticSolution::TwoComplex(_) => CubicSolution::NoSolution,
        }
    }

    pub fn from_quadratic(q: QuadraticSolution<T>) -> (r: Self)
        ensures
            r == Self::of_quadratic(q),
    {
        match q {
            QuadraticSolution::NoSolution => CubicSolution::NoSolution,
            QuadraticSolution::AllReals => CubicSolution::AllReals,
            QuadraticSolution::OneReal(r) => CubicSolution::OneReal(r),
            QuadraticSolution::TwoReal(r) => CubicSolution::TwoReal(r),
            QuadraticSolution::TwoComplex(_) => CubicSolution::NoSolution,
        }
    }
}

/// The ratio `|b / a|` from which on the leading coefficient is taken for
/// zero: `10⁶`.
pub open spec fn degenerate_ratio<T: FloatingPoint>() -> T {
    T::from_i64_spec(1_000_000)
}

/// Whether `a·x³ + b·x² + c·x + d` is solved as the quadratic equation
/// `b·x² + c·x + d`: `a` is zero, or `|b / a| ≥ 10⁶`.
pub open spec fn is_quadratic<T: FloatingPoint>(a: T, b: T) -> bool {
    a.equal_spec(T::zero_spec()) || degenerate_ratio::<T>().less_equal_spec(
        b.div_spec(a).abs_spec(),
    )
}

/// The real cube root of `x`: the cube root of `|x|` with the sign of `x`.
pub open spec fn signed_cbrt<T: FloatingPoint>(x: T) -> T {
    x.signum_spec().mul_spec(x.abs_spec().cbrt_spec())
}

/// Cardano's `q` of `x³ + b·x² + c·x + d`: `(3·c - b²) / 9`.
pub open spec fn cardano_q<T: FloatingPoint>(b: T, c: T) -> T {
    T::from_i64_spec(3).mul_spec(c).sub_spec(b.mul_spec(b)).div_spec(T::from_i64_spec(9))
}

/// Cardano's `r` of `x³ + b·x² + c·x + d`:
/// `(9·b·c - 27·d - 2·b³) / 54`.
pub open spec fn cardano_r<T: FloatingPoint>(b: T, c: T, d: T) -> T {
    T::from_i64_spec(9).mul_spec(b).mul_spec(c).sub_spec(T::from_i64_spec(27).mul_spec(d)).sub_spec(
        T::from_i64_spec(2).mul_spec(b.mul_spec(b).mul_spec(b)),
    ).div_spec(T::from_i64_spec(54))
}

/// The discriminant `q³ + r²`.
pub open spec fn cardano_discriminant<T: FloatingPoint>(q: T, r: T) -> T {
    q.mul_spec(q).mul_spec(q).add_spec(r.mul_spec(r))
}

/// The root `2·√(-q)·cos((θ + turns·π) / 3) - shift` of the trigonometric
/// form; `turns` is 0, 2 and 4 for the three roots.
pub open spec fn trigonometric_root<T: FloatingPoint>(q: T, theta: T, turns: i64, shift: T) -> T {
    let angle = if turns == 0 {
        theta
    } else {
        theta.add_spec(T::from_i64_spec(turns).mul_spec(T::pi_spec()))
    };
    T::from_i64_spec(2).mul_spec(q.neg_spec().sqrt_spec()).mul_spec(
        angle.div_spec(T::from_i64_spec(3)).cos_spec(),
    ).sub_spec(shift)
}

/// The solution of the normalized cubic `x³ + b·x² + c·x + d = 0` by
/// Cardano's method, with `q`, `r` and the discriminant `Δ = q³ + r²`, and
/// with `b / 3` taken off each root of the depressed cubic.
///
/// - `Δ > 0`: one real root `s + t - b/3` and a conjugate pair with the real
///   part `-(s + t)/2 - b/3` and the imaginary parts `√3·(s - t)/2` and its
///   negation, where `s` and `t` are the real cube roots of `r + √Δ` and
///   `r - √Δ`.
/// - `Δ = 0`: the simple root `2·∛r - b/3` and the doubled root
///   `-(∛r + b/3)`.
/// - else three real roots in trigonometric form, with
///   `θ = acos(r / √(-q³))`.
pub open spec fn normalized_cubic_solution<T: FloatingPoint>(b: T, c: T, d: T) -> CubicSolution<T> {
    let q = cardano_q(b, c);
    let r = cardano_r(b, c, d);
    let delta = cardano_discriminant(q, r);
    let shift = b.div_spec(T::from_i64_spec(3));
    let two = T::from_i64_spec(2);
    if T::zero_spec().less_spec(delta) {
        let root = delta.sqrt_spec();
        let s = signed_cbrt(r.add_spec(root));
        let t = signed_cbrt(r.sub_spec(root));
        let re = s.add_spec(t).neg_spec().div_spec(two).sub_spec(shift);
        let im = T::from_i64_spec(3).sqrt_spec().mul_spec(s.sub_spec(t)).div_spec(two);
        CubicSolution::OneRealTwoComplex(
            s.add_spec(t).sub_spec(shift),
            [Complex { re, im }, Complex { re, im: im.neg_spec() }],
        )
    } else if delta.equal_spec(T::zero_spec()) {
        let r13 = signed_cbrt(r);
        CubicSolution::TwoReal(
            [two.mul_spec(r13).sub_spec(shift), r13.add_spec(shift).neg_spec()],
        )
    } else {
        let theta = r.div_spec(q.mul_spec(q).mul_spec(q).neg_spec().sqrt_spec()).acos_spec();
        CubicSolution::ThreeReal(
            [
                trigonometric_root(q, theta, 0, shift),
                trigonometric_root(q, theta, 2, shift),
                trigonometric_root(q, theta, 4, shift),
            ],
        )
    }
}

/// The solution of `a·x³ + b·x² + c·x + d = 0`: that of the quadratic
/// equation `b·x² + c·x + d = 0` where the cubic `is_quadratic`, else that
/// of the cubic divided through by `a`.
pub open spec fn cubic_solution<T: FloatingPoint>(a: T, b: T, c: T, d: T) -> CubicSolution<T> {
    if is_quadratic(a, b) {
        CubicSolution::of_quadratic(quadratic_solution(b, c, d))
    } else {
        normalized_cubic_solution(b.div_spec(a), c.div_spec(a), d.div_spec(a))
    }
}

/// The real cube root of `x`.
pub fn real_cbrt<T: FloatingPoint>(x: T) -> (r: T)
    ensures
        r == signed_cbrt(x),
{
    proof {
        T::arithmetic_is_total();
    }
    x.signum().mul(x.abs().cbrt())
}

/// Solves `x³ + b·x² + c·x + d = 0`.
pub fn solve_cubic_normalized<T: FloatingPoint>(b: T, c: T, d: T) -> (r: CubicSolution<T>)
    ensures
        r == normalized_cubic_solution(b, c, d),
{
    proof {
        T::arithmetic_is_total();
    }
    let zero = T::zero();
    let two = T::from_i64(2);
    let three = T::from_i64(3);
    let q = three.mul(c).sub(b.mul(b)).div(T::from_i64(9));
    let r = T::from_i64(9).mul(b).mul(c).sub(T::from_i64(27).mul(d)).sub(
        two.mul(b.mul(b).mul(b)),
    ).div(T::from_i64(54));
    let q_cubed = q.mul(q).mul(q);
    let delta = q_cubed.add(r.mul(r));
    let shift = b.div(three);
    if zero.less(delta) {
        let root = delta.sqrt();
        let s = real_cbrt(r.add(root));
        let t = real_cbrt(r.sub(root));
        let re = s.add(t).neg().div(two).sub(shift);
        let im = three.sqrt().mul(s.sub(t)).div(two);
        return CubicSolution::OneRealTwoComplex(
            s.add(t).sub(shift),
            [Complex::new(re, im), Complex::new(re, im.neg())],
        );
    }
    if delta.equal(zero) {
        let r13 = real_cbrt(r);
        return CubicSolution::TwoReal([two.mul(r13).sub(shift), r13.add(shift).neg()]);
    }
    let theta = r.div(q_cubed.neg().sqrt()).acos();
    let width = two.mul(q.neg().sqrt());
    let pi = T::pi();
    let first = width.mul(theta.div(three).cos()).sub(shift);
    let second = width.mul(theta.add(two.mul(pi)).div(three).cos()).sub(shift);
    let third = width.mul(theta.add(T::from_i64(4).mul(pi)).div(three).cos()).sub(shift);
    CubicSolution::ThreeReal([first, second, third])
}

/// Solves `a·x³ + b·x² + c·x + d = 0`.
///
/// Total: whatever the coefficients, a solution comes back, and where the
/// leading ones vanish the equation of lower degree is solved.
pub fn cubic_solve<T: FloatingPoint>(a: T, b: T, c: T, d: T) -> (r: CubicSolution<T>)
    ensures
        r == cubic_solution(a, b, c, d),
{
    proof {
        T::arithmetic_is_total();
    }
    if a.equal(T::zero()) || T::from_i64(1_000_000).less_equal(b.div(a).abs()) {
        return CubicSolution::from_quadratic(quadratic_solve(b, c, d));
    }
    solve_cubic_normalized(b.div(a), c.div(a), d.div(a))
}

/// A cubic equation whose leading coefficient is zero has the solution of
/// the quadratic equation of its other coefficients, and so the same real
/// roots in the same order; only a conjugate pair, which names none, is
/// reported as `NoSolution`.
pub proof fn lemma_vanishing_lead_is_quadratic<T: FloatingPoint>(a: T, b: T, c: T, d: T)
    requires
        a.equal_spec(T::zero_spec()),
    ensures
        cubic_solution(a, b, c, d) == CubicSolution::of_quadratic(quadratic_solution(b, c, d)),
        cubic_solution(a, b, c, d).real_roots() == quadratic_solution(b, c, d).real_roots(),
        cubic_solution(a, b, c, d) is NoSolution <==> quadratic_solution(b, c, d) is NoSolution
            || quadratic_solution(b, c, d) is TwoComplex,
        cubic_solution(a, b, c, d) is AllReals <==> quadratic_solution(b, c, d) is AllReals,
{
}

/// In exact arithmetic the `signed_cbrt` of `x` is the real number whose
/// cube is `x`.
pub proof fn lemma_signed_cbrt_is_exact<T: ExactNumber + FloatingPoint>(x: T)
    requires
        computes_exactly::<T>(),
    ensures
        signed_cbrt(x).value() * signed_cbrt(x).value() * signed_cbrt(x).value() == x.value(),
{
    T::arithmetic_is_total();
    T::arithmetic_is_exact();
    let v = x.value();
    let sign = x.signum_spec().value();
    let m = x.abs_spec().cbrt_spec().value();
    assert(signed_cbrt(x).value() == sign * m);
    if v == 0real {
        lemma_cube_is_injective(m, 0real);
        assert((sign * m) * (sign * m) * (sign * m) == 0real) by (nonlinear_arith)
            requires
                m == 0real,
        ;
    } else if v > 0real {
        assert((sign * m) * (sign * m) * (sign * m) == m * m * m) by (nonlinear_arith)
            requires
                sign == 1real,
        ;
    } else {
        assert((sign * m) * (sign * m) * (sign * m) == -(m * m * m)) by (nonlinear_arith)
            requires
                sign == -1real,
        ;
    }
}

/// In exact arithmetic every real root that the solution of the normalized
/// cubic names solves `x³ + b·x² + c·x + d = 0`.
pub proof fn lemma_normalized_roots_solve<T: ExactNumber + FloatingPoint>(
    b: T,
    c: T,
    d: T,
    cosine: spec_fn(real) -> real,
)
    requires
        computes_exactly::<T>(),
        computes_cosines::<T>(cosine),
    ensures
        forall|i: int|
            0 <= i < normalized_cubic_solution(b, c, d).real_roots().len() ==> cubic_at(
                1real,
                b.value(),
                c.value(),
                d.value(),
                (#[trigger] normalized_cubic_solution(b, c, d).real_roots()[i]).value(),
            ) == 0real,
{
    T::arithmetic_is_total();
    T::arithmetic_is_exact();
    let (vb, vc, vd) = (b.value(), c.value(), d.value());
    let q = cardano_q(b, c);
    let r = cardano_r(b, c, d);
    let delta = cardano_discriminant(q, r);
    let shift = b.div_spec(T::from_i64_spec(3));
    let two = T::from_i64_spec(2);
    let (vq, vr) = (q.value(), r.value());
    assert(vq == (3real * vc - vb * vb) / 9real);
    assert(vr == (9real * vb * vc - 27real * vd - 2real * (vb * vb * vb)) / 54real);
    assert(delta.value() == vq * vq * vq + vr * vr);
    assert(shift.value() == vb / 3real);
    if T::zero_spec().less_spec(delta) {
        let w = delta.sqrt_spec().value();
        let s = signed_cbrt(r.add_spec(delta.sqrt_spec()));
        let t = signed_cbrt(r.sub_spec(delta.sqrt_spec()));
        lemma_signed_cbrt_is_exact(r.add_spec(delta.sqrt_spec()));
        lemma_signed_cbrt_is_exact(r.sub_spec(delta.sqrt_spec()));
        lemma_cardano_sum(vq, vr, w, s.value(), t.value());
        lemma_depressed_cubic(
            vb,
            vc,
            vd,
            vq,
            vr,
            s.value() + t.value(),
            s.value() + t.value() - vb / 3real,
        );
    } else if delta.equal_spec(T::zero_spec()) {
        let m = signed_cbrt(r).value();
        lemma_signed_cbrt_is_exact(r);
        lemma_cardano_doubled(vq, vr, m);
        lemma_depressed_cubic(vb, vc, vd, vq, vr, 2real * m, 2real * m - vb / 3real);
        lemma_depressed_cubic(vb, vc, vd, vq, vr, -m, -m - vb / 3real);
    } else {
        assert(vq * vq * vq + vr * vr < 0real);
        assert(vq < 0real) by (nonlinear_arith)
            requires
                vq * vq * vq + vr * vr < 0real,
        ;
        assert(-(vq * vq * vq) >= 0real) by (nonlinear_arith)
            requires
                vq * vq * vq + vr * vr < 0real,
        ;
        let w = q.neg_spec().sqrt_spec().value();
        let v = q.mul_spec(q).mul_spec(q).neg_spec().sqrt_spec().value();
        lemma_cosine_in_range(vq, vr, v);
        let theta = r.div_spec(q.mul_spec(q).mul_spec(q).neg_spec().sqrt_spec()).acos_spec();
        let angle = theta.value();
        let pi = T::pi_spec().value();
        assert(cosine(angle) == vr / v);
        // the first root: a third of the angle itself
        assert(angle == 3real * (angle / 3real));
        assert(cosine(angle) == 4real * cosine(angle / 3real) * cosine(angle / 3real) * cosine(
            angle / 3real,
        ) - 3real * cosine(angle / 3real));
        lemma_trigonometric_root(vq, vr, w, v, cosine(angle / 3real));
        lemma_depressed_cubic(
            vb,
            vc,
            vd,
            vq,
            vr,
            2real * w * cosine(angle / 3real),
            2real * w * cosine(angle / 3real) - vb / 3real,
        );
        // the second root: a third of the angle and a full turn
        let second = angle + 2real * pi;
        assert(cosine(second) == cosine(angle));
        assert(second == 3real * (second / 3real));
        assert(cosine(second) == 4real * cosine(second / 3real) * cosine(second / 3real) * cosine(
            second / 3real,
        ) - 3real * cosine(second / 3real));
        lemma_trigonometric_root(vq, vr, w, v, cosine(second / 3real));
        lemma_depressed_cubic(
            vb,
            vc,
            vd,
            vq,
            vr,
            2real * w * cosine(second / 3real),
            2real * w * cosine(second / 3real) - vb / 3real,
        );
        // the third root: a third of the angle and two full turns
        let third = angle + 4real * pi;
        assert(third == second + 2real * pi);
        assert(cosine(third) == cosine(second));
        assert(third == 3real * (third / 3real));
        assert(cosine(third) == 4real * cosine(third / 3real) * cosine(third / 3real) * cosine(
            third / 3real,
        ) - 3real * cosine(third / 3real));
        lemma_trigonometric_root(vq, vr, w, v, cosine(third / 3real));
        lemma_depressed_cubic(
            vb,
            vc,
            vd,
            vq,
            vr,
            2real * w * cosine(third / 3real),
            2real * w * cosine(third / 3real) - vb / 3real,
        );
        assert(trigonometric_root(q, theta, 0, shift).value() == 2real * w * cosine(
            angle / 3real,
        ) - vb / 3real);
        assert(trigonometric_root(q, theta, 2, shift).value() == 2real * w * cosine(
            second / 3real,
        ) - vb / 3real);
        assert(trigonometric_root(q, theta, 4, shift).value() == 2real * w * cosine(
            third / 3real,
        ) - vb / 3real);
    }
}

/// Whether `a·x³ + b·x² + c·x + d = 0` is solved as it stands: no leading
/// coefficient is dropped that is not zero.
pub open spec fn is_cubic_solved_as_it_stands<T: FloatingPoint>(a: T, b: T, c: T) -> bool {
    if a.equal_spec(T::zero_spec()) {
        is_solved_as_it_stands(b, c)
    } else {
        !is_quadratic(a, b)
    }
}

/// In exact arithmetic every real root that the solution names solves the
/// equation, whenever the equation is solved as it stands. Where a leading
/// coefficient is not zero and yet dropped as negligible, the roots of the
/// equation of lower degree are returned, which solve the cubic one only
/// nearly.
pub proof fn lemma_cubic_roots_solve<T: ExactNumber + FloatingPoint>(
    a: T,
    b: T,
    c: T,
    d: T,
    cosine: spec_fn(real) -> real,
)
    requires
        computes_exactly::<T>(),
        computes_cosines::<T>(cosine),
        is_cubic_solved_as_it_stands(a, b, c),
    ensures
        forall|i: int|
            0 <= i < cubic_solution(a, b, c, d).real_roots().len() ==> cubic_at(
                a.value(),
                b.value(),
                c.value(),
                d.value(),
                (#[trigger] cubic_solution(a, b, c, d).real_roots()[i]).value(),
            ) == 0real,
{
    T::arithmetic_is_total();
    T::arithmetic_is_exact();
    let (va, vb, vc, vd) = (a.value(), b.value(), c.value(), d.value());
    if a.equal_spec(T::zero_spec()) {
        lemma_quadratic_roots_solve(b, c, d);
        let roots = quadratic_solution(b, c, d).real_roots();
        assert(cubic_solution(a, b, c, d).real_roots() == roots);
        assert forall|i: int| 0 <= i < roots.len() implies cubic_at(
            va,
            vb,
            vc,
            vd,
            (#[trigger] roots[i]).value(),
        ) == 0real by {
            let x = roots[i].value();
            assert(quadratic_at(vb, vc, vd, x) == 0real);
            assert(va * x * x * x == 0real) by (nonlinear_arith)
                requires
                    va == 0real,
            ;
        }
    } else {
        let (bn, cn, dn) = (b.div_spec(a), c.div_spec(a), d.div_spec(a));
        lemma_normalized_roots_solve(bn, cn, dn, cosine);
        let roots = normalized_cubic_solution(bn, cn, dn).real_roots();
        assert(cubic_solution(a, b, c, d).real_roots() == roots);
        assert forall|i: int| 0 <= i < roots.len() implies cubic_at(
            va,
            vb,
            vc,
            vd,
            (#[trigger] roots[i]).value(),
        ) == 0real by {
            lemma_scaled_cubic(va, vb, vc, vd, roots[i].value());
        }
    }
}

/// The scalars for which cubic equations are solved: all that are
/// `FloatingPoint`.
pub trait CubicFormula: FloatingPoint {
    /// Solves `a·x³ + b·x² + c·x + d = 0`.
    fn cubic_formula(a: Self, b: Self, c: Self, d: Self) -> (r: CubicSolution<Self>)
        ensures
            r == cubic_solution(a, b, c, d),
    ;
}

impl<T: FloatingPoint> CubicFormula for T {
    fn cubic_formula(a: Self, b: Self, c: Self, d: Self) -> (r: CubicSolution<Self>) {
        cubic_solve(a, b, c, d)
    }
}

} // verus!
