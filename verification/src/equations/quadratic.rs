use vstd::prelude::*;
use crate::complex::Complex;
use crate::linear::exact::ExactNumber;
use crate::linear::exact::computes_exactly;
use crate::linear::traits::FloatingPoint;
use crate::linear::traits::Number;
use crate::linear::traits::SignedNumber;
use crate::linear::vector::Vector2;
use crate::linear::vector::Vector3;

verus! {

/// What solving `a·x² + b·x + c = 0` can yield.
#[derive(Debug)]
pub enum QuadraticSolution<T: Number> {
    /// The equation is a constant other than zero: nothing solves it.
    NoSolution,
    /// The equation is identically zero: every number solves it.
    AllReals,
    /// One root: that of a linear equation, or a repeated one where the
    /// discriminant is zero.
    OneReal(T),
    TwoReal([T; 2]),
    /// A conjugate pair.
    TwoComplex([Complex<T>; 2]),
}

impl<T: Number> QuadraticSolution<T> {
    /// The real roots that the solution names, in its order.
    pub open spec fn real_roots(self) -> Seq<T> {
        match self {
            QuadraticSolution::OneReal(r) => seq![r],
            QuadraticSolution::TwoReal(r) => seq![r[0], r[1]],
            _ => seq![],
        }
    }
}

/// The ratio above which the leading coefficient is taken for zero: `10¹²`.
pub open spec fn negligible_ratio<T: FloatingPoint>() -> T {
    T::from_i64_spec(1_000_000_000_000)
}

/// Whether `a·x² + b·x + c` is solved as the linear equation `b·x + c`:
/// `a` is zero, or `|b| > 10¹²·|a|`, where keeping `a` would cost more
/// precision than dropping it.
pub open spec fn is_linear<T: FloatingPoint>(a: T, b: T) -> bool {
    a.equal_spec(T::zero_spec()) || negligible_ratio::<T>().mul_spec(a.abs_spec()).less_spec(
        b.abs_spec(),
    )
}

/// The solution of `b·x + c = 0`: all numbers if both coefficients are zero,
/// none if only `b` is, else `-c / b`.
pub open spec fn linear_solution<T: FloatingPoint>(b: T, c: T) -> QuadraticSolution<T> {
    if b.equal_spec(T::zero_spec()) {
        if c.equal_spec(T::zero_spec()) {
            QuadraticSolution::AllReals
        } else {
            QuadraticSolution::NoSolution
        }
    } else {
        QuadraticSolution::OneReal(c.neg_spec().div_spec(b))
    }
}

/// `b² - 4·a·c`.
pub open spec fn discriminant<T: FloatingPoint>(a: T, b: T, c: T) -> T {
    b.mul_spec(b).sub_spec(T::from_i64_spec(4).mul_spec(a).mul_spec(c))
}

/// `2·a`, by which the quadratic formula divides.
pub open spec fn twice<T: FloatingPoint>(a: T) -> T {
    T::from_i64_spec(2).mul_spec(a)
}

/// The solution of `a·x² + b·x + c = 0`.
///
/// An equation that `is_linear` has the solution of `b·x + c = 0`. Else the
/// discriminant `d` decides: if positive, the two real roots
/// `(-b + √d) / 2a` and `(-b - √d) / 2a`, in this order; if zero, the one
/// root `-b / 2a`; else the conjugate pair with the real part `-b / 2a` and
/// the imaginary parts `√(-d) / 2a` and its negation.
pub open spec fn quadratic_solution<T: FloatingPoint>(a: T, b: T, c: T) -> QuadraticSolution<T> {
    if is_linear(a, b) {
        linear_solution(b, c)
    } else {
        let d = discriminant(a, b, c);
        if T::zero_spec().less_spec(d) {
            let root = d.sqrt_spec();
            QuadraticSolution::TwoReal(
                [
                    b.neg_spec().add_spec(root).div_spec(twice(a)),
                    b.neg_spec().sub_spec(root).div_spec(twice(a)),
                ],
            )
        } else if d.equal_spec(T::zero_spec()) {
            QuadraticSolution::OneReal(b.neg_spec().div_spec(twice(a)))
        } else {
            let re = b.neg_spec().div_spec(twice(a));
            let im = d.neg_spec().sqrt_spec().div_spec(twice(a));
            QuadraticSolution::TwoComplex(
                [Complex { re, im }, Complex { re, im: im.neg_spec() }],
            )
        }
    }
}

/// Solves `a·x² + b·x + c = 0`.
///
/// Total: whatever the coefficients, a solution comes back. A NaN among
/// them goes into the roots and selects no variant of its own.
pub fn quadratic_solve<T: FloatingPoint>(a: T, b: T, c: T) -> (r: QuadraticSolution<T>)
    ensures
        r == quadratic_solution(a, b, c),
{
    proof {
        T::arithmetic_is_total();
    }
    let zero = T::zero();
    if a.equal(zero) || T::from_i64(1_000_000_000_000).mul(a.abs()).less(b.abs()) {
        if b.equal(zero) {
            if c.equal(zero) {
                return QuadraticSolution::AllReals;
            }
            return QuadraticSolution::NoSolution;
        }
        return QuadraticSolution::OneReal(c.neg().div(b));
    }
    let d = b.mul(b).sub(T::from_i64(4).mul(a).mul(c));
    let a2 = T::from_i64(2).mul(a);
    if zero.less(d) {
        let root = d.sqrt();
        QuadraticSolution::TwoReal([b.neg().add(root).div(a2), b.neg().sub(root).div(a2)])
    } else if d.equal(zero) {
        QuadraticSolution::OneReal(b.neg().div(a2))
    } else {
        let first = Complex::new(b.neg().div(a2), d.neg().sqrt().div(a2));
        let second = Complex::new(first.re, first.im.neg());
        QuadraticSolution::TwoComplex([first, second])
    }
}

/// The value of the polynomial `a·x² + b·x + c` at `x`.
pub open spec fn quadratic_at(a: real, b: real, c: real, x: real) -> real {
    a * x * x + b * x + c
}

/// The quadratic formula over the real numbers: where `s` is a square root
/// of the discriminant, `(-b + s) / 2a` solves the equation.
pub proof fn lemma_quadratic_formula(a: real, b: real, c: real, s: real, x: real)
    requires
        a != 0real,
        s * s == b * b - 4real * a * c,
        x == (-b + s) / (2real * a),
    ensures
        quadratic_at(a, b, c, x) == 0real,
{
    assert(x * (2real * a) == -b + s) by (nonlinear_arith)
        requires
            a != 0real,
            x == (-b + s) / (2real * a),
    ;
    assert(a * x * x + b * x + c == 0real) by (nonlinear_arith)
        requires
            x * (2real * a) == -b + s,
            s * s == b * b - 4real * a * c,
            a != 0real,
    ;
}

/// Whether `a·x² + b·x + c = 0` is solved as it stands: as the linear
/// equation that it is where `a` is zero, and as a quadratic one where `a`
/// is not negligible. Where `a` is not zero and yet dropped as negligible,
/// the root of the linear equation is returned, which solves the quadratic
/// one only nearly.
pub open spec fn is_solved_as_it_stands<T: FloatingPoint>(a: T, b: T) -> bool {
    a.equal_spec(T::zero_spec()) || !is_linear(a, b)
}

/// In exact arithmetic every real root that the solution names solves the
/// equation, whenever the equation is solved as it stands.
pub proof fn lemma_quadratic_roots_solve<T: ExactNumber + FloatingPoint>(a: T, b: T, c: T)
    requires
        computes_exactly::<T>(),
        is_solved_as_it_stands(a, b),
    ensures
        forall|i: int|
            0 <= i < quadratic_solution(a, b, c).real_roots().len() ==> quadratic_at(
                a.value(),
                b.value(),
                c.value(),
                (#[trigger] quadratic_solution(a, b, c).real_roots()[i]).value(),
            ) == 0real,
{
    T::arithmetic_is_total();
    T::arithmetic_is_exact();
    let (va, vb, vc) = (a.value(), b.value(), c.value());
    if is_linear(a, b) {
        if !b.equal_spec(T::zero_spec()) {
            let x = c.neg_spec().div_spec(b).value();
            assert(quadratic_at(va, vb, vc, x) == 0real) by (nonlinear_arith)
                requires
                    va == 0real,
                    vb != 0real,
                    x == (-vc) / vb,
            ;
        }
    } else {
        let d = discriminant(a, b, c);
        assert(d.value() == vb * vb - 4real * va * vc);
        assert(twice(a).value() == 2real * va);
        assert(2real * va != 0real);
        if T::zero_spec().less_spec(d) {
            let root = d.sqrt_spec().value();
            lemma_quadratic_formula(va, vb, vc, root, (-vb + root) / (2real * va));
            assert((-root) * (-root) == root * root) by (nonlinear_arith);
            lemma_quadratic_formula(va, vb, vc, -root, (-vb + -root) / (2real * va));
        } else if d.equal_spec(T::zero_spec()) {
            lemma_quadratic_formula(va, vb, vc, 0real, (-vb + 0real) / (2real * va));
        }
    }
}

/// Where `x` solves `a·x² + b·x + c = 0`, the discriminant is the square
/// of `2·a·x + b`.
pub proof fn lemma_discriminant_of_a_root(a: real, b: real, c: real, x: real)
    requires
        quadratic_at(a, b, c, x) == 0real,
    ensures
        b * b - 4real * a * c == (2real * a * x + b) * (2real * a * x + b),
{
    // with u = a·x: the equation is u·x + b·x + c = 0, and the square is
    // 4·a·(u·x + b·x) + b²
    let u = a * x;
    let v = 2real * u + b;
    assert(a * x * x == u * x) by (nonlinear_arith)
        requires
            u == a * x,
    ;
    assert(2real * a * x == 2real * u) by (nonlinear_arith)
        requires
            u == a * x,
    ;
    assert(v * v == 4real * (u * u) + 4real * (u * b) + b * b) by (nonlinear_arith)
        requires
            v == 2real * u + b,
    ;
    assert(u * u == a * (u * x)) by (nonlinear_arith)
        requires
            u == a * x,
    ;
    assert(u * b == a * (b * x)) by (nonlinear_arith)
        requires
            u == a * x,
    ;
    assert(a * (u * x) + a * (b * x) == a * (u * x + b * x)) by (nonlinear_arith);
    assert(a * (u * x + b * x) == -(a * c)) by (nonlinear_arith)
        requires
            u * x + b * x == -c,
    ;
    assert(4real * a * c == 4real * (a * c)) by (nonlinear_arith);
}

/// A number whose square is the square of `s` is `s` or `-s`.
pub proof fn lemma_square_roots(v: real, s: real)
    requires
        v * v == s * s,
    ensures
        v == s || v == -s,
{
    assert(v == s || v == -s) by (nonlinear_arith)
        requires
            v * v == s * s,
    ;
}

/// In exact arithmetic the solution names every real root: a real number
/// that solves the equation, where it is solved as it stands, is one of the
/// roots that the solution names, unless the equation is identically zero,
/// and solved by all.
pub proof fn lemma_quadratic_roots_are_all<T: ExactNumber + FloatingPoint>(a: T, b: T, c: T, x: real)
    requires
        computes_exactly::<T>(),
        is_solved_as_it_stands(a, b),
        quadratic_at(a.value(), b.value(), c.value(), x) == 0real,
    ensures
        quadratic_solution(a, b, c) is AllReals || exists|i: int|
            0 <= i < quadratic_solution(a, b, c).real_roots().len() && (
            #[trigger] quadratic_solution(a, b, c).real_roots()[i]).value() == x,
{
    T::arithmetic_is_total();
    T::arithmetic_is_exact();
    let (va, vb, vc) = (a.value(), b.value(), c.value());
    let roots = quadratic_solution(a, b, c).real_roots();
    if is_linear(a, b) {
        assert(va * x * x == 0real) by (nonlinear_arith)
            requires
                va == 0real,
        ;
        if b.equal_spec(T::zero_spec()) {
            assert(vb * x == 0real) by (nonlinear_arith)
                requires
                    vb == 0real,
            ;
        } else {
            assert(x == (-vc) / vb) by (nonlinear_arith)
                requires
                    vb * x + vc == 0real,
                    vb != 0real,
            ;
            assert(roots[0].value() == x);
        }
    } else {
        let d = discriminant(a, b, c);
        let v = 2real * va * x + vb;
        lemma_discriminant_of_a_root(va, vb, vc, x);
        assert(d.value() == v * v);
        assert(v * v >= 0real) by (nonlinear_arith);
        assert(twice(a).value() == 2real * va);
        assert(x == (-vb + v) / (2real * va)) by (nonlinear_arith)
            requires
                v == 2real * va * x + vb,
                va != 0real,
        ;
        if T::zero_spec().less_spec(d) {
            let s = d.sqrt_spec().value();
            lemma_square_roots(v, s);
            if v == s {
                assert(roots[0].value() == x);
            } else {
                assert(roots[1].value() == x);
            }
        } else {
            assert(d.equal_spec(T::zero_spec()));
            lemma_square_roots(v, 0real);
            assert(roots[0].value() == x);
        }
    }
}

/// The scalars for which quadratic equations are solved: all that are
/// `FloatingPoint`.
pub trait QuadraticFormula: FloatingPoint {
    /// Solves `a·x² + b·x + c = 0`. Unlike a linear or a cubic equation, a
    /// quadratic one need not have a real solution.
    fn quadratic_formula(a: Self, b: Self, c: Self) -> (r: QuadraticSolution<Self>)
        ensures
            r == quadratic_solution(a, b, c),
    ;
}

impl<T: FloatingPoint> QuadraticFormula for T {
    fn quadratic_formula(a: Self, b: Self, c: Self) -> (r: QuadraticSolution<Self>) {
        quadratic_solve(a, b, c)
    }
}

/// A quadratic Bézier curve and a point, in the form in which the distance
/// between them is computed in closed form: the curve is
/// `d + (c + b·t)·t` as seen from the point, and the parameters at which
/// its distance to the point is stationary solve a cubic equation with the
/// coefficients `kx`, `ky` and `kz`.
pub struct BezierFrame<T> {
    pub a: Vector2<T>,
    pub b: Vector2<T>,
    pub c: Vector2<T>,
    pub d: Vector2<T>,
    pub kx: T,
    pub ky: T,
    pub kz: T,
}

impl<T: FloatingPoint> BezierFrame<T> {
    /// The frame of the curve `v0`, `v1`, `v2` seen from `pos`:
    /// `a = v1 - v0`, `b = v0 - 2·v1 + v2`, `c = 2·a`, `d = v0 - pos`, and
    /// with `kk = 1 / b·b` the coefficients `kx = kk·(a·b)`,
    /// `ky = kk·(2·a·a + d·b) / 3` and `kz = kk·(d·a)`.
    pub open spec fn of(pos: Vector2<T>, v0: Vector2<T>, v1: Vector2<T>, v2: Vector2<T>) -> Self {
        let two = T::from_i64_spec(2);
        let a = v1.sub_spec(v0);
        let b = v0.sub_spec(v1.mul_scalar_spec(two)).add_spec(v2);
        let c = a.mul_scalar_spec(two);
        let d = v0.sub_spec(pos);
        let kk = T::one_spec().div_spec(b.dot_spec(b));
        BezierFrame {
            a,
            b,
            c,
            d,
            kx: kk.mul_spec(a.dot_spec(b)),
            ky: kk.mul_spec(two.mul_spec(a.dot_spec(a)).add_spec(d.dot_spec(b))).div_spec(
                T::from_i64_spec(3),
            ),
            kz: kk.mul_spec(d.dot_spec(a)),
        }
    }

    fn new(pos: Vector2<T>, v0: Vector2<T>, v1: Vector2<T>, v2: Vector2<T>) -> (f: Self)
        ensures
            f == Self::of(pos, v0, v1, v2),
    {
        proof {
            T::arithmetic_is_total();
        }
        let two = T::from_i64(2);
        let a = v1.sub(v0);
        let b = v0.sub(v1.mul_scalar(two)).add(v2);
        let c = a.mul_scalar(two);
        let d = v0.sub(pos);
        let kk = T::one().div(b.dot(&b));
        BezierFrame {
            a,
            b,
            c,
            d,
            kx: kk.mul(a.dot(&b)),
            ky: kk.mul(two.mul(a.dot(&a)).add(d.dot(&b))).div(T::from_i64(3)),
            kz: kk.mul(d.dot(&a)),
        }
    }

    /// The vector from the point to the curve at `t`: `d + (c + b·t)·t`.
    pub open spec fn offset_at(self, t: T) -> Vector2<T> {
        self.d.add_spec(self.c.add_spec(self.b.mul_scalar_spec(t)).mul_scalar_spec(t))
    }

    /// The cross product of the tangent at `t`, `c + 2·b·t`, and the offset
    /// there: its sign tells the side of the curve.
    pub open spec fn side_at(self, t: T) -> T {
        self.c.add_spec(
            self.b.mul_scalar_spec(t).mul_scalar_spec(T::from_i64_spec(2)),
        ).cross_spec(self.offset_at(t))
    }

    /// `p = ky - kx²` of the depressed cubic.
    pub open spec fn p(self) -> T {
        self.ky.sub_spec(self.kx.mul_spec(self.kx))
    }

    /// `q = kx·(2·kx² - 3·ky) + kz` of the depressed cubic.
    pub open spec fn q(self) -> T {
        self.kx.mul_spec(
            T::from_i64_spec(2).mul_spec(self.kx).mul_spec(self.kx).sub_spec(
                T::from_i64_spec(3).mul_spec(self.ky),
            ),
        ).add_spec(self.kz)
    }

    /// The discriminant `h = q² + 4·p³`: where it is not negative the cubic
    /// has one real root.
    pub open spec fn h(self) -> T {
        self.q().mul_spec(self.q()).add_spec(
            T::from_i64_spec(4).mul_spec(self.p().mul_spec(self.p()).mul_spec(self.p())),
        )
    }

    /// The two numbers whose cube roots make up the one real root:
    /// `(√h - q) / 2` and `(-√h - q) / 2`; and where `|p| < 1/1000`, and the
    /// first of these would be the difference of two nearly equal numbers,
    /// `k = p³ / q` and `-k - q` in their place.
    pub open spec fn cardano_pair(self) -> Vector2<T> {
        let root = self.h().sqrt_spec();
        if self.p().abs_spec().less_spec(T::one_spec().div_spec(T::from_i64_spec(1000))) {
            let k = self.p().mul_spec(self.p()).mul_spec(self.p()).div_spec(self.q());
            Vector2 { x: k, y: k.neg_spec().sub_spec(self.q()) }
        } else {
            Vector2 { x: root, y: root.neg_spec() }.sub_scalar_spec(self.q()).div_scalar_spec(
                T::from_i64_spec(2),
            )
        }
    }

    /// The parameter of the nearest point where the cubic has one real
    /// root: the sum of the real cube roots of the `cardano_pair`, less
    /// `kx`, held between zero and one.
    pub open spec fn single_parameter(self) -> T {
        let x = self.cardano_pair();
        let uv = x.signum_spec().mul_spec(
            x.abs_spec().pow_spec(Vector2::splat_spec(T::one_spec().div_spec(T::from_i64_spec(3)))),
        );
        held_between(uv.x.add_spec(uv.y).sub_spec(self.kx), T::zero_spec(), T::one_spec())
    }

    /// The parameters of the three stationary points where the cubic has
    /// three real roots, in trigonometric form, held as a vector between
    /// the vector of zeros and the vector of ones in the order of vectors.
    pub open spec fn triple_parameters(self) -> Vector3<T> {
        let z = self.p().neg_spec().sqrt_spec();
        let v = self.q().div_spec(
            self.p().mul_spec(z).mul_spec(T::from_i64_spec(2)),
        ).acos_spec().div_spec(T::from_i64_spec(3));
        let m = v.cos_spec();
        let n = v.sin_spec().mul_spec(root_of_three::<T>());
        Vector3 { x: m.add_spec(m), y: n.neg_spec().sub_spec(m), z: n.sub_spec(m) }.mul_scalar_spec(
            z,
        ).sub_scalar_spec(self.kx).clamp_spec(
            Vector3::splat_spec(T::zero_spec()),
            Vector3::splat_spec(T::one_spec()),
        )
    }

    /// The signed distance from the point to the curve: where `h ≥ 0`,
    /// that to the curve's point at the `single_parameter`; else that to
    /// the nearer of the curve's points at the first two of the
    /// `triple_parameters`, the second of them where both are as near. Its
    /// magnitude is the length of the offset there, its sign that of
    /// `side_at`.
    pub open spec fn signed_distance(self) -> T {
        if T::zero_spec().less_equal_spec(self.h()) {
            let t = self.single_parameter();
            self.offset_at(t).dot_spec(self.offset_at(t)).sqrt_spec().mul_spec(
                self.side_at(t).signum_spec(),
            )
        } else {
            let t = self.triple_parameters();
            let dx = self.offset_at(t.x).dot_spec(self.offset_at(t.x));
            let dy = self.offset_at(t.y).dot_spec(self.offset_at(t.y));
            if dx.less_spec(dy) {
                dx.sqrt_spec().mul_spec(self.side_at(t.x).signum_spec())
            } else {
                dy.sqrt_spec().mul_spec(self.side_at(t.y).signum_spec())
            }
        }
    }

    fn offset(&self, t: T) -> (r: Vector2<T>)
        ensures
            r == self.offset_at(t),
    {
        proof {
            T::arithmetic_is_total();
        }
        self.d.add(self.c.add(self.b.mul_scalar(t)).mul_scalar(t))
    }

    fn side(&self, t: T) -> (r: T)
        ensures
            r == self.side_at(t),
    {
        proof {
            T::arithmetic_is_total();
        }
        self.c.add(self.b.mul_scalar(t).mul_scalar(T::from_i64(2))).cross(self.offset(t))
    }
}

/// `input` held between `min` and `max`: `min` if it is less, else `max`
/// if it is more, else itself.
pub open spec fn held_between<T: Number>(input: T, min: T, max: T) -> T {
    if input.less_spec(min) {
        min
    } else if max.less_spec(input) {
        max
    } else {
        input
    }
}

/// Holds `input` between `min` and `max`.
pub fn clamp<T: Number>(input: T, min: T, max: T) -> (r: T)
    ensures
        r == held_between(input, min, max),
{
    if input.less(min) {
        min
    } else if max.less(input) {
        max
    } else {
        input
    }
}

/// The square root of three to ten digits, `1.732050808`, as the quotient
/// of two integers.
pub open spec fn root_of_three<T: FloatingPoint>() -> T {
    T::from_i64_spec(1_732_050_808).div_spec(T::from_i64_spec(1_000_000_000))
}

/// The signed distance from `pos` to the quadratic Bézier curve of the
/// control points `v0`, `v1`, `v2`, by the closed form of the cubic
/// equation.
pub fn sd_bezier<T: FloatingPoint>(
    pos: Vector2<T>,
    v0: Vector2<T>,
    v1: Vector2<T>,
    v2: Vector2<T>,
) -> (r: T)
    ensures
        r == BezierFrame::of(pos, v0, v1, v2).signed_distance(),
{
    proof {
        T::arithmetic_is_total();
        T::zero_is_below_one();
    }
    let frame = BezierFrame::new(pos, v0, v1, v2);
    let kx = frame.kx;
    let ky = frame.ky;
    let kz = frame.kz;
    let two = T::from_i64(2);
    let three = T::from_i64(3);
    let p = ky.sub(kx.mul(kx));
    let q = kx.mul(two.mul(kx).mul(kx).sub(three.mul(ky))).add(kz);
    let p_cubed = p.mul(p).mul(p);
    let q_squared = q.mul(q);
    let h = q_squared.add(T::from_i64(4).mul(p_cubed));
    let res;
    let sgn;
    if T::zero().less_equal(h) {
        let h = h.sqrt();
        let mut x = Vector2::new(h, h.neg()).sub_scalar(q).div_scalar(two);
        if p.abs().less(T::one().div(T::from_i64(1000))) {
            let k = p_cubed.div(q);
            x = Vector2::new(k, k.neg().sub(q));
        }
        let uv = x.signum().mul(x.abs().pow(Vector2::from(T::one().div(three))));
        let t = clamp(uv.x.add(uv.y).sub(kx), T::zero(), T::one());
        let q = frame.offset(t);
        res = q.dot(&q);
        sgn = frame.side(t);
    } else {
        let z = p.neg().sqrt();
        let v = q.div(p.mul(z).mul(two)).acos().div(three);
        let m = v.cos();
        let n = v.sin().mul(T::from_i64(1_732_050_808).div(T::from_i64(1_000_000_000)));
        let mut t = Vector3::new(m.add(m), n.neg().sub(m), n.sub(m)).mul_scalar(z).sub_scalar(kx);
        t = t.clamp(Vector3::from(T::zero()), Vector3::from(T::one()));
        let qx = frame.offset(t.x);
        let dx = qx.dot(&qx);
        let sx = frame.side(t.x);
        let qy = frame.offset(t.y);
        let dy = qy.dot(&qy);
        let sy = frame.side(t.y);
        if dx.less(dy) {
            res = dx;
            sgn = sx;
        } else {
            res = dy;
            sgn = sy;
        }
    }
    res.sqrt().mul(sgn.signum())
}

} // verus!
