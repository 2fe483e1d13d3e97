use vstd::prelude::*;

verus! {

/// The value of the polynomial `a·x³ + b·x² + c·x + d` at `x`.
pub open spec fn cubic_at(a: real, b: real, c: real, d: real, x: real) -> real {
    a * x * x * x + b * x * x + c * x + d
}

/// The value of the depressed cubic `t³ + 3·q·t - 2·r` at `t`.
pub open spec fn depressed_at(q: real, r: real, t: real) -> real {
    t * t * t + 3real * q * t - 2real * r
}

/// Two real numbers with the same cube are the same.
pub proof fn lemma_cube_is_injective(x: real, y: real)
    requires
        x * x * x == y * y * y,
    ensures
        x == y,
{
    assert(x == y) by (nonlinear_arith)
        requires
            x * x * x == y * y * y,
    ;
}

/// The substitution `x = t - b/3` takes `x³ + b·x² + c·x + d` to the
/// depressed cubic in `t` with Cardano's `q` and `r`.
pub proof fn lemma_depressed_cubic(b: real, c: real, d: real, q: real, r: real, t: real, x: real)
    requires
        q == (3real * c - b * b) / 9real,
        r == (9real * b * c - 27real * d - 2real * (b * b * b)) / 54real,
        x == t - b / 3real,
    ensures
        cubic_at(1real, b, c, d, x) == depressed_at(q, r, t),
{
    let s = b / 3real;
    let (tt, ts, ss) = (t * t, t * s, s * s);
    let (tts, tss, sss) = (tt * s, t * ss, ss * s);
    // the powers of x = t - s
    assert(x * x == tt - 2real * ts + ss) by (nonlinear_arith)
        requires
            x == t - s,
            tt == t * t,
            ts == t * s,
            ss == s * s,
    ;
    assert(x * x * x == tt * t - 3real * tts + 3real * tss - sss) by (nonlinear_arith)
        requires
            x * x == tt - 2real * ts + ss,
            x == t - s,
            tt == t * t,
            ts == t * s,
            ss == s * s,
            tts == tt * s,
            tss == t * ss,
            sss == ss * s,
    ;
    assert(b * x * x == 3real * tts - 6real * tss + 3real * sss) by (nonlinear_arith)
        requires
            b == 3real * s,
            x * x == tt - 2real * ts + ss,
            tts == tt * s,
            tss == t * ss,
            sss == ss * s,
            ts == t * s,
            ss == s * s,
    ;
    assert(c * x == c * t - c * s) by (nonlinear_arith)
        requires
            x == t - s,
    ;
    // the coefficients of the depressed cubic
    assert(b * b == 9real * ss) by (nonlinear_arith)
        requires
            b == 3real * s,
            ss == s * s,
    ;
    assert(b * b * b == 27real * sss) by (nonlinear_arith)
        requires
            b * b == 9real * ss,
            b == 3real * s,
            sss == ss * s,
    ;
    assert(b * c == 3real * (c * s)) by (nonlinear_arith)
        requires
            b == 3real * s,
    ;
    assert(9real * b * c == 9real * (b * c)) by (nonlinear_arith);
    assert(3real * q == c - 3real * ss);
    assert(2real * r == c * s - d - 2real * sss);
    assert(3real * q * t == c * t - 3real * tss) by (nonlinear_arith)
        requires
            3real * q == c - 3real * ss,
            tss == t * ss,
    ;
}

/// The cube of a sum: `(s + t)³ = s³ + t³ + 3·s·t·(s + t)`.
pub proof fn lemma_cube_of_sum(s: real, t: real)
    ensures
        (s + t) * (s + t) * (s + t) == s * s * s + t * t * t + 3real * (s * t) * (s + t),
{
    assert((s + t) * (s + t) * (s + t) == s * s * s + t * t * t + 3real * (s * t) * (s + t))
        by (nonlinear_arith);
}

/// The cube of a product is the product of the cubes.
pub proof fn lemma_cube_of_product(s: real, t: real)
    ensures
        (s * t) * (s * t) * (s * t) == (s * s * s) * (t * t * t),
{
    let p = s * t;
    assert(p * p == (s * s) * (t * t)) by (nonlinear_arith)
        requires
            p == s * t,
    ;
    assert(p * p * p == ((s * s) * (t * t)) * (s * t)) by (nonlinear_arith)
        requires
            p * p == (s * s) * (t * t),
            p == s * t,
    ;
    assert(((s * s) * (t * t)) * (s * t) == ((s * s) * s) * ((t * t) * t)) by (nonlinear_arith);
}

/// The cube of a negation is the negation of the cube.
pub proof fn lemma_cube_of_negation(x: real)
    ensures
        (-x) * (-x) * (-x) == -(x * x * x),
{
    assert((-x) * (-x) == x * x) by (nonlinear_arith);
    assert((x * x) * (-x) == -(x * x * x)) by (nonlinear_arith);
}

/// Cardano's formula: where `w` is a square root of `q³ + r²`, and `s` and
/// `t` are the cube roots of `r + w` and `r - w`, their sum solves the
/// depressed cubic.
pub proof fn lemma_cardano_sum(q: real, r: real, w: real, s: real, t: real)
    requires
        w * w == q * q * q + r * r,
        s * s * s == r + w,
        t * t * t == r - w,
    ensures
        depressed_at(q, r, s + t) == 0real,
{
    // the product of the two cube roots is -q, for its cube is -q³
    let (s3, t3) = (s * s * s, t * t * t);
    lemma_cube_of_product(s, t);
    assert(s3 * t3 == r * r - w * w) by (nonlinear_arith)
        requires
            s3 == r + w,
            t3 == r - w,
    ;
    lemma_cube_of_negation(q);
    lemma_cube_is_injective(s * t, -q);
    // and so the cube of the sum is 2·r - 3·q·(s + t)
    lemma_cube_of_sum(s, t);
    assert(3real * (s * t) * (s + t) == -(3real * q * (s + t))) by (nonlinear_arith)
        requires
            s * t == -q,
    ;
}

/// Where `q³ + r²` is zero and `m` is the cube root of `r`, the depressed
/// cubic has the simple root `2·m` and the doubled root `-m`.
pub proof fn lemma_cardano_doubled(q: real, r: real, m: real)
    requires
        q * q * q + r * r == 0real,
        m * m * m == r,
    ensures
        depressed_at(q, r, 2real * m) == 0real,
        depressed_at(q, r, -m) == 0real,
{
    // q·m is -r, for its cube is -r³
    let (q3, m3) = (q * q * q, m * m * m);
    lemma_cube_of_product(q, m);
    assert(q3 * m3 == -(r * r * r)) by (nonlinear_arith)
        requires
            q3 == -(r * r),
            m3 == r,
    ;
    lemma_cube_of_negation(r);
    lemma_cube_is_injective(q * m, -r);
    // the simple root
    let d = 2real * m;
    assert(d * d * d == 8real * (m * m * m)) by (nonlinear_arith)
        requires
            d == 2real * m,
    ;
    assert(3real * q * d == 6real * (q * m)) by (nonlinear_arith)
        requires
            d == 2real * m,
    ;
    // the doubled root
    lemma_cube_of_negation(m);
    assert(3real * q * (-m) == -(3real * (q * m))) by (nonlinear_arith);
}

/// Where `q³ + r²` is negative, `r / √(-q³)` lies between minus one and one:
/// it is the cosine of an angle.
pub proof fn lemma_cosine_in_range(q: real, r: real, v: real)
    requires
        q * q * q + r * r < 0real,
        v >= 0real,
        v * v == -(q * q * q),
    ensures
        v > 0real,
        -1real <= r / v <= 1real,
{
    assert(v > 0real) by (nonlinear_arith)
        requires
            q * q * q + r * r < 0real,
            v >= 0real,
            v * v == -(q * q * q),
    ;
    let c = r / v;
    assert(c * v == r) by (nonlinear_arith)
        requires
            c == r / v,
            v > 0real,
    ;
    assert(-1real <= c <= 1real) by (nonlinear_arith)
        requires
            c * v == r,
            r * r < v * v,
            v > 0real,
    ;
}

/// The trigonometric form: where `q³ + r²` is negative, `w = √(-q)`,
/// `v = √(-q³)`, and `k` is the cosine of an angle whose triple has the
/// cosine `r / v`, so that `4·k³ - 3·k = r / v`, the depressed cubic has
/// the root `2·w·k`.
pub proof fn lemma_trigonometric_root(q: real, r: real, w: real, v: real, k: real)
    requires
        q * q * q + r * r < 0real,
        w >= 0real,
        w * w == -q,
        v >= 0real,
        v * v == -(q * q * q),
        4real * k * k * k - 3real * k == r / v,
    ensures
        depressed_at(q, r, 2real * w * k) == 0real,
{
    lemma_cosine_in_range(q, r, v);
    // v is the cube of w: both are not negative, and their squares are -q³
    let u = w * w * w;
    lemma_cube_of_product(w, w);
    lemma_cube_of_negation(q);
    assert((w * w) * (w * w) * (w * w) == -(q * q * q)) by (nonlinear_arith)
        requires
            w * w == -q,
            (-q) * (-q) * (-q) == -(q * q * q),
    ;
    assert(u * u == (w * w * w) * (w * w * w));
    assert(w * w >= 0real) by (nonlinear_arith);
    assert(u >= 0real) by (nonlinear_arith)
        requires
            u == (w * w) * w,
            w * w >= 0real,
            w >= 0real,
    ;
    assert(u == v) by (nonlinear_arith)
        requires
            u * u == v * v,
            u >= 0real,
            v >= 0real,
    ;
    // the cosine of the triple angle, times v, is r
    let c3 = r / v;
    assert(c3 * v == r) by (nonlinear_arith)
        requires
            c3 == r / v,
            v > 0real,
    ;
    // the root, its cube, and the linear term
    let k3 = k * k * k;
    let t = 2real * w * k;
    lemma_cube_of_product(w, k);
    assert(t == 2real * (w * k)) by (nonlinear_arith)
        requires
            t == 2real * w * k,
    ;
    assert(t * t * t == 8real * ((w * k) * (w * k) * (w * k))) by (nonlinear_arith)
        requires
            t == 2real * (w * k),
    ;
    assert(t * t * t == 8real * (v * k3));
    assert(3real * q * t == -(6real * (v * k))) by (nonlinear_arith)
        requires
            t == 2real * w * k,
            q == -(w * w),
            v == (w * w) * w,
    ;
    assert(v * (4real * k3 - 3real * k) == 4real * (v * k3) - 3real * (v * k))
        by (nonlinear_arith);
    assert(4real * k * k * k == 4real * k3) by (nonlinear_arith)
        requires
            k3 == k * k * k,
    ;
    assert(v * c3 == r) by (nonlinear_arith)
        requires
            c3 * v == r,
    ;
}

/// A root of the cubic divided through by `a` is a root of the cubic.
pub proof fn lemma_scaled_cubic(a: real, b: real, c: real, d: real, x: real)
    requires
        a != 0real,
        cubic_at(1real, b / a, c / a, d / a, x) == 0real,
    ensures
        cubic_at(a, b, c, d, x) == 0real,
{
    let (bn, cn, dn) = (b / a, c / a, d / a);
    assert(bn * a == b && cn * a == c && dn * a == d) by (nonlinear_arith)
        requires
            a != 0real,
            bn == b / a,
            cn == c / a,
            dn == d / a,
    ;
    assert(a * x * x * x + b * x * x + c * x + d == a * (1real * x * x * x + bn * x * x + cn * x
        + dn)) by (nonlinear_arith)
        requires
            bn * a == b,
            cn * a == c,
            dn * a == d,
    ;
    assert(a * (1real * x * x * x + bn * x * x + cn * x + dn) == 0real) by (nonlinear_arith)
        requires
            1real * x * x * x + bn * x * x + cn * x + dn == 0real,
    ;
}

} // verus!
