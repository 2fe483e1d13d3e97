use vstd::prelude::*;
use crate::linear::traits::FloatingPoint;
use crate::linear::traits::Number;
use crate::linear::traits::SignedNumber;

verus! {

/// A scalar that stands for a real number and computes without error:
/// wherever an operation may be applied, its result stands for the result
/// of the same operation on the real numbers. The machine integers are such
/// scalars. A type that rounds is none.
pub trait ExactNumber: Number {
    /// The real number that the scalar stands for.
    spec fn value(self) -> real;

    /// Two scalars that stand for the same number are the same.
    proof fn value_is_injective(a: Self, b: Self)
        requires
            a.value() == b.value(),
        ensures
            a == b,
    ;

    /// Zero, one, the sum, the difference, the product and the order are
    /// those of the real numbers.
    proof fn arithmetic_is_exact()
        ensures
            Self::zero_spec().value() == 0real,
            Self::one_spec().value() == 1real,
            forall|a: Self, b: Self|
                #![trigger a.add_spec(b)]
                a.add_req(b) ==> a.add_spec(b).value() == a.value() + b.value(),
            forall|a: Self, b: Self|
                #![trigger a.sub_spec(b)]
                a.sub_req(b) ==> a.sub_spec(b).value() == a.value() - b.value(),
            forall|a: Self, b: Self|
                #![trigger a.mul_spec(b)]
                a.mul_req(b) ==> a.mul_spec(b).value() == a.value() * b.value(),
            forall|a: Self, b: Self|
                #![trigger a.equal_spec(b)]
                a.equal_spec(b) <==> a.value() == b.value(),
            forall|a: Self, b: Self|
                #![trigger a.less_spec(b)]
                a.less_spec(b) <==> a.value() < b.value(),
            forall|a: Self, b: Self|
                #![trigger a.less_equal_spec(b)]
                a.less_equal_spec(b) <==> a.value() <= b.value(),
    ;

    /// What changes nothing can be done to every scalar: zero may be added
    /// to it, and it may be multiplied by zero and by one.
    proof fn identities_apply(a: Self)
        ensures
            a.add_req(Self::zero_spec()),
            a.mul_req(Self::zero_spec()),
            a.mul_req(Self::one_spec()),
    ;

    /// A difference may be added to what was taken off.
    proof fn difference_adds_back(a: Self, b: Self)
        requires
            b.sub_req(a),
        ensures
            a.add_req(b.sub_spec(a)),
    ;
}

/// Whether the floating-point scalar `T` computes quotients, negations,
/// absolute values, signs, whole numbers and roots without error: the
/// quotient by what is not zero, the negation, the absolute value and the
/// integers are those of the real numbers; the sign is one for a positive
/// number, minus one for a negative one, and one of the two for zero; the
/// square root of a number that is not negative is the one that is not
/// negative either; and the cube root is the real one.
///
/// A floating-point type comes near this, and rounds. The formulas of this
/// library are written for a scalar of which it holds.
pub open spec fn computes_exactly<T: ExactNumber + FloatingPoint>() -> bool {
    &&& forall|a: T, b: T|
        #![trigger a.div_spec(b)]
        b.value() != 0real ==> a.div_spec(b).value() == a.value() / b.value()
    &&& forall|a: T| #![trigger a.neg_spec()] a.neg_spec().value() == -a.value()
    &&& forall|a: T|
        #![trigger a.abs_spec()]
        a.abs_spec().value() == if a.value() < 0real {
            -a.value()
        } else {
            a.value()
        }
    &&& forall|a: T|
        #![trigger a.signum_spec()]
        {
            &&& a.signum_spec().value() == 1real || a.signum_spec().value() == -1real
            &&& a.value() > 0real ==> a.signum_spec().value() == 1real
            &&& a.value() < 0real ==> a.signum_spec().value() == -1real
        }
    &&& forall|n: i64| #![trigger T::from_i64_spec(n)] T::from_i64_spec(n).value() == n as real
    &&& forall|a: T|
        #![trigger a.sqrt_spec()]
        a.value() >= 0real ==> a.sqrt_spec().value() >= 0real && a.sqrt_spec().value()
            * a.sqrt_spec().value() == a.value()
    &&& forall|a: T|
        #![trigger a.cbrt_spec()]
        a.cbrt_spec().value() * a.cbrt_spec().value() * a.cbrt_spec().value() == a.value()
}

/// Whether the floating-point scalar `T` computes cosines and arc cosines
/// without error, `cosine` being the cosine of the real numbers: the
/// cosine that `T` computes is `cosine`; the arc cosine of a number between
/// minus one and one is an angle with that cosine; and `cosine` is what it
/// is called, as far as it is needed here, in that
/// `cos 3x = 4·cos³ x - 3·cos x`, and that a full turn, which is twice the
/// scalar `pi`, changes no cosine.
pub open spec fn computes_cosines<T: ExactNumber + FloatingPoint>(
    cosine: spec_fn(real) -> real,
) -> bool {
    &&& forall|a: T| #![trigger a.cos_spec()] a.cos_spec().value() == cosine(a.value())
    &&& forall|a: T|
        #![trigger a.acos_spec()]
        -1real <= a.value() <= 1real ==> cosine(a.acos_spec().value()) == a.value()
    &&& forall|x: real, y: real|
        #![trigger cosine(x), cosine(y)]
        y == 3real * x ==> cosine(y) == 4real * cosine(x) * cosine(x) * cosine(x) - 3real
            * cosine(x)
    &&& forall|x: real, y: real|
        #![trigger cosine(x), cosine(y)]
        y == x + 2real * T::pi_spec().value() ==> cosine(y) == cosine(x)
}

/// The product of two integers stands for the product of the real numbers
/// that the two stand for.
pub proof fn lemma_product_of_integers(a: int, b: int)
    ensures
        (a * b) as real == (a as real) * (b as real),
    decreases (if b >= 0 { b } else { -b }),
{
    if b == 0 {
        assert(a * b == 0) by (nonlinear_arith)
            requires
                b == 0,
        ;
        assert((a as real) * (b as real) == 0real) by (nonlinear_arith)
            requires
                b as real == 0real,
        ;
    } else if b > 0 {
        lemma_product_of_integers(a, b - 1);
        assert(a * b == a * (b - 1) + a) by (nonlinear_arith);
        assert((a as real) * (b as real) == (a as real) * ((b - 1) as real) + (a as real))
            by (nonlinear_arith)
            requires
                b as real == (b - 1) as real + 1real,
        ;
    } else {
        lemma_product_of_integers(a, b + 1);
        assert(a * b == a * (b + 1) - a) by (nonlinear_arith);
        assert((a as real) * (b as real) == (a as real) * ((b + 1) as real) - (a as real))
            by (nonlinear_arith)
            requires
                b as real == (b + 1) as real - 1real,
        ;
    }
}

} // verus!
