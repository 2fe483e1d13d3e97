use vstd::prelude::*;

verus! {

/// The arithmetic and ordering that every scalar of this library offers.
///
/// Each operation comes as a triple: a condition under which it may be
/// applied (`*_req`), the value it yields (`*_spec`), and the executable
/// method itself. For a machine integer the condition rules out overflow and
/// division by zero; for an IEEE-754 type every condition is `true`.
///
/// The comparisons are those of the scalar itself, not structural equality:
/// an IEEE-754 type compares `-0.0` equal to `0.0` and a NaN unequal to
/// everything.
///
/// A type of an unverified crate becomes a scalar by writing out all of
/// this: each condition as a function that tells whether the operation can
/// be done, each value by the operation itself, and each law as a function
/// that does nothing.
pub trait Number: Copy + Sized {
    /// The additive identity.
    spec fn zero_spec() -> Self;

    /// The multiplicative identity.
    spec fn one_spec() -> Self;

    spec fn add_req(self, rhs: Self) -> bool;

    spec fn add_spec(self, rhs: Self) -> Self;

    spec fn sub_req(self, rhs: Self) -> bool;

    spec fn sub_spec(self, rhs: Self) -> Self;

    spec fn mul_req(self, rhs: Self) -> bool;

    spec fn mul_spec(self, rhs: Self) -> Self;

    spec fn div_req(self, rhs: Self) -> bool;

    spec fn div_spec(self, rhs: Self) -> Self;

    spec fn rem_req(self, rhs: Self) -> bool;

    spec fn rem_spec(self, rhs: Self) -> Self;

    /// `self == rhs` in the scalar's own sense.
    spec fn equal_spec(self, rhs: Self) -> bool;

    /// `self < rhs`.
    spec fn less_spec(self, rhs: Self) -> bool;

    /// `self <= rhs`.
    spec fn less_equal_spec(self, rhs: Self) -> bool;

    /// Zero lies below one, and the two differ.
    proof fn zero_is_below_one()
        ensures
            Self::zero_spec().less_spec(Self::one_spec()),
            !Self::one_spec().equal_spec(Self::zero_spec()),
    ;

    fn zero() -> (r: Self)
        ensures
            r == Self::zero_spec(),
    ;

    fn one() -> (r: Self)
        ensures
            r == Self::one_spec(),
    ;

    fn add(self, rhs: Self) -> (r: Self)
        requires
            self.add_req(rhs),
        ensures
            r == self.add_spec(rhs),
    ;

    fn sub(self, rhs: Self) -> (r: Self)
        requires
            self.sub_req(rhs),
        ensures
            r == self.sub_spec(rhs),
    ;

    fn mul(self, rhs: Self) -> (r: Self)
        requires
            self.mul_req(rhs),
        ensures
            r == self.mul_spec(rhs),
    ;

    fn div(self, rhs: Self) -> (r: Self)
        requires
            self.div_req(rhs),
        ensures
            r == self.div_spec(rhs),
    ;

    fn rem(self, rhs: Self) -> (r: Self)
        requires
            self.rem_req(rhs),
        ensures
            r == self.rem_spec(rhs),
    ;

    fn equal(self, rhs: Self) -> (r: bool)
        ensures
            r == self.equal_spec(rhs),
    ;

    fn less(self, rhs: Self) -> (r: bool)
        ensures
            r == self.less_spec(rhs),
    ;

    fn less_equal(self, rhs: Self) -> (r: bool)
        ensures
            r == self.less_equal_spec(rhs),
    ;
}

/// A scalar with negative values.
pub trait SignedNumber: Number {
    spec fn neg_req(self) -> bool;

    spec fn neg_spec(self) -> Self;

    spec fn abs_req(self) -> bool;

    spec fn abs_spec(self) -> Self;

    /// The sign of the value as a scalar.
    spec fn signum_spec(self) -> Self;

    /// Minus one exists and is not zero.
    proof fn minus_one_is_not_zero()
        ensures
            Self::one_spec().neg_req(),
            !Self::one_spec().neg_spec().equal_spec(Self::zero_spec()),
    ;

    fn neg(self) -> (r: Self)
        requires
            self.neg_req(),
        ensures
            r == self.neg_spec(),
    ;

    fn abs(self) -> (r: Self)
        requires
            self.abs_req(),
        ensures
            r == self.abs_spec(),
    ;

    fn signum(self) -> (r: Self)
        ensures
            r == self.signum_spec(),
    ;
}

/// A scalar without negative values.
pub trait UnsignedNumber: Number {
    /// Nothing lies below zero.
    proof fn zero_is_least(a: Self)
        ensures
            Self::zero_spec().less_equal_spec(a),
    ;
}

/// A scalar in the manner of IEEE-754: closed under arithmetic, with square
/// and cube roots and the trigonometric functions.
///
/// Each function is a function of its arguments alone; what it returns on a
/// given argument is the implementing type's business.
pub trait FloatingPoint: SignedNumber {
    spec fn sqrt_spec(self) -> Self;

    spec fn cbrt_spec(self) -> Self;

    spec fn sin_spec(self) -> Self;

    spec fn cos_spec(self) -> Self;

    spec fn asin_spec(self) -> Self;

    spec fn acos_spec(self) -> Self;

    /// The angle of the point `(other, self)`, as `atan2` of the standard
    /// library takes its arguments.
    spec fn atan2_spec(self, other: Self) -> Self;

    spec fn powf_spec(self, n: Self) -> Self;

    /// The scalar nearest to the integer `n`.
    spec fn from_i64_spec(n: i64) -> Self;

    /// The scalar nearest to the circle constant.
    spec fn pi_spec() -> Self;

    /// No arithmetic operation of such a scalar can fail: overflow gives an
    /// infinity, an undefined result a NaN.
    proof fn arithmetic_is_total()
        ensures
            forall|a: Self, b: Self| #[trigger] a.add_req(b),
            forall|a: Self, b: Self| #[trigger] a.sub_req(b),
            forall|a: Self, b: Self| #[trigger] a.mul_req(b),
            forall|a: Self, b: Self| #[trigger] a.div_req(b),
            forall|a: Self, b: Self| #[trigger] a.rem_req(b),
            forall|a: Self| #[trigger] a.neg_req(),
            forall|a: Self| #[trigger] a.abs_req(),
    ;

    fn sqrt(self) -> (r: Self)
        ensures
            r == self.sqrt_spec(),
    ;

    fn cbrt(self) -> (r: Self)
        ensures
            r == self.cbrt_spec(),
    ;

    fn sin(self) -> (r: Self)
        ensures
            r == self.sin_spec(),
    ;

    fn cos(self) -> (r: Self)
        ensures
            r == self.cos_spec(),
    ;

    fn asin(self) -> (r: Self)
        ensures
            r == self.asin_spec(),
    ;

    fn acos(self) -> (r: Self)
        ensures
            r == self.acos_spec(),
    ;

    fn atan2(self, other: Self) -> (r: Self)
        ensures
            r == self.atan2_spec(other),
    ;

    fn powf(self, n: Self) -> (r: Self)
        ensures
            r == self.powf_spec(n),
    ;

    fn from_i64(n: i64) -> (r: Self)
        ensures
            r == Self::from_i64_spec(n),
    ;

    fn pi() -> (r: Self)
        ensures
            r == Self::pi_spec(),
    ;
}

/// One half, as the scalar computes it: `1 / 2`.
pub open spec fn half_spec<T: FloatingPoint>() -> T {
    T::one_spec().div_spec(T::from_i64_spec(2))
}

/// One half.
pub fn half<T: FloatingPoint>() -> (r: T)
    ensures
        r == half_spec::<T>(),
{
    proof {
        T::arithmetic_is_total();
    }
    T::one().div(T::from_i64(2))
}

} // verus!
