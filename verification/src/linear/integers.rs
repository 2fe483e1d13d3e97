use vstd::prelude::*;
use crate::linear::exact::lemma_product_of_integers;
use crate::linear::exact::ExactNumber;
use crate::linear::traits::Number;
use crate::linear::traits::SignedNumber;
use crate::linear::traits::UnsignedNumber;

verus! {

/// `num_traits::Zero::zero` for `i32`, which num-traits defines as `0`.
#[verifier::external_body]
fn zero_i32() -> (r: i32)
    ensures
        r == 0,
{
    num_traits::Zero::zero()
}

/// `num_traits::One::one` for `i32`, which num-traits defines as `1`.
#[verifier::external_body]
fn one_i32() -> (r: i32)
    ensures
        r == 1,
{
    num_traits::One::one()
}

/// `num_traits::Zero::zero` for `i64`, which num-traits defines as `0`.
#[verifier::external_body]
fn zero_i64() -> (r: i64)
    ensures
        r == 0,
{
    num_traits::Zero::zero()
}

/// `num_traits::One::one` for `i64`, which num-traits defines as `1`.
#[verifier::external_body]
fn one_i64() -> (r: i64)
    ensures
        r == 1,
{
    num_traits::One::one()
}

/// `num_traits::Zero::zero` for `u32`, which num-traits defines as `0`.
#[verifier::external_body]
fn zero_u32() -> (r: u32)
    ensures
        r == 0,
{
    num_traits::Zero::zero()
}

/// `num_traits::One::one` for `u32`, which num-traits defines as `1`.
#[verifier::external_body]
fn one_u32() -> (r: u32)
    ensures
        r == 1,
{
    num_traits::One::one()
}

/// `num_traits::Zero::zero` for `u64`, which num-traits defines as `0`.
#[verifier::external_body]
fn zero_u64() -> (r: u64)
    ensures
        r == 0,
{
    num_traits::Zero::zero()
}

/// `num_traits::One::one` for `u64`, which num-traits defines as `1`.
#[verifier::external_body]
fn one_u64() -> (r: u64)
    ensures
        r == 1,
{
    num_traits::One::one()
}

/// `num_traits::Zero::zero` for `usize`, which num-traits defines as `0`.
#[verifier::external_body]
fn zero_usize() -> (r: usize)
    ensures
        r == 0,
{
    num_traits::Zero::zero()
}

/// `num_traits::One::one` for `usize`, which num-traits defines as `1`.
#[verifier::external_body]
fn one_usize() -> (r: usize)
    ensures
        r == 1,
{
    num_traits::One::one()
}

/// `num_traits::Signed::abs` for `i32`: num-traits negates a negative value
/// and hands any other back. The least value has no negation and is left
/// out.
#[verifier::external_body]
fn abs_i32(x: i32) -> (r: i32)
    requires
        x != i32::MIN,
    ensures
        r == if x < 0 { -x } else { x as int },
{
    num_traits::Signed::abs(&x)
}

/// `num_traits::Signed::signum` for `i32`: in num-traits `1` for a positive
/// value, `0` for zero and `-1` for a negative one.
#[verifier::external_body]
fn signum_i32(x: i32) -> (r: i32)
    ensures
        r == if x > 0 { 1int } else if x == 0 { 0int } else { -1int },
{
    num_traits::Signed::signum(&x)
}

/// `num_traits::Signed::abs` for `i64`: num-traits negates a negative value
/// and hands any other back. The least value has no negation and is left
/// out.
#[verifier::external_body]
fn abs_i64(x: i64) -> (r: i64)
    requires
        x != i64::MIN,
    ensures
        r == if x < 0 { -x } else { x as int },
{
    num_traits::Signed::abs(&x)
}

/// `num_traits::Signed::signum` for `i64`: in num-traits `1` for a positive
/// value, `0` for zero and `-1` for a negative one.
#[verifier::external_body]
fn signum_i64(x: i64) -> (r: i64)
    ensures
        r == if x > 0 { 1int } else if x == 0 { 0int } else { -1int },
{
    num_traits::Signed::signum(&x)
}

impl Number for i32 {
    open spec fn zero_spec() -> Self {
        0
    }

    open spec fn one_spec() -> Self {
        1
    }

    /// The sum is a value of the type.
    open spec fn add_req(self, rhs: Self) -> bool {
        i32::MIN <= self + rhs <= i32::MAX
    }

    open spec fn add_spec(self, rhs: Self) -> Self {
        (self + rhs) as i32
    }

    /// The difference is a value of the type.
    open spec fn sub_req(self, rhs: Self) -> bool {
        i32::MIN <= self - rhs <= i32::MAX
    }

    open spec fn sub_spec(self, rhs: Self) -> Self {
        (self - rhs) as i32
    }

    /// The product is a value of the type.
    open spec fn mul_req(self, rhs: Self) -> bool {
        i32::MIN <= self * rhs <= i32::MAX
    }

    open spec fn mul_spec(self, rhs: Self) -> Self {
        (self * rhs) as i32
    }

    /// The divisor is not zero, and the quotient is not that of the least
    /// value by minus one, which the type cannot hold.
    open spec fn div_req(self, rhs: Self) -> bool {
        rhs != 0 && !(self == i32::MIN && rhs == -1)
    }

    /// The quotient rounded toward zero: that of the magnitudes, with the
    /// sign of the quotient.
    open spec fn div_spec(self, rhs: Self) -> Self {
        if self >= 0 {
            (self / rhs) as i32
        } else {
            (-((-self) / (rhs as int))) as i32
        }
    }

    open spec fn rem_req(self, rhs: Self) -> bool {
        rhs != 0 && !(self == i32::MIN && rhs == -1)
    }

    /// The remainder of the division rounded toward zero: it has the sign
    /// of the dividend.
    open spec fn rem_spec(self, rhs: Self) -> Self {
        if self >= 0 {
            (self % rhs) as i32
        } else {
            (-((-self) % (rhs as int))) as i32
        }
    }

    open spec fn equal_spec(self, rhs: Self) -> bool {
        self == rhs
    }

    open spec fn less_spec(self, rhs: Self) -> bool {
        self < rhs
    }

    open spec fn less_equal_spec(self, rhs: Self) -> bool {
        self <= rhs
    }

    proof fn zero_is_below_one() {
    }

    fn zero() -> (r: Self) {
        zero_i32()
    }

    fn one() -> (r: Self) {
        one_i32()
    }

    fn add(self, rhs: Self) -> (r: Self) {
        self + rhs
    }

    fn sub(self, rhs: Self) -> (r: Self) {
        self - rhs
    }

    fn mul(self, rhs: Self) -> (r: Self) {
        self * rhs
    }

    fn div(self, rhs: Self) -> (r: Self) {
        self / rhs
    }

    fn rem(self, rhs: Self) -> (r: Self) {
        self % rhs
    }

    fn equal(self, rhs: Self) -> (r: bool) {
        self == rhs
    }

    fn less(self, rhs: Self) -> (r: bool) {
        self < rhs
    }

    fn less_equal(self, rhs: Self) -> (r: bool) {
        self <= rhs
    }
}

impl ExactNumber for i32 {
    open spec fn value(self) -> real {
        self as real
    }

    proof fn value_is_injective(a: Self, b: Self) {
    }

    proof fn arithmetic_is_exact() {
        assert forall|a: Self, b: Self| #![trigger a.mul_spec(b)] a.mul_req(b) implies a.mul_spec(
            b,
        ).value() == a.value() * b.value() by {
            lemma_product_of_integers(a as int, b as int);
        }
    }

    proof fn identities_apply(a: Self) {
    }

    proof fn difference_adds_back(a: Self, b: Self) {
    }
}

impl SignedNumber for i32 {
    /// Every value but the least has a negation.
    open spec fn neg_req(self) -> bool {
        self != i32::MIN
    }

    open spec fn neg_spec(self) -> Self {
        (-self) as i32
    }

    /// Every value but the least has an absolute value.
    open spec fn abs_req(self) -> bool {
        self != i32::MIN
    }

    open spec fn abs_spec(self) -> Self {
        if self < 0 {
            (-self) as i32
        } else {
            self
        }
    }

    /// One for a positive value, zero for zero, minus one for a negative
    /// value.
    open spec fn signum_spec(self) -> Self {
        if self > 0 {
            1
        } else if self == 0 {
            0
        } else {
            (-1) as i32
        }
    }

    proof fn minus_one_is_not_zero() {
    }

    fn neg(self) -> (r: Self) {
        -self
    }

    fn abs(self) -> (r: Self) {
        abs_i32(self)
    }

    fn signum(self) -> (r: Self) {
        signum_i32(self)
    }
}

impl Number for i64 {
    open spec fn zero_spec() -> Self {
        0
    }

    open spec fn one_spec() -> Self {
        1
    }

    /// The sum is a value of the type.
    open spec fn add_req(self, rhs: Self) -> bool {
        i64::MIN <= self + rhs <= i64::MAX
    }

    open spec fn add_spec(self, rhs: Self) -> Self {
        (self + rhs) as i64
    }

    /// The difference is a value of the type.
    open spec fn sub_req(self, rhs: Self) -> bool {
        i64::MIN <= self - rhs <= i64::MAX
    }

    open spec fn sub_spec(self, rhs: Self) -> Self {
        (self - rhs) as i64
    }

    /// The product is a value of the type.
    open spec fn mul_req(self, rhs: Self) -> bool {
        i64::MIN <= self * rhs <= i64::MAX
    }

    open spec fn mul_spec(self, rhs: Self) -> Self {
        (self * rhs) as i64
    }

    /// The divisor is not zero, and the quotient is not that of the least
    /// value by minus one, which the type cannot hold.
    open spec fn div_req(self, rhs: Self) -> bool {
        rhs != 0 && !(self == i64::MIN && rhs == -1)
    }

    /// The quotient rounded toward zero: that of the magnitudes, with the
    /// sign of the quotient.
    open spec fn div_spec(self, rhs: Self) -> Self {
        if self >= 0 {
            (self / rhs) as i64
        } else {
            (-((-self) / (rhs as int))) as i64
        }
    }

    open spec fn rem_req(self, rhs: Self) -> bool {
        rhs != 0 && !(self == i64::MIN && rhs == -1)
    }

    /// The remainder of the division rounded toward zero: it has the sign
    /// of the dividend.
    open spec fn rem_spec(self, rhs: Self) -> Self {
        if self >= 0 {
            (self % rhs) as i64
        } else {
            (-((-self) % (rhs as int))) as i64
        }
    }

    open spec fn equal_spec(self, rhs: Self) -> bool {
        self == rhs
    }

    open spec fn less_spec(self, rhs: Self) -> bool {
        self < rhs
    }

    open spec fn less_equal_spec(self, rhs: Self) -> bool {
        self <= rhs
    }

    proof fn zero_is_below_one() {
    }

    fn zero() -> (r: Self) {
        zero_i64()
    }

    fn one() -> (r: Self) {
        one_i64()
    }

    fn add(self, rhs: Self) -> (r: Self) {
        self + rhs
    }

    fn sub(self, rhs: Self) -> (r: Self) {
        self - rhs
    }

    fn mul(self, rhs: Self) -> (r: Self) {
        self * rhs
    }

    fn div(self, rhs: Self) -> (r: Self) {
        self / rhs
    }

    fn rem(self, rhs: Self) -> (r: Self) {
        self % rhs
    }

    fn equal(self, rhs: Self) -> (r: bool) {
        self == rhs
    }

    fn less(self, rhs: Self) -> (r: bool) {
        self < rhs
    }

    fn less_equal(self, rhs: Self) -> (r: bool) {
        self <= rhs
    }
}

impl ExactNumber for i64 {
    open spec fn value(self) -> real {
        self as real
    }

    proof fn value_is_injective(a: Self, b: Self) {
    }

    proof fn arithmetic_is_exact() {
        assert forall|a: Self, b: Self| #![trigger a.mul_spec(b)] a.mul_req(b) implies a.mul_spec(
            b,
        ).value() == a.value() * b.value() by {
            lemma_product_of_integers(a as int, b as int);
        }
    }

    proof fn identities_apply(a: Self) {
    }

    proof fn difference_adds_back(a: Self, b: Self) {
    }
}

impl SignedNumber for i64 {
    /// Every value but the least has a negation.
    open spec fn neg_req(self) -> bool {
        self != i64::MIN
    }

    open spec fn neg_spec(self) -> Self {
        (-self) as i64
    }

    /// Every value but the least has an absolute value.
    open spec fn abs_req(self) -> bool {
        self != i64::MIN
    }

    open spec fn abs_spec(self) -> Self {
        if self < 0 {
            (-self) as i64
        } else {
            self
        }
    }

    /// One for a positive value, zero for zero, minus one for a negative
    /// value.
    open spec fn signum_spec(self) -> Self {
        if self > 0 {
            1
        } else if self == 0 {
            0
        } else {
            (-1) as i64
        }
    }

    proof fn minus_one_is_not_zero() {
    }

    fn neg(self) -> (r: Self) {
        -self
    }

    fn abs(self) -> (r: Self) {
        abs_i64(self)
    }

    fn signum(self) -> (r: Self) {
        signum_i64(self)
    }
}

impl Number for u32 {
    open spec fn zero_spec() -> Self {
        0
    }

    open spec fn one_spec() -> Self {
        1
    }

    /// The sum is a value of the type.
    open spec fn add_req(self, rhs: Self) -> bool {
        u32::MIN <= self + rhs <= u32::MAX
    }

    open spec fn add_spec(self, rhs: Self) -> Self {
        (self + rhs) as u32
    }

    /// The difference is a value of the type.
    open spec fn sub_req(self, rhs: Self) -> bool {
        u32::MIN <= self - rhs <= u32::MAX
    }

    open spec fn sub_spec(self, rhs: Self) -> Self {
        (self - rhs) as u32
    }

    /// The product is a value of the type.
    open spec fn mul_req(self, rhs: Self) -> bool {
        u32::MIN <= self * rhs <= u32::MAX
    }

    open spec fn mul_spec(self, rhs: Self) -> Self {
        (self * rhs) as u32
    }

    /// The divisor is not zero.
    open spec fn div_req(self, rhs: Self) -> bool {
        rhs != 0
    }

    /// The quotient rounded down.
    open spec fn div_spec(self, rhs: Self) -> Self {
        (self / rhs) as u32
    }

    open spec fn rem_req(self, rhs: Self) -> bool {
        rhs != 0
    }

    /// The remainder of the division.
    open spec fn rem_spec(self, rhs: Self) -> Self {
        (self % rhs) as u32
    }

    open spec fn equal_spec(self, rhs: Self) -> bool {
        self == rhs
    }

    open spec fn less_spec(self, rhs: Self) -> bool {
        self < rhs
    }

    open spec fn less_equal_spec(self, rhs: Self) -> bool {
        self <= rhs
    }

    proof fn zero_is_below_one() {
    }

    fn zero() -> (r: Self) {
        zero_u32()
    }

    fn one() -> (r: Self) {
        one_u32()
    }

    fn add(self, rhs: Self) -> (r: Self) {
        self + rhs
    }

    fn sub(self, rhs: Self) -> (r: Self) {
        self - rhs
    }

    fn mul(self, rhs: Self) -> (r: Self) {
        self * rhs
    }

    fn div(self, rhs: Self) -> (r: Self) {
        self / rhs
    }

    fn rem(self, rhs: Self) -> (r: Self) {
        self % rhs
    }

    fn equal(self, rhs: Self) -> (r: bool) {
        self == rhs
    }

    fn less(self, rhs: Self) -> (r: bool) {
        self < rhs
    }

    fn less_equal(self, rhs: Self) -> (r: bool) {
        self <= rhs
    }
}

impl ExactNumber for u32 {
    open spec fn value(self) -> real {
        self as real
    }

    proof fn value_is_injective(a: Self, b: Self) {
    }

    proof fn arithmetic_is_exact() {
        assert forall|a: Self, b: Self| #![trigger a.mul_spec(b)] a.mul_req(b) implies a.mul_spec(
            b,
        ).value() == a.value() * b.value() by {
            lemma_product_of_integers(a as int, b as int);
        }
    }

    proof fn identities_apply(a: Self) {
    }

    proof fn difference_adds_back(a: Self, b: Self) {
    }
}

impl UnsignedNumber for u32 {
    proof fn zero_is_least(a: Self) {
    }
}

impl Number for u64 {
    open spec fn zero_spec() -> Self {
        0
    }

    open spec fn one_spec() -> Self {
        1
    }

    /// The sum is a value of the type.
    open spec fn add_req(self, rhs: Self) -> bool {
        u64::MIN <= self + rhs <= u64::MAX
    }

    open spec fn add_spec(self, rhs: Self) -> Self {
        (self + rhs) as u64
    }

    /// The difference is a value of the type.
    open spec fn sub_req(self, rhs: Self) -> bool {
        u64::MIN <= self - rhs <= u64::MAX
    }

    open spec fn sub_spec(self, rhs: Self) -> Self {
        (self - rhs) as u64
    }

    /// The product is a value of the type.
    open spec fn mul_req(self, rhs: Self) -> bool {
        u64::MIN <= self * rhs <= u64::MAX
    }

    open spec fn mul_spec(self, rhs: Self) -> Self {
        (self * rhs) as u64
    }

    /// The divisor is not zero.
    open spec fn div_req(self, rhs: Self) -> bool {
        rhs != 0
    }

    /// The quotient rounded down.
    open spec fn div_spec(self, rhs: Self) -> Self {
        (self / rhs) as u64
    }

    open spec fn rem_req(self, rhs: Self) -> bool {
        rhs != 0
    }

    /// The remainder of the division.
    open spec fn rem_spec(self, rhs: Self) -> Self {
        (self % rhs) as u64
    }

    open spec fn equal_spec(self, rhs: Self) -> bool {
        self == rhs
    }

    open spec fn less_spec(self, rhs: Self) -> bool {
        self < rhs
    }

    open spec fn less_equal_spec(self, rhs: Self) -> bool {
        self <= rhs
    }

    proof fn zero_is_below_one() {
    }

    fn zero() -> (r: Self) {
        zero_u64()
    }

    fn one() -> (r: Self) {
        one_u64()
    }

    fn add(self, rhs: Self) -> (r: Self) {
        self + rhs
    }

    fn sub(self, rhs: Self) -> (r: Self) {
        self - rhs
    }

    fn mul(self, rhs: Self) -> (r: Self) {
        self * rhs
    }

    fn div(self, rhs: Self) -> (r: Self) {
        self / rhs
    }

    fn rem(self, rhs: Self) -> (r: Self) {
        self % rhs
    }

    fn equal(self, rhs: Self) -> (r: bool) {
        self == rhs
    }

    fn less(self, rhs: Self) -> (r: bool) {
        self < rhs
    }

    fn less_equal(self, rhs: Self) -> (r: bool) {
        self <= rhs
    }
}

impl ExactNumber for u64 {
    open spec fn value(self) -> real {
        self as real
    }

    proof fn value_is_injective(a: Self, b: Self) {
    }

    proof fn arithmetic_is_exact() {
        assert forall|a: Self, b: Self| #![trigger a.mul_spec(b)] a.mul_req(b) implies a.mul_spec(
            b,
        ).value() == a.value() * b.value() by {
            lemma_product_of_integers(a as int, b as int);
        }
    }

    proof fn identities_apply(a: Self) {
    }

    proof fn difference_adds_back(a: Self, b: Self) {
    }
}

impl UnsignedNumber for u64 {
    proof fn zero_is_least(a: Self) {
    }
}

impl Number for usize {
    open spec fn zero_spec() -> Self {
        0
    }

    open spec fn one_spec() -> Self {
        1
    }

    /// The sum is a value of the type.
    open spec fn add_req(self, rhs: Self) -> bool {
        usize::MIN <= self + rhs <= usize::MAX
    }

    open spec fn add_spec(self, rhs: Self) -> Self {
        (self + rhs) as usize
    }

    /// The difference is a value of the type.
    open spec fn sub_req(self, rhs: Self) -> bool {
        usize::MIN <= self - rhs <= usize::MAX
    }

    open spec fn sub_spec(self, rhs: Self) -> Self {
        (self - rhs) as usize
    }

    /// The product is a value of the type.
    open spec fn mul_req(self, rhs: Self) -> bool {
        usize::MIN <= self * rhs <= usize::MAX
    }

    open spec fn mul_spec(self, rhs: Self) -> Self {
        (self * rhs) as usize
    }

    /// The divisor is not zero.
    open spec fn div_req(self, rhs: Self) -> bool {
        rhs != 0
    }

    /// The quotient rounded down.
    open spec fn div_spec(self, rhs: Self) -> Self {
        (self / rhs) as usize
    }

    open spec fn rem_req(self, rhs: Self) -> bool {
        rhs != 0
    }

    /// The remainder of the division.
    open spec fn rem_spec(self, rhs: Self) -> Self {
        (self % rhs) as usize
    }

    open spec fn equal_spec(self, rhs: Self) -> bool {
        self == rhs
    }

    open spec fn less_spec(self, rhs: Self) -> bool {
        self < rhs
    }

    open spec fn less_equal_spec(self, rhs: Self) -> bool {
        self <= rhs
    }

    proof fn zero_is_below_one() {
    }

    fn zero() -> (r: Self) {
        zero_usize()
    }

    fn one() -> (r: Self) {
        one_usize()
    }

    fn add(self, rhs: Self) -> (r: Self) {
        self + rhs
    }

    fn sub(self, rhs: Self) -> (r: Self) {
        self - rhs
    }

    fn mul(self, rhs: Self) -> (r: Self) {
        self * rhs
    }

    fn div(self, rhs: Self) -> (r: Self) {
        self / rhs
    }

    fn rem(self, rhs: Self) -> (r: Self) {
        self % rhs
    }

    fn equal(self, rhs: Self) -> (r: bool) {
        self == rhs
    }

    fn less(self, rhs: Self) -> (r: bool) {
        self < rhs
    }

    fn less_equal(self, rhs: Self) -> (r: bool) {
        self <= rhs
    }
}

impl ExactNumber for usize {
    open spec fn value(self) -> real {
        self as real
    }

    proof fn value_is_injective(a: Self, b: Self) {
    }

    proof fn arithmetic_is_exact() {
        assert forall|a: Self, b: Self| #![trigger a.mul_spec(b)] a.mul_req(b) implies a.mul_spec(
            b,
        ).value() == a.value() * b.value() by {
            lemma_product_of_integers(a as int, b as int);
        }
    }

    proof fn identities_apply(a: Self) {
    }

    proof fn difference_adds_back(a: Self, b: Self) {
    }
}

impl UnsignedNumber for usize {
    proof fn zero_is_least(a: Self) {
    }
}

} // verus!
