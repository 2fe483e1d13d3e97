use vstd::prelude::*;
use crate::linear::geometry::EuclideanGeometry;
use crate::linear::matrix::Matrix2;
use crate::linear::matrix::Matrix3;
use crate::linear::matrix::Matrix4;
use crate::linear::exact::ExactNumber;
use crate::linear::traits::FloatingPoint;
use crate::linear::traits::Number;
use crate::linear::traits::SignedNumber;
use vstd::std_specs::convert::FromSpecImpl;

verus! {

/// In exact arithmetic `a + (b - a)·0` is `a` and `a + (b - a)·1` is `b`,
/// wherever `b - a` can be formed.
pub proof fn lemma_exact_interpolation<T: ExactNumber>(a: T, b: T)
    requires
        b.sub_req(a),
    ensures
        b.sub_spec(a).mul_req(T::zero_spec()),
        a.add_req(b.sub_spec(a).mul_spec(T::zero_spec())),
        a.add_spec(b.sub_spec(a).mul_spec(T::zero_spec())) == a,
        b.sub_spec(a).mul_req(T::one_spec()),
        a.add_req(b.sub_spec(a).mul_spec(T::one_spec())),
        a.add_spec(b.sub_spec(a).mul_spec(T::one_spec())) == b,
{
    let d = b.sub_spec(a);
    T::arithmetic_is_exact();
    T::identities_apply(d);
    T::identities_apply(a);
    T::difference_adds_back(a, b);
    assert(d.mul_spec(T::zero_spec()).value() == 0real) by (nonlinear_arith)
        requires
            d.mul_spec(T::zero_spec()).value() == d.value() * T::zero_spec().value(),
            T::zero_spec().value() == 0real,
    ;
    T::value_is_injective(d.mul_spec(T::zero_spec()), T::zero_spec());
    T::value_is_injective(a.add_spec(T::zero_spec()), a);
    assert(d.mul_spec(T::one_spec()).value() == d.value()) by (nonlinear_arith)
        requires
            d.mul_spec(T::one_spec()).value() == d.value() * T::one_spec().value(),
            T::one_spec().value() == 1real,
    ;
    T::value_is_injective(d.mul_spec(T::one_spec()), d);
    T::value_is_injective(a.add_spec(d), b);
}

/// What a vector type offers whatever its dimension: the arithmetic that
/// interpolation needs, the dot product, and, over a floating-point scalar,
/// the Euclidean length and what is built on it.
pub trait Vector: Copy + Sized {
    type Scalar: Number;

    /// The vector whose components all are zero.
    spec fn zero_spec() -> Self;

    spec fn add_req(self, rhs: Self) -> bool;

    spec fn add_spec(self, rhs: Self) -> Self;

    spec fn sub_req(self, rhs: Self) -> bool;

    spec fn sub_spec(self, rhs: Self) -> Self;

    spec fn mul_scalar_req(self, rhs: Self::Scalar) -> bool;

    spec fn mul_scalar_spec(self, rhs: Self::Scalar) -> Self;

    spec fn dot_req(self, other: Self) -> bool;

    spec fn dot_spec(self, other: Self) -> Self::Scalar;

    spec fn magnitude_spec(self) -> Self::Scalar where Self::Scalar: FloatingPoint;

    spec fn normalize_spec(self) -> Self where Self::Scalar: FloatingPoint;

    spec fn project_spec(self, other: Self) -> Self where Self::Scalar: FloatingPoint;

    /// Over a floating-point scalar no operation of the vector can fail.
    proof fn arithmetic_is_total() where Self::Scalar: FloatingPoint
        ensures
            forall|a: Self, b: Self| #[trigger] a.add_req(b),
            forall|a: Self, b: Self| #[trigger] a.sub_req(b),
            forall|a: Self, t: Self::Scalar| #[trigger] a.mul_scalar_req(t),
            forall|a: Self, b: Self| #[trigger] a.dot_req(b),
    ;

    /// In exact arithmetic `a + (b - a)·0` is `a` and `a + (b - a)·1` is
    /// `b`, wherever `b - a` can be formed.
    proof fn exact_interpolation(a: Self, b: Self) where Self::Scalar: ExactNumber
        requires
            b.sub_req(a),
        ensures
            b.sub_spec(a).mul_scalar_req(Self::Scalar::zero_spec()),
            a.add_req(b.sub_spec(a).mul_scalar_spec(Self::Scalar::zero_spec())),
            a.add_spec(b.sub_spec(a).mul_scalar_spec(Self::Scalar::zero_spec())) == a,
            b.sub_spec(a).mul_scalar_req(Self::Scalar::one_spec()),
            a.add_req(b.sub_spec(a).mul_scalar_spec(Self::Scalar::one_spec())),
            a.add_spec(b.sub_spec(a).mul_scalar_spec(Self::Scalar::one_spec())) == b,
    ;

    /// The number of components.
    fn size() -> usize;

    fn zero() -> (r: Self)
        ensures
            r == Self::zero_spec(),
    ;

    fn add(self, rhs: Self) -> (r: Self)
        requires
            self.add_req(rhs),
        ensures
            r == self.add_spec(rhs),
    ;

    fn sub(self, rhs: Self) -> (r: Self)
        requires
            self.sub_req(rhs),
        ensures
            r == self.sub_spec(rhs),
    ;

    fn mul_scalar(self, rhs: Self::Scalar) -> (r: Self)
        requires
            self.mul_scalar_req(rhs),
        ensures
            r == self.mul_scalar_spec(rhs),
    ;

    fn dot(&self, other: &Self) -> (r: Self::Scalar)
        requires
            self.dot_req(*other),
        ensures
            r == self.dot_spec(*other),
    ;

    fn magnitude(&self) -> (r: Self::Scalar) where Self::Scalar: FloatingPoint
        ensures
            r == self.magnitude_spec(),
    ;

    fn normalize(&self) -> (r: Self) where Self::Scalar: FloatingPoint
        ensures
            r == self.normalize_spec(),
    ;

    fn project(&self, other: &Self) -> (r: Self) where Self::Scalar: FloatingPoint
        ensures
            r == self.project_spec(*other),
    ;

    /// The distance between two points is measured as the length of their
    /// difference, so this is the magnitude under another name.
    fn length(&self) -> (r: Self::Scalar) where Self::Scalar: FloatingPoint
        ensures
            r == self.magnitude_spec(),
    ;
}

/// A vector of two components.
#[derive(Clone, Copy, Debug, Default, PartialEq, Eq, PartialOrd)]
pub struct Vector2<T> {
    pub x: T,
    pub y: T,
}

/// A vector of three components.
#[derive(Clone, Copy, Debug, Default, PartialEq, Eq, PartialOrd)]
pub struct Vector3<T> {
    pub x: T,
    pub y: T,
    pub z: T,
}

/// A vector of four components.
#[derive(Clone, Copy, Debug, Default, PartialEq, Eq, PartialOrd)]
pub struct Vector4<T> {
    pub x: T,
    pub y: T,
    pub z: T,
    pub w: T,
}

impl<T> Vector2<T> {
    pub fn new(x: T, y: T) -> (v: Self)
        ensures
            v.x == x,
            v.y == y,
    {
        Self { x, y }
    }

    /// The vector whose components all are `value`.
    pub open spec fn splat_spec(value: T) -> Self {
        Vector2 { x: value, y: value }
    }
}

impl<T: Copy> From<T> for Vector2<T> {
    /// The vector whose components all are `value`.
    fn from(value: T) -> (v: Self) {
        Vector2 { x: value, y: value }
    }
}

impl<T: Copy> FromSpecImpl<T> for Vector2<T> {
    open spec fn obeys_from_spec() -> bool {
        true
    }

    open spec fn from_spec(value: T) -> Self {
        Self::splat_spec(value)
    }
}

impl<T: Number> Vector2<T> {
    /// Whether the component-wise sum with `rhs` may be formed.
    pub open spec fn add_req(self, rhs: Self) -> bool {
        &&& self.x.add_req(rhs.x)
        &&& self.y.add_req(rhs.y)
    }

    /// The component-wise sum with `rhs`.
    pub open spec fn add_spec(self, rhs: Self) -> Self {
        Vector2 { x: self.x.add_spec(rhs.x), y: self.y.add_spec(rhs.y) }
    }

    pub fn add(self, rhs: Self) -> (r: Self)
        requires
            self.add_req(rhs),
        ensures
            r == self.add_spec(rhs),
    {
        Vector2 { x: self.x.add(rhs.x), y: self.y.add(rhs.y) }
    }

    /// Whether the component-wise difference with `rhs` may be formed.
    pub open spec fn sub_req(self, rhs: Self) -> bool {
        &&& self.x.sub_req(rhs.x)
        &&& self.y.sub_req(rhs.y)
    }

    /// The component-wise difference with `rhs`.
    pub open spec fn sub_spec(self, rhs: Self) -> Self {
        Vector2 { x: self.x.sub_spec(rhs.x), y: self.y.sub_spec(rhs.y) }
    }

    pub fn sub(self, rhs: Self) -> (r: Self)
        requires
            self.sub_req(rhs),
        ensures
            r == self.sub_spec(rhs),
    {
        Vector2 { x: self.x.sub(rhs.x), y: self.y.sub(rhs.y) }
    }

    /// Whether the component-wise product with `rhs` may be formed.
    pub open spec fn mul_req(self, rhs: Self) -> bool {
        &&& self.x.mul_req(rhs.x)
        &&& self.y.mul_req(rhs.y)
    }

    /// The component-wise product with `rhs`.
    pub open spec fn mul_spec(self, rhs: Self) -> Self {
        Vector2 { x: self.x.mul_spec(rhs.x), y: self.y.mul_spec(rhs.y) }
    }

    pub fn mul(self, rhs: Self) -> (r: Self)
        requires
            self.mul_req(rhs),
        ensures
            r == self.mul_spec(rhs),
    {
        Vector2 { x: self.x.mul(rhs.x), y: self.y.mul(rhs.y) }
    }

    /// Whether the component-wise quotient with `rhs` may be formed.
    pub open spec fn div_req(self, rhs: Self) -> bool {
        &&& self.x.div_req(rhs.x)
        &&& self.y.div_req(rhs.y)
    }

    /// The component-wise quotient with `rhs`.
    pub open spec fn div_spec(self, rhs: Self) -> Self {
        Vector2 { x: self.x.div_spec(rhs.x), y: self.y.div_spec(rhs.y) }
    }

    pub fn div(self, rhs: Self) -> (r: Self)
        requires
            self.div_req(rhs),
        ensures
            r == self.div_spec(rhs),
    {
        Vector2 { x: self.x.div(rhs.x), y: self.y.div(rhs.y) }
    }

    /// Whether the component-wise remainder with `rhs` may be formed.
    pub open spec fn rem_req(self, rhs: Self) -> bool {
        &&& self.x.rem_req(rhs.x)
        &&& self.y.rem_req(rhs.y)
    }

    /// The component-wise remainder with `rhs`.
    pub open spec fn rem_spec(self, rhs: Self) -> Self {
        Vector2 { x: self.x.rem_spec(rhs.x), y: self.y.rem_spec(rhs.y) }
    }

    pub fn rem(self, rhs: Self) -> (r: Self)
        requires
            self.rem_req(rhs),
        ensures
            r == self.rem_spec(rhs),
    {
        Vector2 { x: self.x.rem(rhs.x), y: self.y.rem(rhs.y) }
    }

    /// Whether the sum of each component and the scalar `rhs` may be formed.
    pub open spec fn add_scalar_req(self, rhs: T) -> bool {
        &&& self.x.add_req(rhs)
        &&& self.y.add_req(rhs)
    }

    /// The sum of each component and the scalar `rhs`.
    pub open spec fn add_scalar_spec(self, rhs: T) -> Self {
        Vector2 { x: self.x.add_spec(rhs), y: self.y.add_spec(rhs) }
    }

    pub fn add_scalar(self, rhs: T) -> (r: Self)
        requires
            self.add_scalar_req(rhs),
        ensures
            r == self.add_scalar_spec(rhs),
    {
        Vector2 { x: self.x.add(rhs), y: self.y.add(rhs) }
    }

    /// Whether the difference of each component and the scalar `rhs` may be formed.
    pub open spec fn sub_scalar_req(self, rhs: T) -> bool {
        &&& self.x.sub_req(rhs)
        &&& self.y.sub_req(rhs)
    }

    /// The difference of each component and the scalar `rhs`.
    pub open spec fn sub_scalar_spec(self, rhs: T) -> Self {
        Vector2 { x: self.x.sub_spec(rhs), y: self.y.sub_spec(rhs) }
    }

    pub fn sub_scalar(self, rhs: T) -> (r: Self)
        requires
            self.sub_scalar_req(rhs),
        ensures
            r == self.sub_scalar_spec(rhs),
    {
        Vector2 { x: self.x.sub(rhs), y: self.y.sub(rhs) }
    }

    /// Whether the product of each component and the scalar `rhs` may be formed.
    pub open spec fn mul_scalar_req(self, rhs: T) -> bool {
        &&& self.x.mul_req(rhs)
        &&& self.y.mul_req(rhs)
    }

    /// The product of each component and the scalar `rhs`.
    pub open spec fn mul_scalar_spec(self, rhs: T) -> Self {
        Vector2 { x: self.x.mul_spec(rhs), y: self.y.mul_spec(rhs) }
    }

    pub fn mul_scalar(self, rhs: T) -> (r: Self)
        requires
            self.mul_scalar_req(rhs),
        ensures
            r == self.mul_scalar_spec(rhs),
    {
        Vector2 { x: self.x.mul(rhs), y: self.y.mul(rhs) }
    }

    /// Whether the quotient of each component by the scalar `rhs` may be formed.
    pub open spec fn div_scalar_req(self, rhs: T) -> bool {
        &&& self.x.div_req(rhs)
        &&& self.y.div_req(rhs)
    }

    /// The quotient of each component by the scalar `rhs`.
    pub open spec fn div_scalar_spec(self, rhs: T) -> Self {
        Vector2 { x: self.x.div_spec(rhs), y: self.y.div_spec(rhs) }
    }

    pub fn div_scalar(self, rhs: T) -> (r: Self)
        requires
            self.div_scalar_req(rhs),
        ensures
            r == self.div_scalar_spec(rhs),
    {
        Vector2 { x: self.x.div(rhs), y: self.y.div(rhs) }
    }

    pub fn add_assign(&mut self, rhs: Self)
        requires
            old(self).add_req(rhs),
        ensures
            *final(self) == old(self).add_spec(rhs),
    {
        self.x = self.x.add(rhs.x);
        self.y = self.y.add(rhs.y);
    }

    pub fn sub_assign(&mut self, rhs: Self)
        requires
            old(self).sub_req(rhs),
        ensures
            *final(self) == old(self).sub_spec(rhs),
    {
        self.x = self.x.sub(rhs.x);
        self.y = self.y.sub(rhs.y);
    }

    pub fn mul_assign(&mut self, rhs: Self)
        requires
            old(self).mul_req(rhs),
        ensures
            *final(self) == old(self).mul_spec(rhs),
    {
        self.x = self.x.mul(rhs.x);
        self.y = self.y.mul(rhs.y);
    }

    pub fn div_assign(&mut self, rhs: Self)
        requires
            old(self).div_req(rhs),
        ensures
            *final(self) == old(self).div_spec(rhs),
    {
        self.x = self.x.div(rhs.x);
        self.y = self.y.div(rhs.y);
    }

    /// Whether every component equals the scalar `other`.
    pub open spec fn equals_scalar_spec(self, other: T) -> bool {
        &&& self.x.equal_spec(other)
        &&& self.y.equal_spec(other)
    }

    pub fn equals_scalar(&self, other: T) -> (r: bool)
        ensures
            r == self.equals_scalar_spec(other),
    {
        self.x.equal(other) && self.y.equal(other)
    }

    /// The vector whose components all are zero.
    pub open spec fn zero_spec() -> Self {
        Self::splat_spec(T::zero_spec())
    }

    pub fn zero() -> (r: Self)
        ensures
            r == Self::zero_spec(),
    {
        Vector2 { x: T::zero(), y: T::zero() }
    }

    /// Whether every component equals zero.
    pub open spec fn is_zero_spec(self) -> bool {
        self.equals_scalar_spec(T::zero_spec())
    }

    pub fn is_zero(&self) -> (r: bool)
        ensures
            r == self.is_zero_spec(),
    {
        self.x.equal(T::zero()) && self.y.equal(T::zero())
    }

    pub fn set_zero(&mut self)
        ensures
            *final(self) == Self::zero_spec(),
    {
        self.x = T::zero();
        self.y = T::zero();
    }

    /// The vector whose components all are one.
    pub open spec fn one_spec() -> Self {
        Self::splat_spec(T::one_spec())
    }

    pub fn one() -> (r: Self)
        ensures
            r == Self::one_spec(),
    {
        Vector2 { x: T::one(), y: T::one() }
    }

    /// Whether every component equals one.
    pub open spec fn is_one_spec(self) -> bool {
        self.equals_scalar_spec(T::one_spec())
    }

    pub fn is_one(&self) -> (r: bool)
        ensures
            r == self.is_one_spec(),
    {
        self.x.equal(T::one()) && self.y.equal(T::one())
    }

    pub fn set_one(&mut self)
        ensures
            *final(self) == Self::one_spec(),
    {
        self.x = T::one();
        self.y = T::one();
    }

    /// Whether the dot product with `other` may be formed: each product
    /// and each partial sum, taken from the first component on.
    pub open spec fn dot_req(self, other: Self) -> bool {
        &&& self.x.mul_req(other.x)
        &&& self.y.mul_req(other.y)
        &&& self.x.mul_spec(other.x).add_req(self.y.mul_spec(other.y))
    }

    /// The dot product: the products of the components, summed from the
    /// first on.
    pub open spec fn dot_spec(self, other: Self) -> T {
        self.x.mul_spec(other.x).add_spec(self.y.mul_spec(other.y))
    }

    pub fn dot(&self, other: &Self) -> (r: T)
        requires
            self.dot_req(*other),
        ensures
            r == self.dot_spec(*other),
    {
        self.x.mul(other.x).add(self.y.mul(other.y))
    }

    /// Whether the cross product with `other` may be formed.
    pub open spec fn cross_req(self, other: Self) -> bool {
        &&& self.x.mul_req(other.y)
        &&& self.y.mul_req(other.x)
        &&& self.x.mul_spec(other.y).sub_req(self.y.mul_spec(other.x))
    }

    /// The cross product of two plane vectors, a scalar:
    /// `x * other.y - y * other.x`.
    pub open spec fn cross_spec(self, other: Self) -> T {
        self.x.mul_spec(other.y).sub_spec(self.y.mul_spec(other.x))
    }

    pub fn cross(&self, other: Self) -> (r: T)
        requires
            self.cross_req(other),
        ensures
            r == self.cross_spec(other),
    {
        self.x.mul(other.y).sub(self.y.mul(other.x))
    }

    /// Whether the vectors of `items` may be summed from the first on,
    /// beginning at zero.
    pub open spec fn sum_req(items: Seq<Self>) -> bool
        decreases items.len(),
    {
        items.len() > 0 ==> Self::sum_req(items.drop_last()) && Self::sum_spec(
            items.drop_last(),
        ).add_req(items.last())
    }

    /// The sum of the vectors of `items`, added up from the first on,
    /// beginning at zero.
    pub open spec fn sum_spec(items: Seq<Self>) -> Self
        decreases items.len(),
    {
        if items.len() == 0 {
            Self::zero_spec()
        } else {
            Self::sum_spec(items.drop_last()).add_spec(items.last())
        }
    }

    pub fn sum(items: &Vec<Self>) -> (r: Self)
        requires
            Self::sum_req(items@),
        ensures
            r == Self::sum_spec(items@),
    {
        let mut total = Self::zero();
        let mut i: usize = 0;
        while i < items.len()
            invariant
                i <= items.len(),
                Self::sum_req(items@),
                Self::sum_req(items@.take(i as int)),
                total == Self::sum_spec(items@.take(i as int)),
            decreases items.len() - i,
        {
            proof {
                Self::lemma_sum_req_of_prefix(items@, i + 1);
                assert(items@.take(i + 1).drop_last() =~= items@.take(i as int));
            }
            total = total.add(items[i]);
            i = i + 1;
        }
        proof {
            assert(items@.take(items.len() as int) =~= items@);
        }
        total
    }

    /// What may be summed may be summed up to any place.
    pub proof fn lemma_sum_req_of_prefix(items: Seq<Self>, n: int)
        requires
            Self::sum_req(items),
            0 <= n <= items.len(),
        ensures
            Self::sum_req(items.take(n)),
        decreases items.len(),
    {
        if n == items.len() {
            assert(items.take(n) =~= items);
        } else {
            Self::lemma_sum_req_of_prefix(items.drop_last(), n);
            assert(items.drop_last().take(n) =~= items.take(n));
        }
    }

    /// Whether the product of this row vector and the matrix `rhs` may
    /// be formed.
    pub open spec fn mul_matrix_req(self, rhs: Matrix2<T>) -> bool {
        &&& self.dot_req(Vector2 { x: rhs.x.x, y: rhs.y.x })
        &&& self.dot_req(Vector2 { x: rhs.x.y, y: rhs.y.y })
    }

    /// The row vector times the matrix: component `c` of the result is the
    /// dot product of the vector with the `c` components of the matrix's
    /// rows.
    pub open spec fn mul_matrix_spec(self, rhs: Matrix2<T>) -> Self {
        Vector2 {
            x: self.dot_spec(Vector2 { x: rhs.x.x, y: rhs.y.x }),
            y: self.dot_spec(Vector2 { x: rhs.x.y, y: rhs.y.y }),
        }
    }

    pub fn mul_matrix(self, rhs: Matrix2<T>) -> (r: Self)
        requires
            self.mul_matrix_req(rhs),
        ensures
            r == self.mul_matrix_spec(rhs),
    {
        Vector2 {
            x: self.x.mul(rhs.x.x).add(self.y.mul(rhs.y.x)),
            y: self.x.mul(rhs.x.y).add(self.y.mul(rhs.y.y)),
        }
    }

    /// `self < other` in the order of the components from the first on:
    /// the first pair of components that is not equal decides.
    pub open spec fn less_spec(self, other: Self) -> bool {
        ||| self.x.less_spec(other.x)
        ||| self.x.equal_spec(other.x) && self.y.less_spec(other.y)
    }

    /// `self <= other` in the same order.
    pub open spec fn less_equal_spec(self, other: Self) -> bool {
        ||| self.x.less_spec(other.x)
        ||| self.x.equal_spec(other.x) && self.y.less_equal_spec(other.y)
    }

    pub fn less(&self, other: &Self) -> (r: bool)
        ensures
            r == self.less_spec(*other),
    {
        self.x.less(other.x)
            || (self.x.equal(other.x) && self.y.less(other.y))
    }

    pub fn less_equal(&self, other: &Self) -> (r: bool)
        ensures
            r == self.less_equal_spec(*other),
    {
        self.x.less(other.x)
            || (self.x.equal(other.x) && self.y.less_equal(other.y))
    }

    /// `self` held between `min` and `max`.
    pub open spec fn clamp_spec(self, min: Self, max: Self) -> Self {
        if self.less_spec(min) {
            min
        } else if max.less_spec(self) {
            max
        } else {
            self
        }
    }

    pub fn clamp(self, min: Self, max: Self) -> (r: Self)
        requires
            min.less_equal_spec(max),
        ensures
            r == self.clamp_spec(min, max),
    {
        if self.less(&min) {
            min
        } else if max.less(&self) {
            max
        } else {
            self
        }
    }
}

impl<T: SignedNumber> Vector2<T> {
    /// Whether the negation of each component may be formed.
    pub open spec fn neg_req(self) -> bool {
        &&& self.x.neg_req()
        &&& self.y.neg_req()
    }

    /// The negation of each component.
    pub open spec fn neg_spec(self) -> Self {
        Vector2 { x: self.x.neg_spec(), y: self.y.neg_spec() }
    }

    pub fn neg(self) -> (r: Self)
        requires
            self.neg_req(),
        ensures
            r == self.neg_spec(),
    {
        Vector2 { x: self.x.neg(), y: self.y.neg() }
    }

    /// Whether the absolute value of each component may be formed.
    pub open spec fn abs_req(self) -> bool {
        &&& self.x.abs_req()
        &&& self.y.abs_req()
    }

    /// The absolute value of each component.
    pub open spec fn abs_spec(self) -> Self {
        Vector2 { x: self.x.abs_spec(), y: self.y.abs_spec() }
    }

    pub fn abs(self) -> (r: Self)
        requires
            self.abs_req(),
        ensures
            r == self.abs_spec(),
    {
        Vector2 { x: self.x.abs(), y: self.y.abs() }
    }

    /// The sign of each component.
    pub open spec fn signum_spec(self) -> Self {
        Vector2 { x: self.x.signum_spec(), y: self.y.signum_spec() }
    }

    pub fn signum(self) -> (r: Self)
        ensures
            r == self.signum_spec(),
    {
        Vector2 { x: self.x.signum(), y: self.y.signum() }
    }

}

impl<T: FloatingPoint> Vector2<T> {
    /// The Euclidean length: the square root of the dot product of the
    /// vector with itself.
    pub open spec fn magnitude_spec(self) -> T {
        self.dot_spec(self).sqrt_spec()
    }

    pub fn magnitude(&self) -> (r: T)
        ensures
            r == self.magnitude_spec(),
    {
        proof {
            T::arithmetic_is_total();
        }
        self.x.mul(self.x).add(self.y.mul(self.y)).sqrt()
    }

    /// The distance between two points is measured as the length of their
    /// difference, so this is the magnitude under another name.
    pub fn length(&self) -> (r: T)
        ensures
            r == self.magnitude_spec(),
    {
        proof {
            T::arithmetic_is_total();
        }
        self.dot(self).sqrt()
    }

    /// Each component divided by the magnitude.
    pub open spec fn normalize_spec(self) -> Self {
        self.div_scalar_spec(self.magnitude_spec())
    }

    pub fn normalize(&self) -> (r: Self)
        ensures
            r == self.normalize_spec(),
    {
        proof {
            T::arithmetic_is_total();
        }
        let magnitude = self.magnitude();
        Vector2 { x: self.x.div(magnitude), y: self.y.div(magnitude) }
    }

    /// The normalized vector scaled by its dot product with `other`.
    pub open spec fn project_spec(self, other: Self) -> Self {
        self.normalize_spec().mul_scalar_spec(self.normalize_spec().dot_spec(other))
    }

    pub fn project(&self, other: &Self) -> (r: Self)
        ensures
            r == self.project_spec(*other),
    {
        proof {
            T::arithmetic_is_total();
        }
        let vector = self.normalize();
        let t = vector.dot(other);
        Vector2 { x: vector.x.mul(t), y: vector.y.mul(t) }
    }

    /// Each component raised to the power of the same component of `n`.
    pub open spec fn pow_spec(self, n: Self) -> Self {
        Vector2 { x: self.x.powf_spec(n.x), y: self.y.powf_spec(n.y) }
    }

    pub fn pow(&self, n: Self) -> (r: Self)
        ensures
            r == self.pow_spec(n),
    {
        Self::new(self.x.powf(n.x), self.y.powf(n.y))
    }

    /// A unit vector at a right angle to this one: turned a quarter
    /// counter-clockwise if `polarity` holds, clockwise if not. A vector of
    /// length zero has no direction; for it the result is the zero vector
    /// if `allow_zero` holds, else the unit vector along `y`, upward for
    /// `polarity` and downward without.
    pub open spec fn get_orthonomal_spec(self, polarity: bool, allow_zero: bool) -> Self {
        let length = self.magnitude_spec();
        if length.equal_spec(T::zero_spec()) {
            Vector2 {
                x: T::zero_spec(),
                y: if allow_zero {
                    T::zero_spec()
                } else if polarity {
                    T::one_spec()
                } else {
                    T::one_spec().neg_spec()
                },
            }
        } else if polarity {
            Vector2 { x: self.y.neg_spec().div_spec(length), y: self.x.div_spec(length) }
        } else {
            Vector2 { x: self.y.div_spec(length), y: self.x.neg_spec().div_spec(length) }
        }
    }

    pub fn get_orthonomal(&self, polarity: bool, allow_zero: bool) -> (r: Self)
        ensures
            r == self.get_orthonomal_spec(polarity, allow_zero),
    {
        proof {
            T::arithmetic_is_total();
        }
        let length = self.length();
        if length.equal(T::zero()) {
            if polarity {
                Self { x: T::zero(), y: if allow_zero { T::zero() } else { T::one() } }
            } else {
                Self { x: T::zero(), y: if allow_zero { T::zero() } else { T::one().neg() } }
            }
        } else {
            if polarity {
                Self { x: self.y.neg().div(length), y: self.x.div(length) }
            } else {
                Self { x: self.y.div(length), y: self.x.neg().div(length) }
            }
        }
    }

    /// The angle of the vector, as `atan2` of `x` and `y` in this order.
    pub open spec fn direction_spec(self) -> T {
        self.x.atan2_spec(self.y)
    }

    pub fn direction(&self) -> (r: T)
        ensures
            r == self.direction_spec(),
    {
        self.x.atan2(self.y)
    }

}

impl<T: Number> Vector for Vector2<T> {
    type Scalar = T;

    open spec fn zero_spec() -> Self {
        Vector2::zero_spec()
    }

    open spec fn add_req(self, rhs: Self) -> bool {
        Vector2::add_req(self, rhs)
    }

    open spec fn add_spec(self, rhs: Self) -> Self {
        Vector2::add_spec(self, rhs)
    }

    open spec fn sub_req(self, rhs: Self) -> bool {
        Vector2::sub_req(self, rhs)
    }

    open spec fn sub_spec(self, rhs: Self) -> Self {
        Vector2::sub_spec(self, rhs)
    }

    open spec fn mul_scalar_req(self, rhs: T) -> bool {
        Vector2::mul_scalar_req(self, rhs)
    }

    open spec fn mul_scalar_spec(self, rhs: T) -> Self {
        Vector2::mul_scalar_spec(self, rhs)
    }

    open spec fn dot_req(self, other: Self) -> bool {
        Vector2::dot_req(self, other)
    }

    open spec fn dot_spec(self, other: Self) -> T {
        Vector2::dot_spec(self, other)
    }

    open spec fn magnitude_spec(self) -> T where T: FloatingPoint {
        Vector2::magnitude_spec(self)
    }

    open spec fn normalize_spec(self) -> Self where T: FloatingPoint {
        Vector2::normalize_spec(self)
    }

    open spec fn project_spec(self, other: Self) -> Self where T: FloatingPoint {
        Vector2::project_spec(self, other)
    }

    proof fn arithmetic_is_total() where T: FloatingPoint {
        T::arithmetic_is_total();
    }

    proof fn exact_interpolation(a: Self, b: Self) where T: ExactNumber {
        T::arithmetic_is_exact();
        lemma_exact_interpolation(a.x, b.x);
        lemma_exact_interpolation(a.y, b.y);
    }

    fn size() -> (r: usize)
        ensures
            r == 2,
    {
        2
    }

    fn zero() -> (r: Self) {
        Vector2::zero()
    }

    fn add(self, rhs: Self) -> (r: Self) {
        Vector2::add(self, rhs)
    }

    fn sub(self, rhs: Self) -> (r: Self) {
        Vector2::sub(self, rhs)
    }

    fn mul_scalar(self, rhs: T) -> (r: Self) {
        Vector2::mul_scalar(self, rhs)
    }

    fn dot(&self, other: &Self) -> (r: T) {
        Vector2::dot(self, other)
    }

    fn magnitude(&self) -> (r: T) where T: FloatingPoint {
        Vector2::magnitude(self)
    }

    fn normalize(&self) -> (r: Self) where T: FloatingPoint {
        Vector2::normalize(self)
    }

    fn project(&self, other: &Self) -> (r: Self) where T: FloatingPoint {
        Vector2::project(self, other)
    }

    fn length(&self) -> (r: T) where T: FloatingPoint {
        Vector2::length(self)
    }
}

impl<T: Number> EuclideanGeometry for Vector2<T> {
    type CrossProduct = T;

    open spec fn cross_req(self, other: Self) -> bool {
        Vector2::cross_req(self, other)
    }

    open spec fn cross_spec(self, other: Self) -> T {
        Vector2::cross_spec(self, other)
    }

    fn cross(&self, other: Self) -> (r: T) {
        Vector2::cross(self, other)
    }
}

impl<T> Vector3<T> {
    pub fn new(x: T, y: T, z: T) -> (v: Self)
        ensures
            v.x == x,
            v.y == y,
            v.z == z,
    {
        Self { x, y, z }
    }

    /// The vector whose components all are `value`.
    pub open spec fn splat_spec(value: T) -> Self {
        Vector3 { x: value, y: value, z: value }
    }
}

impl<T: Copy> From<T> for Vector3<T> {
    /// The vector whose components all are `value`.
    fn from(value: T) -> (v: Self) {
        Vector3 { x: value, y: value, z: value }
    }
}

impl<T: Copy> FromSpecImpl<T> for Vector3<T> {
    open spec fn obeys_from_spec() -> bool {
        true
    }

    open spec fn from_spec(value: T) -> Self {
        Self::splat_spec(value)
    }
}

impl<T: Copy> Vector3<T> {
    /// The first two components.
    pub open spec fn xy_spec(self) -> Vector2<T> {
        Vector2 { x: self.x, y: self.y }
    }

    #[inline]
    pub fn xy(&self) -> (v: Vector2<T>)
        ensures
            v == self.xy_spec(),
    {
        Vector2 { x: self.x, y: self.y }
    }

}

impl<T: Number> Vector3<T> {
    /// Whether the component-wise sum with `rhs` may be formed.
    pub open spec fn add_req(self, rhs: Self) -> bool {
        &&& self.x.add_req(rhs.x)
        &&& self.y.add_req(rhs.y)
        &&& self.z.add_req(rhs.z)
    }

    /// The component-wise sum with `rhs`.
    pub open spec fn add_spec(self, rhs: Self) -> Self {
        Vector3 { x: self.x.add_spec(rhs.x), y: self.y.add_spec(rhs.y), z: self.z.add_spec(rhs.z) }
    }

    pub fn add(self, rhs: Self) -> (r: Self)
        requires
            self.add_req(rhs),
        ensures
            r == self.add_spec(rhs),
    {
        Vector3 { x: self.x.add(rhs.x), y: self.y.add(rhs.y), z: self.z.add(rhs.z) }
    }

    /// Whether the component-wise difference with `rhs` may be formed.
    pub open spec fn sub_req(self, rhs: Self) -> bool {
        &&& self.x.sub_req(rhs.x)
        &&& self.y.sub_req(rhs.y)
        &&& self.z.sub_req(rhs.z)
    }

    /// The component-wise difference with `rhs`.
    pub open spec fn sub_spec(self, rhs: Self) -> Self {
        Vector3 { x: self.x.sub_spec(rhs.x), y: self.y.sub_spec(rhs.y), z: self.z.sub_spec(rhs.z) }
    }

    pub fn sub(self, rhs: Self) -> (r: Self)
        requires
            self.sub_req(rhs),
        ensures
            r == self.sub_spec(rhs),
    {
        Vector3 { x: self.x.sub(rhs.x), y: self.y.sub(rhs.y), z: self.z.sub(rhs.z) }
    }

    /// Whether the component-wise product with `rhs` may be formed.
    pub open spec fn mul_req(self, rhs: Self) -> bool {
        &&& self.x.mul_req(rhs.x)
        &&& self.y.mul_req(rhs.y)
        &&& self.z.mul_req(rhs.z)
    }

    /// The component-wise product with `rhs`.
    pub open spec fn mul_spec(self, rhs: Self) -> Self {
        Vector3 { x: self.x.mul_spec(rhs.x), y: self.y.mul_spec(rhs.y), z: self.z.mul_spec(rhs.z) }
    }

    pub fn mul(self, rhs: Self) -> (r: Self)
        requires
            self.mul_req(rhs),
        ensures
            r == self.mul_spec(rhs),
    {
        Vector3 { x: self.x.mul(rhs.x), y: self.y.mul(rhs.y), z: self.z.mul(rhs.z) }
    }

    /// Whether the component-wise quotient with `rhs` may be formed.
    pub open spec fn div_req(self, rhs: Self) -> bool {
        &&& self.x.div_req(rhs.x)
        &&& self.y.div_req(rhs.y)
        &&& self.z.div_req(rhs.z)
    }

    /// The component-wise quotient with `rhs`.
    pub open spec fn div_spec(self, rhs: Self) -> Self {
        Vector3 { x: self.x.div_spec(rhs.x), y: self.y.div_spec(rhs.y), z: self.z.div_spec(rhs.z) }
    }

    pub fn div(self, rhs: Self) -> (r: Self)
        requires
            self.div_req(rhs),
        ensures
            r == self.div_spec(rhs),
    {
        Vector3 { x: self.x.div(rhs.x), y: self.y.div(rhs.y), z: self.z.div(rhs.z) }
    }

    /// Whether the component-wise remainder with `rhs` may be formed.
    pub open spec fn rem_req(self, rhs: Self) -> bool {
        &&& self.x.rem_req(rhs.x)
        &&& self.y.rem_req(rhs.y)
        &&& self.z.rem_req(rhs.z)
    }

    /// The component-wise remainder with `rhs`.
    pub open spec fn rem_spec(self, rhs: Self) -> Self {
        Vector3 { x: self.x.rem_spec(rhs.x), y: self.y.rem_spec(rhs.y), z: self.z.rem_spec(rhs.z) }
    }

    pub fn rem(self, rhs: Self) -> (r: Self)
        requires
            self.rem_req(rhs),
        ensures
            r == self.rem_spec(rhs),
    {
        Vector3 { x: self.x.rem(rhs.x), y: self.y.rem(rhs.y), z: self.z.rem(rhs.z) }
    }

    /// Whether the sum of each component and the scalar `rhs` may be formed.
    pub open spec fn add_scalar_req(self, rhs: T) -> bool {
        &&& self.x.add_req(rhs)
        &&& self.y.add_req(rhs)
        &&& self.z.add_req(rhs)
    }

    /// The sum of each component and the scalar `rhs`.
    pub open spec fn add_scalar_spec(self, rhs: T) -> Self {
        Vector3 { x: self.x.add_spec(rhs), y: self.y.add_spec(rhs), z: self.z.add_spec(rhs) }
    }

    pub fn add_scalar(self, rhs: T) -> (r: Self)
        requires
            self.add_scalar_req(rhs),
        ensures
            r == self.add_scalar_spec(rhs),
    {
        Vector3 { x: self.x.add(rhs), y: self.y.add(rhs), z: self.z.add(rhs) }
    }

    /// Whether the difference of each component and the scalar `rhs` may be formed.
    pub open spec fn sub_scalar_req(self, rhs: T) -> bool {
        &&& self.x.sub_req(rhs)
        &&& self.y.sub_req(rhs)
        &&& self.z.sub_req(rhs)
    }

    /// The difference of each component and the scalar `rhs`.
    pub open spec fn sub_scalar_spec(self, rhs: T) -> Self {
        Vector3 { x: self.x.sub_spec(rhs), y: self.y.sub_spec(rhs), z: self.z.sub_spec(rhs) }
    }

    pub fn sub_scalar(self, rhs: T) -> (r: Self)
        requires
            self.sub_scalar_req(rhs),
        ensures
            r == self.sub_scalar_spec(rhs),
    {
        Vector3 { x: self.x.sub(rhs), y: self.y.sub(rhs), z: self.z.sub(rhs) }
    }

    /// Whether the product of each component and the scalar `rhs` may be formed.
    pub open spec fn mul_scalar_req(self, rhs: T) -> bool {
        &&& self.x.mul_req(rhs)
        &&& self.y.mul_req(rhs)
        &&& self.z.mul_req(rhs)
    }

    /// The product of each component and the scalar `rhs`.
    pub open spec fn mul_scalar_spec(self, rhs: T) -> Self {
        Vector3 { x: self.x.mul_spec(rhs), y: self.y.mul_spec(rhs), z: self.z.mul_spec(rhs) }
    }

    pub fn mul_scalar(self, rhs: T) -> (r: Self)
        requires
            self.mul_scalar_req(rhs),
        ensures
            r == self.mul_scalar_spec(rhs),
    {
        Vector3 { x: self.x.mul(rhs), y: self.y.mul(rhs), z: self.z.mul(rhs) }
    }

    /// Whether the quotient of each component by the scalar `rhs` may be formed.
    pub open spec fn div_scalar_req(self, rhs: T) -> bool {
        &&& self.x.div_req(rhs)
        &&& self.y.div_req(rhs)
        &&& self.z.div_req(rhs)
    }

    /// The quotient of each component by the scalar `rhs`.
    pub open spec fn div_scalar_spec(self, rhs: T) -> Self {
        Vector3 { x: self.x.div_spec(rhs), y: self.y.div_spec(rhs), z: self.z.div_spec(rhs) }
    }

    pub fn div_scalar(self, rhs: T) -> (r: Self)
        requires
            self.div_scalar_req(rhs),
        ensures
            r == self.div_scalar_spec(rhs),
    {
        Vector3 { x: self.x.div(rhs), y: self.y.div(rhs), z: self.z.div(rhs) }
    }

    pub fn add_assign(&mut self, rhs: Self)
        requires
            old(self).add_req(rhs),
        ensures
            *final(self) == old(self).add_spec(rhs),
    {
        self.x = self.x.add(rhs.x);
        self.y = self.y.add(rhs.y);
        self.z = self.z.add(rhs.z);
    }

    pub fn sub_assign(&mut self, rhs: Self)
        requires
            old(self).sub_req(rhs),
        ensures
            *final(self) == old(self).sub_spec(rhs),
    {
        self.x = self.x.sub(rhs.x);
        self.y = self.y.sub(rhs.y);
        self.z = self.z.sub(rhs.z);
    }

    pub fn mul_assign(&mut self, rhs: Self)
        requires
            old(self).mul_req(rhs),
        ensures
            *final(self) == old(self).mul_spec(rhs),
    {
        self.x = self.x.mul(rhs.x);
        self.y = self.y.mul(rhs.y);
        self.z = self.z.mul(rhs.z);
    }

    pub fn div_assign(&mut self, rhs: Self)
        requires
            old(self).div_req(rhs),
        ensures
            *final(self) == old(self).div_spec(rhs),
    {
        self.x = self.x.div(rhs.x);
        self.y = self.y.div(rhs.y);
        self.z = self.z.div(rhs.z);
    }

    /// Whether every component equals the scalar `other`.
    pub open spec fn equals_scalar_spec(self, other: T) -> bool {
        &&& self.x.equal_spec(other)
        &&& self.y.equal_spec(other)
        &&& self.z.equal_spec(other)
    }

    pub fn equals_scalar(&self, other: T) -> (r: bool)
        ensures
            r == self.equals_scalar_spec(other),
    {
        self.x.equal(other) && self.y.equal(other) && self.z.equal(other)
    }

    /// The vector whose components all are zero.
    pub open spec fn zero_spec() -> Self {
        Self::splat_spec(T::zero_spec())
    }

    pub fn zero() -> (r: Self)
        ensures
            r == Self::zero_spec(),
    {
        Vector3 { x: T::zero(), y: T::zero(), z: T::zero() }
    }

    /// Whether every component equals zero.
    pub open spec fn is_zero_spec(self) -> bool {
        self.equals_scalar_spec(T::zero_spec())
    }

    pub fn is_zero(&self) -> (r: bool)
        ensures
            r == self.is_zero_spec(),
    {
        self.x.equal(T::zero()) && self.y.equal(T::zero()) && self.z.equal(T::zero())
    }

    pub fn set_zero(&mut self)
        ensures
            *final(self) == Self::zero_spec(),
    {
        self.x = T::zero();
        self.y = T::zero();
        self.z = T::zero();
    }

    /// The vector whose components all are one.
    pub open spec fn one_spec() -> Self {
        Self::splat_spec(T::one_spec())
    }

    pub fn one() -> (r: Self)
        ensures
            r == Self::one_spec(),
    {
        Vector3 { x: T::one(), y: T::one(), z: T::one() }
    }

    /// Whether every component equals one.
    pub open spec fn is_one_spec(self) -> bool {
        self.equals_scalar_spec(T::one_spec())
    }

    pub fn is_one(&self) -> (r: bool)
        ensures
            r == self.is_one_spec(),
    {
        self.x.equal(T::one()) && self.y.equal(T::one()) && self.z.equal(T::one())
    }

    pub fn set_one(&mut self)
        ensures
            *final(self) == Self::one_spec(),
    {
        self.x = T::one();
        self.y = T::one();
        self.z = T::one();
    }

    /// Whether the dot product with `other` may be formed: each product
    /// and each partial sum, taken from the first component on.
    pub open spec fn dot_req(self, other: Self) -> bool {
        &&& self.x.mul_req(other.x)
        &&& self.y.mul_req(other.y)
        &&& self.z.mul_req(other.z)
        &&& self.x.mul_spec(other.x).add_req(self.y.mul_spec(other.y))
        &&& self.x.mul_spec(other.x)
            .add_spec(self.y.mul_spec(other.y))
            .add_req(self.z.mul_spec(other.z))
    }

    /// The dot product: the products of the components, summed from the
    /// first on.
    pub open spec fn dot_spec(self, other: Self) -> T {
        self.x.mul_spec(other.x)
            .add_spec(self.y.mul_spec(other.y))
            .add_spec(self.z.mul_spec(other.z))
    }

    pub fn dot(&self, other: &Self) -> (r: T)
        requires
            self.dot_req(*other),
        ensures
            r == self.dot_spec(*other),
    {
        self.x.mul(other.x).add(self.y.mul(other.y)).add(self.z.mul(other.z))
    }

    /// Whether the cross product with `other` may be formed.
    pub open spec fn cross_req(self, other: Self) -> bool {
        &&& Vector2 { x: self.y, y: self.z }.cross_req(Vector2 { x: other.y, y: other.z })
        &&& Vector2 { x: self.z, y: self.x }.cross_req(Vector2 { x: other.z, y: other.x })
        &&& Vector2 { x: self.x, y: self.y }.cross_req(Vector2 { x: other.x, y: other.y })
    }

    /// The cross product of two space vectors.
    pub open spec fn cross_spec(self, other: Self) -> Self {
        Vector3 {
            x: self.y.mul_spec(other.z).sub_spec(self.z.mul_spec(other.y)),
            y: self.z.mul_spec(other.x).sub_spec(self.x.mul_spec(other.z)),
            z: self.x.mul_spec(other.y).sub_spec(self.y.mul_spec(other.x)),
        }
    }

    pub fn cross(&self, other: Self) -> (r: Self)
        requires
            self.cross_req(other),
        ensures
            r == self.cross_spec(other),
    {
        Self::new(
            self.y.mul(other.z).sub(self.z.mul(other.y)),
            self.z.mul(other.x).sub(self.x.mul(other.z)),
            self.x.mul(other.y).sub(self.y.mul(other.x)),
        )
    }

    /// Whether the product of this row vector and the matrix `rhs` may
    /// be formed.
    pub open spec fn mul_matrix_req(self, rhs: Matrix3<T>) -> bool {
        &&& self.dot_req(Vector3 { x: rhs.x.x, y: rhs.y.x, z: rhs.z.x })
        &&& self.dot_req(Vector3 { x: rhs.x.y, y: rhs.y.y, z: rhs.z.y })
        &&& self.dot_req(Vector3 { x: rhs.x.z, y: rhs.y.z, z: rhs.z.z })
    }

    /// The row vector times the matrix: component `c` of the result is the
    /// dot product of the vector with the `c` components of the matrix's
    /// rows.
    pub open spec fn mul_matrix_spec(self, rhs: Matrix3<T>) -> Self {
        Vector3 {
            x: self.dot_spec(Vector3 { x: rhs.x.x, y: rhs.y.x, z: rhs.z.x }),
            y: self.dot_spec(Vector3 { x: rhs.x.y, y: rhs.y.y, z: rhs.z.y }),
            z: self.dot_spec(Vector3 { x: rhs.x.z, y: rhs.y.z, z: rhs.z.z }),
        }
    }

    pub fn mul_matrix(self, rhs: Matrix3<T>) -> (r: Self)
        requires
            self.mul_matrix_req(rhs),
        ensures
            r == self.mul_matrix_spec(rhs),
    {
        Vector3 {
            x: self.x.mul(rhs.x.x).add(self.y.mul(rhs.y.x)).add(self.z.mul(rhs.z.x)),
            y: self.x.mul(rhs.x.y).add(self.y.mul(rhs.y.y)).add(self.z.mul(rhs.z.y)),
            z: self.x.mul(rhs.x.z).add(self.y.mul(rhs.y.z)).add(self.z.mul(rhs.z.z)),
        }
    }

    /// `self < other` in the order of the components from the first on:
    /// the first pair of components that is not equal decides.
    pub open spec fn less_spec(self, other: Self) -> bool {
        ||| self.x.less_spec(other.x)
        ||| self.x.equal_spec(other.x) && self.y.less_spec(other.y)
        ||| self.x.equal_spec(other.x) && self.y.equal_spec(other.y) && self.z.less_spec(other.z)
    }

    /// `self <= other` in the same order.
    pub open spec fn less_equal_spec(self, other: Self) -> bool {
        ||| self.x.less_spec(other.x)
        ||| self.x.equal_spec(other.x) && self.y.less_spec(other.y)
        ||| self.x.equal_spec(other.x)
            && self.y.equal_spec(other.y)
            && self.z.less_equal_spec(other.z)
    }

    pub fn less(&self, other: &Self) -> (r: bool)
        ensures
            r == self.less_spec(*other),
    {
        self.x.less(other.x)
            || (self.x.equal(other.x) && self.y.less(other.y))
            || (self.x.equal(other.x) && self.y.equal(other.y) && self.z.less(other.z))
    }

    pub fn less_equal(&self, other: &Self) -> (r: bool)
        ensures
            r == self.less_equal_spec(*other),
    {
        self.x.less(other.x)
            || (self.x.equal(other.x) && self.y.less(other.y))
            || (self.x.equal(other.x) && self.y.equal(other.y) && self.z.less_equal(other.z))
    }

    /// `self` held between `min` and `max`.
    pub open spec fn clamp_spec(self, min: Self, max: Self) -> Self {
        if self.less_spec(min) {
            min
        } else if max.less_spec(self) {
            max
        } else {
            self
        }
    }

    pub fn clamp(self, min: Self, max: Self) -> (r: Self)
        requires
            min.less_equal_spec(max),
        ensures
            r == self.clamp_spec(min, max),
    {
        if self.less(&min) {
            min
        } else if max.less(&self) {
            max
        } else {
            self
        }
    }
}

impl<T: SignedNumber> Vector3<T> {
    /// Whether the negation of each component may be formed.
    pub open spec fn neg_req(self) -> bool {
        &&& self.x.neg_req()
        &&& self.y.neg_req()
        &&& self.z.neg_req()
    }

    /// The negation of each component.
    pub open spec fn neg_spec(self) -> Self {
        Vector3 { x: self.x.neg_spec(), y: self.y.neg_spec(), z: self.z.neg_spec() }
    }

    pub fn neg(self) -> (r: Self)
        requires
            self.neg_req(),
        ensures
            r == self.neg_spec(),
    {
        Vector3 { x: self.x.neg(), y: self.y.neg(), z: self.z.neg() }
    }

    /// Whether the absolute value of each component may be formed.
    pub open spec fn abs_req(self) -> bool {
        &&& self.x.abs_req()
        &&& self.y.abs_req()
        &&& self.z.abs_req()
    }

    /// The absolute value of each component.
    pub open spec fn abs_spec(self) -> Self {
        Vector3 { x: self.x.abs_spec(), y: self.y.abs_spec(), z: self.z.abs_spec() }
    }

    pub fn abs(self) -> (r: Self)
        requires
            self.abs_req(),
        ensures
            r == self.abs_spec(),
    {
        Vector3 { x: self.x.abs(), y: self.y.abs(), z: self.z.abs() }
    }

    /// The sign of each component.
    pub open spec fn signum_spec(self) -> Self {
        Vector3 { x: self.x.signum_spec(), y: self.y.signum_spec(), z: self.z.signum_spec() }
    }

    pub fn signum(self) -> (r: Self)
        ensures
            r == self.signum_spec(),
    {
        Vector3 { x: self.x.signum(), y: self.y.signum(), z: self.z.signum() }
    }

}

impl<T: FloatingPoint> Vector3<T> {
    /// The Euclidean length: the square root of the dot product of the
    /// vector with itself.
    pub open spec fn magnitude_spec(self) -> T {
        self.dot_spec(self).sqrt_spec()
    }

    pub fn magnitude(&self) -> (r: T)
        ensures
            r == self.magnitude_spec(),
    {
        proof {
            T::arithmetic_is_total();
        }
        self.x.mul(self.x).add(self.y.mul(self.y)).add(self.z.mul(self.z)).sqrt()
    }

    /// The distance between two points is measured as the length of their
    /// difference, so this is the magnitude under another name.
    pub fn length(&self) -> (r: T)
        ensures
            r == self.magnitude_spec(),
    {
        proof {
            T::arithmetic_is_total();
        }
        self.dot(self).sqrt()
    }

    /// Each component divided by the magnitude.
    pub open spec fn normalize_spec(self) -> Self {
        self.div_scalar_spec(self.magnitude_spec())
    }

    pub fn normalize(&self) -> (r: Self)
        ensures
            r == self.normalize_spec(),
    {
        proof {
            T::arithmetic_is_total();
        }
        let magnitude = self.magnitude();
        Vector3 { x: self.x.div(magnitude), y: self.y.div(magnitude), z: self.z.div(magnitude) }
    }

    /// The normalized vector scaled by its dot product with `other`.
    pub open spec fn project_spec(self, other: Self) -> Self {
        self.normalize_spec().mul_scalar_spec(self.normalize_spec().dot_spec(other))
    }

    pub fn project(&self, other: &Self) -> (r: Self)
        ensures
            r == self.project_spec(*other),
    {
        proof {
            T::arithmetic_is_total();
        }
        let vector = self.normalize();
        let t = vector.dot(other);
        Vector3 { x: vector.x.mul(t), y: vector.y.mul(t), z: vector.z.mul(t) }
    }

    /// Each component raised to the power of the same component of `n`.
    pub open spec fn pow_spec(self, n: Self) -> Self {
        Vector3 { x: self.x.powf_spec(n.x), y: self.y.powf_spec(n.y), z: self.z.powf_spec(n.z) }
    }

    pub fn pow(&self, n: Self) -> (r: Self)
        ensures
            r == self.pow_spec(n),
    {
        Self::new(self.x.powf(n.x), self.y.powf(n.y), self.z.powf(n.z))
    }

}

impl<T: Number> Vector for Vector3<T> {
    type Scalar = T;

    open spec fn zero_spec() -> Self {
        Vector3::zero_spec()
    }

    open spec fn add_req(self, rhs: Self) -> bool {
        Vector3::add_req(self, rhs)
    }

    open spec fn add_spec(self, rhs: Self) -> Self {
        Vector3::add_spec(self, rhs)
    }

    open spec fn sub_req(self, rhs: Self) -> bool {
        Vector3::sub_req(self, rhs)
    }

    open spec fn sub_spec(self, rhs: Self) -> Self {
        Vector3::sub_spec(self, rhs)
    }

    open spec fn mul_scalar_req(self, rhs: T) -> bool {
        Vector3::mul_scalar_req(self, rhs)
    }

    open spec fn mul_scalar_spec(self, rhs: T) -> Self {
        Vector3::mul_scalar_spec(self, rhs)
    }

    open spec fn dot_req(self, other: Self) -> bool {
        Vector3::dot_req(self, other)
    }

    open spec fn dot_spec(self, other: Self) -> T {
        Vector3::dot_spec(self, other)
    }

    open spec fn magnitude_spec(self) -> T where T: FloatingPoint {
        Vector3::magnitude_spec(self)
    }

    open spec fn normalize_spec(self) -> Self where T: FloatingPoint {
        Vector3::normalize_spec(self)
    }

    open spec fn project_spec(self, other: Self) -> Self where T: FloatingPoint {
        Vector3::project_spec(self, other)
    }

    proof fn arithmetic_is_total() where T: FloatingPoint {
        T::arithmetic_is_total();
    }

    proof fn exact_interpolation(a: Self, b: Self) where T: ExactNumber {
        T::arithmetic_is_exact();
        lemma_exact_interpolation(a.x, b.x);
        lemma_exact_interpolation(a.y, b.y);
        lemma_exact_interpolation(a.z, b.z);
    }

    fn size() -> (r: usize)
        ensures
            r == 3,
    {
        3
    }

    fn zero() -> (r: Self) {
        Vector3::zero()
    }

    fn add(self, rhs: Self) -> (r: Self) {
        Vector3::add(self, rhs)
    }

    fn sub(self, rhs: Self) -> (r: Self) {
        Vector3::sub(self, rhs)
    }

    fn mul_scalar(self, rhs: T) -> (r: Self) {
        Vector3::mul_scalar(self, rhs)
    }

    fn dot(&self, other: &Self) -> (r: T) {
        Vector3::dot(self, other)
    }

    fn magnitude(&self) -> (r: T) where T: FloatingPoint {
        Vector3::magnitude(self)
    }

    fn normalize(&self) -> (r: Self) where T: FloatingPoint {
        Vector3::normalize(self)
    }

    fn project(&self, other: &Self) -> (r: Self) where T: FloatingPoint {
        Vector3::project(self, other)
    }

    fn length(&self) -> (r: T) where T: FloatingPoint {
        Vector3::length(self)
    }
}

impl<T: Number> EuclideanGeometry for Vector3<T> {
    type CrossProduct = Self;

    open spec fn cross_req(self, other: Self) -> bool {
        Vector3::cross_req(self, other)
    }

    open spec fn cross_spec(self, other: Self) -> Self {
        Vector3::cross_spec(self, other)
    }

    fn cross(&self, other: Self) -> (r: Self) {
        Vector3::cross(self, other)
    }
}

impl<T> Vector4<T> {
    pub fn new(x: T, y: T, z: T, w: T) -> (v: Self)
        ensures
            v.x == x,
            v.y == y,
            v.z == z,
            v.w == w,
    {
        Self { x, y, z, w }
    }

    /// The vector whose components all are `value`.
    pub open spec fn splat_spec(value: T) -> Self {
        Vector4 { x: value, y: value, z: value, w: value }
    }
}

impl<T: Copy> From<T> for Vector4<T> {
    /// The vector whose components all are `value`.
    fn from(value: T) -> (v: Self) {
        Vector4 { x: value, y: value, z: value, w: value }
    }
}

impl<T: Copy> FromSpecImpl<T> for Vector4<T> {
    open spec fn obeys_from_spec() -> bool {
        true
    }

    open spec fn from_spec(value: T) -> Self {
        Self::splat_spec(value)
    }
}

impl<T: Copy> Vector4<T> {
    /// The first three components.
    pub open spec fn xyz_spec(self) -> Vector3<T> {
        Vector3 { x: self.x, y: self.y, z: self.z }
    }

    #[inline]
    pub fn xyz(&self) -> (v: Vector3<T>)
        ensures
            v == self.xyz_spec(),
    {
        Vector3 { x: self.x, y: self.y, z: self.z }
    }

}

impl<T: Number> Vector4<T> {
    /// Whether the component-wise sum with `rhs` may be formed.
    pub open spec fn add_req(self, rhs: Self) -> bool {
        &&& self.x.add_req(rhs.x)
        &&& self.y.add_req(rhs.y)
        &&& self.z.add_req(rhs.z)
        &&& self.w.add_req(rhs.w)
    }

    /// The component-wise sum with `rhs`.
    pub open spec fn add_spec(self, rhs: Self) -> Self {
        Vector4 {
            x: self.x.add_spec(rhs.x),
            y: self.y.add_spec(rhs.y),
            z: self.z.add_spec(rhs.z),
            w: self.w.add_spec(rhs.w),
        }
    }

    pub fn add(self, rhs: Self) -> (r: Self)
        requires
            self.add_req(rhs),
        ensures
            r == self.add_spec(rhs),
    {
        Vector4 {
            x: self.x.add(rhs.x),
            y: self.y.add(rhs.y),
            z: self.z.add(rhs.z),
            w: self.w.add(rhs.w),
        }
    }

    /// Whether the component-wise difference with `rhs` may be formed.
    pub open spec fn sub_req(self, rhs: Self) -> bool {
        &&& self.x.sub_req(rhs.x)
        &&& self.y.sub_req(rhs.y)
        &&& self.z.sub_req(rhs.z)
        &&& self.w.sub_req(rhs.w)
    }

    /// The component-wise difference with `rhs`.
    pub open spec fn sub_spec(self, rhs: Self) -> Self {
        Vector4 {
            x: self.x.sub_spec(rhs.x),
            y: self.y.sub_spec(rhs.y),
            z: self.z.sub_spec(rhs.z),
            w: self.w.sub_spec(rhs.w),
        }
    }

    pub fn sub(self, rhs: Self) -> (r: Self)
        requires
            self.sub_req(rhs),
        ensures
            r == self.sub_spec(rhs),
    {
        Vector4 {
            x: self.x.sub(rhs.x),
            y: self.y.sub(rhs.y),
            z: self.z.sub(rhs.z),
            w: self.w.sub(rhs.w),
        }
    }

    /// Whether the component-wise product with `rhs` may be formed.
    pub open spec fn mul_req(self, rhs: Self) -> bool {
        &&& self.x.mul_req(rhs.x)
        &&& self.y.mul_req(rhs.y)
        &&& self.z.mul_req(rhs.z)
        &&& self.w.mul_req(rhs.w)
    }

    /// The component-wise product with `rhs`.
    pub open spec fn mul_spec(self, rhs: Self) -> Self {
        Vector4 {
            x: self.x.mul_spec(rhs.x),
            y: self.y.mul_spec(rhs.y),
            z: self.z.mul_spec(rhs.z),
            w: self.w.mul_spec(rhs.w),
        }
    }

    pub fn mul(self, rhs: Self) -> (r: Self)
        requires
            self.mul_req(rhs),
        ensures
            r == self.mul_spec(rhs),
    {
        Vector4 {
            x: self.x.mul(rhs.x),
            y: self.y.mul(rhs.y),
            z: self.z.mul(rhs.z),
            w: self.w.mul(rhs.w),
        }
    }

    /// Whether the component-wise quotient with `rhs` may be formed.
    pub open spec fn div_req(self, rhs: Self) -> bool {
        &&& self.x.div_req(rhs.x)
        &&& self.y.div_req(rhs.y)
        &&& self.z.div_req(rhs.z)
        &&& self.w.div_req(rhs.w)
    }

    /// The component-wise quotient with `rhs`.
    pub open spec fn div_spec(self, rhs: Self) -> Self {
        Vector4 {
            x: self.x.div_spec(rhs.x),
            y: self.y.div_spec(rhs.y),
            z: self.z.div_spec(rhs.z),
            w: self.w.div_spec(rhs.w),
        }
    }

    pub fn div(self, rhs: Self) -> (r: Self)
        requires
            self.div_req(rhs),
        ensures
            r == self.div_spec(rhs),
    {
        Vector4 {
            x: self.x.div(rhs.x),
            y: self.y.div(rhs.y),
            z: self.z.div(rhs.z),
            w: self.w.div(rhs.w),
        }
    }

    /// Whether the component-wise remainder with `rhs` may be formed.
    pub open spec fn rem_req(self, rhs: Self) -> bool {
        &&& self.x.rem_req(rhs.x)
        &&& self.y.rem_req(rhs.y)
        &&& self.z.rem_req(rhs.z)
        &&& self.w.rem_req(rhs.w)
    }

    /// The component-wise remainder with `rhs`.
    pub open spec fn rem_spec(self, rhs: Self) -> Self {
        Vector4 {
            x: self.x.rem_spec(rhs.x),
            y: self.y.rem_spec(rhs.y),
            z: self.z.rem_spec(rhs.z),
            w: self.w.rem_spec(rhs.w),
        }
    }

    pub fn rem(self, rhs: Self) -> (r: Self)
        requires
            self.rem_req(rhs),
        ensures
            r == self.rem_spec(rhs),
    {
        Vector4 {
            x: self.x.rem(rhs.x),
            y: self.y.rem(rhs.y),
            z: self.z.rem(rhs.z),
            w: self.w.rem(rhs.w),
        }
    }

    /// Whether the sum of each component and the scalar `rhs` may be formed.
    pub open spec fn add_scalar_req(self, rhs: T) -> bool {
        &&& self.x.add_req(rhs)
        &&& self.y.add_req(rhs)
        &&& self.z.add_req(rhs)
        &&& self.w.add_req(rhs)
    }

    /// The sum of each component and the scalar `rhs`.
    pub open spec fn add_scalar_spec(self, rhs: T) -> Self {
        Vector4 {
            x: self.x.add_spec(rhs),
            y: self.y.add_spec(rhs),
            z: self.z.add_spec(rhs),
            w: self.w.add_spec(rhs),
        }
    }

    pub fn add_scalar(self, rhs: T) -> (r: Self)
        requires
            self.add_scalar_req(rhs),
        ensures
            r == self.add_scalar_spec(rhs),
    {
        Vector4 { x: self.x.add(rhs), y: self.y.add(rhs), z: self.z.add(rhs), w: self.w.add(rhs) }
    }

    /// Whether the difference of each component and the scalar `rhs` may be formed.
    pub open spec fn sub_scalar_req(self, rhs: T) -> bool {
        &&& self.x.sub_req(rhs)
        &&& self.y.sub_req(rhs)
        &&& self.z.sub_req(rhs)
        &&& self.w.sub_req(rhs)
    }

    /// The difference of each component and the scalar `rhs`.
    pub open spec fn sub_scalar_spec(self, rhs: T) -> Self {
        Vector4 {
            x: self.x.sub_spec(rhs),
            y: self.y.sub_spec(rhs),
            z: self.z.sub_spec(rhs),
            w: self.w.sub_spec(rhs),
        }
    }

    pub fn sub_scalar(self, rhs: T) -> (r: Self)
        requires
            self.sub_scalar_req(rhs),
        ensures
            r == self.sub_scalar_spec(rhs),
    {
        Vector4 { x: self.x.sub(rhs), y: self.y.sub(rhs), z: self.z.sub(rhs), w: self.w.sub(rhs) }
    }

    /// Whether the product of each component and the scalar `rhs` may be formed.
    pub open spec fn mul_scalar_req(self, rhs: T) -> bool {
        &&& self.x.mul_req(rhs)
        &&& self.y.mul_req(rhs)
        &&& self.z.mul_req(rhs)
        &&& self.w.mul_req(rhs)
    }

    /// The product of each component and the scalar `rhs`.
    pub open spec fn mul_scalar_spec(self, rhs: T) -> Self {
        Vector4 {
            x: self.x.mul_spec(rhs),
            y: self.y.mul_spec(rhs),
            z: self.z.mul_spec(rhs),
            w: self.w.mul_spec(rhs),
        }
    }

    pub fn mul_scalar(self, rhs: T) -> (r: Self)
        requires
            self.mul_scalar_req(rhs),
        ensures
            r == self.mul_scalar_spec(rhs),
    {
        Vector4 { x: self.x.mul(rhs), y: self.y.mul(rhs), z: self.z.mul(rhs), w: self.w.mul(rhs) }
    }

    /// Whether the quotient of each component by the scalar `rhs` may be formed.
    pub open spec fn div_scalar_req(self, rhs: T) -> bool {
        &&& self.x.div_req(rhs)
        &&& self.y.div_req(rhs)
        &&& self.z.div_req(rhs)
        &&& self.w.div_req(rhs)
    }

    /// The quotient of each component by the scalar `rhs`.
    pub open spec fn div_scalar_spec(self, rhs: T) -> Self {
        Vector4 {
            x: self.x.div_spec(rhs),
            y: self.y.div_spec(rhs),
            z: self.z.div_spec(rhs),
            w: self.w.div_spec(rhs),
        }
    }

    pub fn div_scalar(self, rhs: T) -> (r: Self)
        requires
            self.div_scalar_req(rhs),
        ensures
            r == self.div_scalar_spec(rhs),
    {
        Vector4 { x: self.x.div(rhs), y: self.y.div(rhs), z: self.z.div(rhs), w: self.w.div(rhs) }
    }

    pub fn add_assign(&mut self, rhs: Self)
        requires
            old(self).add_req(rhs),
        ensures
            *final(self) == old(self).add_spec(rhs),
    {
        self.x = self.x.add(rhs.x);
        self.y = self.y.add(rhs.y);
        self.z = self.z.add(rhs.z);
        self.w = self.w.add(rhs.w);
    }

    pub fn sub_assign(&mut self, rhs: Self)
        requires
            old(self).sub_req(rhs),
        ensures
            *final(self) == old(self).sub_spec(rhs),
    {
        self.x = self.x.sub(rhs.x);
        self.y = self.y.sub(rhs.y);
        self.z = self.z.sub(rhs.z);
        self.w = self.w.sub(rhs.w);
    }

    pub fn mul_assign(&mut self, rhs: Self)
        requires
            old(self).mul_req(rhs),
        ensures
            *final(self) == old(self).mul_spec(rhs),
    {
        self.x = self.x.mul(rhs.x);
        self.y = self.y.mul(rhs.y);
        self.z = self.z.mul(rhs.z);
        self.w = self.w.mul(rhs.w);
    }

    pub fn div_assign(&mut self, rhs: Self)
        requires
            old(self).div_req(rhs),
        ensures
            *final(self) == old(self).div_spec(rhs),
    {
        self.x = self.x.div(rhs.x);
        self.y = self.y.div(rhs.y);
        self.z = self.z.div(rhs.z);
        self.w = self.w.div(rhs.w);
    }

    /// Whether every component equals the scalar `other`.
    pub open spec fn equals_scalar_spec(self, other: T) -> bool {
        &&& self.x.equal_spec(other)
        &&& self.y.equal_spec(other)
        &&& self.z.equal_spec(other)
        &&& self.w.equal_spec(other)
    }

    pub fn equals_scalar(&self, other: T) -> (r: bool)
        ensures
            r == self.equals_scalar_spec(other),
    {
        self.x.equal(other) && self.y.equal(other) && self.z.equal(other) && self.w.equal(other)
    }

    /// The vector whose components all are zero.
    pub open spec fn zero_spec() -> Self {
        Self::splat_spec(T::zero_spec())
    }

    pub fn zero() -> (r: Self)
        ensures
            r == Self::zero_spec(),
    {
        Vector4 { x: T::zero(), y: T::zero(), z: T::zero(), w: T::zero() }
    }

    /// Whether every component equals zero.
    pub open spec fn is_zero_spec(self) -> bool {
        self.equals_scalar_spec(T::zero_spec())
    }

    pub fn is_zero(&self) -> (r: bool)
        ensures
            r == self.is_zero_spec(),
    {
        self.x.equal(T::zero())
            && self.y.equal(T::zero())
            && self.z.equal(T::zero())
            && self.w.equal(T::zero())
    }

    pub fn set_zero(&mut self)
        ensures
            *final(self) == Self::zero_spec(),
    {
        self.x = T::zero();
        self.y = T::zero();
        self.z = T::zero();
        self.w = T::zero();
    }

    /// The vector whose components all are one.
    pub open spec fn one_spec() -> Self {
        Self::splat_spec(T::one_spec())
    }

    pub fn one() -> (r: Self)
        ensures
            r == Self::one_spec(),
    {
        Vector4 { x: T::one(), y: T::one(), z: T::one(), w: T::one() }
    }

    /// Whether every component equals one.
    pub open spec fn is_one_spec(self) -> bool {
        self.equals_scalar_spec(T::one_spec())
    }

    pub fn is_one(&self) -> (r: bool)
        ensures
            r == self.is_one_spec(),
    {
        self.x.equal(T::one())
            && self.y.equal(T::one())
            && self.z.equal(T::one())
            && self.w.equal(T::one())
    }

    pub fn set_one(&mut self)
        ensures
            *final(self) == Self::one_spec(),
    {
        self.x = T::one();
        self.y = T::one();
        self.z = T::one();
        self.w = T::one();
    }

    /// Whether the dot product with `other` may be formed: each product
    /// and each partial sum, taken from the first component on.
    pub open spec fn dot_req(self, other: Self) -> bool {
        &&& self.x.mul_req(other.x)
        &&& self.y.mul_req(other.y)
        &&& self.z.mul_req(other.z)
        &&& self.w.mul_req(other.w)
        &&& self.x.mul_spec(other.x).add_req(self.y.mul_spec(other.y))
        &&& self.x.mul_spec(other.x)
            .add_spec(self.y.mul_spec(other.y))
            .add_req(self.z.mul_spec(other.z))
        &&& self.x.mul_spec(other.x)
            .add_spec(self.y.mul_spec(other.y))
            .add_spec(self.z.mul_spec(other.z))
            .add_req(self.w.mul_spec(other.w))
    }

    /// The dot product: the products of the components, summed from the
    /// first on.
    pub open spec fn dot_spec(self, other: Self) -> T {
        self.x.mul_spec(other.x)
            .add_spec(self.y.mul_spec(other.y))
            .add_spec(self.z.mul_spec(other.z))
            .add_spec(self.w.mul_spec(other.w))
    }

    pub fn dot(&self, other: &Self) -> (r: T)
        requires
            self.dot_req(*other),
        ensures
            r == self.dot_spec(*other),
    {
        self.x.mul(other.x)
            .add(self.y.mul(other.y))
            .add(self.z.mul(other.z))
            .add(self.w.mul(other.w))
    }

    /// Whether the product of this row vector and the matrix `rhs` may
    /// be formed.
    pub open spec fn mul_matrix_req(self, rhs: Matrix4<T>) -> bool {
        &&& self.dot_req(Vector4 { x: rhs.x.x, y: rhs.y.x, z: rhs.z.x, w: rhs.w.x })
        &&& self.dot_req(Vector4 { x: rhs.x.y, y: rhs.y.y, z: rhs.z.y, w: rhs.w.y })
        &&& self.dot_req(Vector4 { x: rhs.x.z, y: rhs.y.z, z: rhs.z.z, w: rhs.w.z })
        &&& self.dot_req(Vector4 { x: rhs.x.w, y: rhs.y.w, z: rhs.z.w, w: rhs.w.w })
    }

    /// The row vector times the matrix: component `c` of the result is the
    /// dot product of the vector with the `c` components of the matrix's
    /// rows.
    pub open spec fn mul_matrix_spec(self, rhs: Matrix4<T>) -> Self {
        Vector4 {
            x: self.dot_spec(Vector4 { x: rhs.x.x, y: rhs.y.x, z: rhs.z.x, w: rhs.w.x }),
            y: self.dot_spec(Vector4 { x: rhs.x.y, y: rhs.y.y, z: rhs.z.y, w: rhs.w.y }),
            z: self.dot_spec(Vector4 { x: rhs.x.z, y: rhs.y.z, z: rhs.z.z, w: rhs.w.z }),
            w: self.dot_spec(Vector4 { x: rhs.x.w, y: rhs.y.w, z: rhs.z.w, w: rhs.w.w }),
        }
    }

    pub fn mul_matrix(self, rhs: Matrix4<T>) -> (r: Self)
        requires
            self.mul_matrix_req(rhs),
        ensures
            r == self.mul_matrix_spec(rhs),
    {
        Vector4 {
            x: self.x.mul(rhs.x.x)
                .add(self.y.mul(rhs.y.x))
                .add(self.z.mul(rhs.z.x))
                .add(self.w.mul(rhs.w.x)),
            y: self.x.mul(rhs.x.y)
                .add(self.y.mul(rhs.y.y))
                .add(self.z.mul(rhs.z.y))
                .add(self.w.mul(rhs.w.y)),
            z: self.x.mul(rhs.x.z)
                .add(self.y.mul(rhs.y.z))
                .add(self.z.mul(rhs.z.z))
                .add(self.w.mul(rhs.w.z)),
            w: self.x.mul(rhs.x.w)
                .add(self.y.mul(rhs.y.w))
                .add(self.z.mul(rhs.z.w))
                .add(self.w.mul(rhs.w.w)),
        }
    }

    /// `self < other` in the order of the components from the first on:
    /// the first pair of components that is not equal decides.
    pub open spec fn less_spec(self, other: Self) -> bool {
        ||| self.x.less_spec(other.x)
        ||| self.x.equal_spec(other.x) && self.y.less_spec(other.y)
        ||| self.x.equal_spec(other.x) && self.y.equal_spec(other.y) && self.z.less_spec(other.z)
        ||| self.x.equal_spec(other.x)
            && self.y.equal_spec(other.y)
            && self.z.equal_spec(other.z)
            && self.w.less_spec(other.w)
    }

    /// `self <= other` in the same order.
    pub open spec fn less_equal_spec(self, other: Self) -> bool {
        ||| self.x.less_spec(other.x)
        ||| self.x.equal_spec(other.x) && self.y.less_spec(other.y)
        ||| self.x.equal_spec(other.x) && self.y.equal_spec(other.y) && self.z.less_spec(other.z)
        ||| self.x.equal_spec(other.x)
            && self.y.equal_spec(other.y)
            && self.z.equal_spec(other.z)
            && self.w.less_equal_spec(other.w)
    }

    pub fn less(&self, other: &Self) -> (r: bool)
        ensures
            r == self.less_spec(*other),
    {
        self.x.less(other.x)
            || (self.x.equal(other.x) && self.y.less(other.y))
            || (self.x.equal(other.x) && self.y.equal(other.y) && self.z.less(other.z))
            || (
                self.x.equal(other.x)
                    && self.y.equal(other.y)
                    && self.z.equal(other.z)
                    && self.w.less(other.w)
            )
    }

    pub fn less_equal(&self, other: &Self) -> (r: bool)
        ensures
            r == self.less_equal_spec(*other),
    {
        self.x.less(other.x)
            || (self.x.equal(other.x) && self.y.less(other.y))
            || (self.x.equal(other.x) && self.y.equal(other.y) && self.z.less(other.z))
            || (
                self.x.equal(other.x)
                    && self.y.equal(other.y)
                    && self.z.equal(other.z)
                    && self.w.less_equal(other.w)
            )
    }

    /// `self` held between `min` and `max`.
    pub open spec fn clamp_spec(self, min: Self, max: Self) -> Self {
        if self.less_spec(min) {
            min
        } else if max.less_spec(self) {
            max
        } else {
            self
        }
    }

    pub fn clamp(self, min: Self, max: Self) -> (r: Self)
        requires
            min.less_equal_spec(max),
        ensures
            r == self.clamp_spec(min, max),
    {
        if self.less(&min) {
            min
        } else if max.less(&self) {
            max
        } else {
            self
        }
    }
}

impl<T: SignedNumber> Vector4<T> {
    /// Whether the negation of each component may be formed.
    pub open spec fn neg_req(self) -> bool {
        &&& self.x.neg_req()
        &&& self.y.neg_req()
        &&& self.z.neg_req()
        &&& self.w.neg_req()
    }

    /// The negation of each component.
    pub open spec fn neg_spec(self) -> Self {
        Vector4 {
            x: self.x.neg_spec(),
            y: self.y.neg_spec(),
            z: self.z.neg_spec(),
            w: self.w.neg_spec(),
        }
    }

    pub fn neg(self) -> (r: Self)
        requires
            self.neg_req(),
        ensures
            r == self.neg_spec(),
    {
        Vector4 { x: self.x.neg(), y: self.y.neg(), z: self.z.neg(), w: self.w.neg() }
    }

    /// Whether the absolute value of each component may be formed.
    pub open spec fn abs_req(self) -> bool {
        &&& self.x.abs_req()
        &&& self.y.abs_req()
        &&& self.z.abs_req()
        &&& self.w.abs_req()
    }

    /// The absolute value of each component.
    pub open spec fn abs_spec(self) -> Self {
        Vector4 {
            x: self.x.abs_spec(),
            y: self.y.abs_spec(),
            z: self.z.abs_spec(),
            w: self.w.abs_spec(),
        }
    }

    pub fn abs(self) -> (r: Self)
        requires
            self.abs_req(),
        ensures
            r == self.abs_spec(),
    {
        Vector4 { x: self.x.abs(), y: self.y.abs(), z: self.z.abs(), w: self.w.abs() }
    }

    /// The sign of each component.
    pub open spec fn signum_spec(self) -> Self {
        Vector4 {
            x: self.x.signum_spec(),
            y: self.y.signum_spec(),
            z: self.z.signum_spec(),
            w: self.w.signum_spec(),
        }
    }

    pub fn signum(self) -> (r: Self)
        ensures
            r == self.signum_spec(),
    {
        Vector4 { x: self.x.signum(), y: self.y.signum(), z: self.z.signum(), w: self.w.signum() }
    }

}

impl<T: FloatingPoint> Vector4<T> {
    /// The Euclidean length: the square root of the dot product of the
    /// vector with itself.
    pub open spec fn magnitude_spec(self) -> T {
        self.dot_spec(self).sqrt_spec()
    }

    pub fn magnitude(&self) -> (r: T)
        ensures
            r == self.magnitude_spec(),
    {
        proof {
            T::arithmetic_is_total();
        }
        self.x.mul(self.x)
            .add(self.y.mul(self.y))
            .add(self.z.mul(self.z))
            .add(self.w.mul(self.w))
            .sqrt()
    }

    /// The distance between two points is measured as the length of their
    /// difference, so this is the magnitude under another name.
    pub fn length(&self) -> (r: T)
        ensures
            r == self.magnitude_spec(),
    {
        proof {
            T::arithmetic_is_total();
        }
        self.dot(self).sqrt()
    }

    /// Each component divided by the magnitude.
    pub open spec fn normalize_spec(self) -> Self {
        self.div_scalar_spec(self.magnitude_spec())
    }

    pub fn normalize(&self) -> (r: Self)
        ensures
            r == self.normalize_spec(),
    {
        proof {
            T::arithmetic_is_total();
        }
        let magnitude = self.magnitude();
        Vector4 {
            x: self.x.div(magnitude),
            y: self.y.div(magnitude),
            z: self.z.div(magnitude),
            w: self.w.div(magnitude),
        }
    }

    /// The normalized vector scaled by its dot product with `other`.
    pub open spec fn project_spec(self, other: Self) -> Self {
        self.normalize_spec().mul_scalar_spec(self.normalize_spec().dot_spec(other))
    }

    pub fn project(&self, other: &Self) -> (r: Self)
        ensures
            r == self.project_spec(*other),
    {
        proof {
            T::arithmetic_is_total();
        }
        let vector = self.normalize();
        let t = vector.dot(other);
        Vector4 { x: vector.x.mul(t), y: vector.y.mul(t), z: vector.z.mul(t), w: vector.w.mul(t) }
    }

    /// Each component raised to the power of the same component of `n`.
    pub open spec fn pow_spec(self, n: Self) -> Self {
        Vector4 {
            x: self.x.powf_spec(n.x),
            y: self.y.powf_spec(n.y),
            z: self.z.powf_spec(n.z),
            w: self.w.powf_spec(n.w),
        }
    }

    pub fn pow(&self, n: Self) -> (r: Self)
        ensures
            r == self.pow_spec(n),
    {
        Self::new(self.x.powf(n.x), self.y.powf(n.y), self.z.powf(n.z), self.w.powf(n.w))
    }

}

impl<T: Number> Vector for Vector4<T> {
    type Scalar = T;

    open spec fn zero_spec() -> Self {
        Vector4::zero_spec()
    }

    open spec fn add_req(self, rhs: Self) -> bool {
        Vector4::add_req(self, rhs)
    }

    open spec fn add_spec(self, rhs: Self) -> Self {
        Vector4::add_spec(self, rhs)
    }

    open spec fn sub_req(self, rhs: Self) -> bool {
        Vector4::sub_req(self, rhs)
    }

    open spec fn sub_spec(self, rhs: Self) -> Self {
        Vector4::sub_spec(self, rhs)
    }

    open spec fn mul_scalar_req(self, rhs: T) -> bool {
        Vector4::mul_scalar_req(self, rhs)
    }

    open spec fn mul_scalar_spec(self, rhs: T) -> Self {
        Vector4::mul_scalar_spec(self, rhs)
    }

    open spec fn dot_req(self, other: Self) -> bool {
        Vector4::dot_req(self, other)
    }

    open spec fn dot_spec(self, other: Self) -> T {
        Vector4::dot_spec(self, other)
    }

    open spec fn magnitude_spec(self) -> T where T: FloatingPoint {
        Vector4::magnitude_spec(self)
    }

    open spec fn normalize_spec(self) -> Self where T: FloatingPoint {
        Vector4::normalize_spec(self)
    }

    open spec fn project_spec(self, other: Self) -> Self where T: FloatingPoint {
        Vector4::project_spec(self, other)
    }

    proof fn arithmetic_is_total() where T: FloatingPoint {
        T::arithmetic_is_total();
    }

    proof fn exact_interpolation(a: Self, b: Self) where T: ExactNumber {
        T::arithmetic_is_exact();
        lemma_exact_interpolation(a.x, b.x);
        lemma_exact_interpolation(a.y, b.y);
        lemma_exact_interpolation(a.z, b.z);
        lemma_exact_interpolation(a.w, b.w);
    }

    fn size() -> (r: usize)
        ensures
            r == 4,
    {
        4
    }

    fn zero() -> (r: Self) {
        Vector4::zero()
    }

    fn add(self, rhs: Self) -> (r: Self) {
        Vector4::add(self, rhs)
    }

    fn sub(self, rhs: Self) -> (r: Self) {
        Vector4::sub(self, rhs)
    }

    fn mul_scalar(self, rhs: T) -> (r: Self) {
        Vector4::mul_scalar(self, rhs)
    }

    fn dot(&self, other: &Self) -> (r: T) {
        Vector4::dot(self, other)
    }

    fn magnitude(&self) -> (r: T) where T: FloatingPoint {
        Vector4::magnitude(self)
    }

    fn normalize(&self) -> (r: Self) where T: FloatingPoint {
        Vector4::normalize(self)
    }

    fn project(&self, other: &Self) -> (r: Self) where T: FloatingPoint {
        Vector4::project(self, other)
    }

    fn length(&self) -> (r: T) where T: FloatingPoint {
        Vector4::length(self)
    }
}

impl<T: Number> Vector3<T> {
    /// The plane vector as a point of the projective plane: `z` is one.
    pub open spec fn from_vector2_spec(value: Vector2<T>) -> Self {
        Vector3 { x: value.x, y: value.y, z: T::one_spec() }
    }
}

impl<T: Number> From<Vector2<T>> for Vector3<T> {
    fn from(value: Vector2<T>) -> (r: Self) {
        Self { x: value.x, y: value.y, z: T::one() }
    }
}

impl<T: Number> FromSpecImpl<Vector2<T>> for Vector3<T> {
    open spec fn obeys_from_spec() -> bool {
        true
    }

    open spec fn from_spec(value: Vector2<T>) -> Self {
        Self::from_vector2_spec(value)
    }
}

impl<T: Number> From<Vector4<T>> for Vector3<T> {
    /// The first three components of `value`.
    fn from(value: Vector4<T>) -> (r: Self) {
        Self { x: value.x, y: value.y, z: value.z }
    }
}

impl<T: Number> FromSpecImpl<Vector4<T>> for Vector3<T> {
    open spec fn obeys_from_spec() -> bool {
        true
    }

    open spec fn from_spec(value: Vector4<T>) -> Self {
        value.xyz_spec()
    }
}

impl<T: Number> Vector4<T> {
    /// The space vector as a direction: `w` is zero.
    pub open spec fn from_vector3_spec(value: Vector3<T>) -> Self {
        Vector4 { x: value.x, y: value.y, z: value.z, w: T::zero_spec() }
    }
}

impl<T: Number> From<Vector3<T>> for Vector4<T> {
    fn from(value: Vector3<T>) -> (r: Self) {
        Self { x: value.x, y: value.y, z: value.z, w: T::zero() }
    }
}

impl<T: Number> FromSpecImpl<Vector3<T>> for Vector4<T> {
    open spec fn obeys_from_spec() -> bool {
        true
    }

    open spec fn from_spec(value: Vector3<T>) -> Self {
        Self::from_vector3_spec(value)
    }
}

} // verus!
