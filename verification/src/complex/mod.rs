use vstd::prelude::*;
use crate::linear::matrix::Matrix2;
use crate::linear::traits::Number;
use crate::linear::vector::Vector2;

pub mod quaternion;

verus! {

/// A complex number by its real and imaginary part.
#[derive(Clone, Copy, Debug, Default)]
pub struct Complex<T: Number> {
    pub re: T,
    pub im: T,
}

impl<T: Number> Complex<T> {
    pub fn new(re: T, im: T) -> (c: Self)
        ensures
            c.re == re,
            c.im == im,
    {
        Self { re, im }
    }

    /// The number as a matrix: `(re, im)` over `(im, re)`.
    pub open spec fn matrix_spec(self) -> Matrix2<T> {
        Matrix2 { x: Vector2 { x: self.re, y: self.im }, y: Vector2 { x: self.im, y: self.re } }
    }

    pub fn matrix(&self) -> (m: Matrix2<T>)
        ensures
            m == self.matrix_spec(),
    {
        Matrix2 { x: Vector2::<T>::new(self.re, self.im), y: Vector2::<T>::new(self.im, self.re) }
    }

    /// The matrix of the imaginary part alone.
    pub open spec fn matrix_im_spec(self) -> Matrix2<T> {
        Matrix2 {
            x: Vector2 { x: T::zero_spec(), y: self.im },
            y: Vector2 { x: self.im, y: T::zero_spec() },
        }
    }

    pub fn matrix_im(&self) -> (m: Matrix2<T>)
        ensures
            m == self.matrix_im_spec(),
    {
        Matrix2 {
            x: Vector2::<T>::new(T::zero(), self.im),
            y: Vector2::<T>::new(self.im, T::zero()),
        }
    }

    /// The matrix of the real part alone.
    pub open spec fn matrix_re_spec(self) -> Matrix2<T> {
        Matrix2 {
            x: Vector2 { x: self.re, y: T::zero_spec() },
            y: Vector2 { x: T::zero_spec(), y: self.re },
        }
    }

    pub fn matrix_re(&self) -> (m: Matrix2<T>)
        ensures
            m == self.matrix_re_spec(),
    {
        Matrix2 {
            x: Vector2::<T>::new(self.re, T::zero()),
            y: Vector2::<T>::new(T::zero(), self.re),
        }
    }

    /// The number as the plane vector `(re, im)`.
    pub open spec fn vector(self) -> Vector2<T> {
        Vector2 { x: self.re, y: self.im }
    }

    /// Whether the product with `rhs` may be formed.
    pub open spec fn mul_req(self, rhs: Self) -> bool {
        &&& self.re.mul_req(rhs.re)
        &&& self.im.mul_req(rhs.im)
        &&& self.re.mul_spec(rhs.re).sub_req(self.im.mul_spec(rhs.im))
        &&& self.re.mul_req(rhs.im)
        &&& self.im.mul_req(rhs.re)
        &&& self.re.mul_spec(rhs.im).add_req(self.im.mul_spec(rhs.re))
    }

    /// The product of two complex numbers:
    /// `(re * rhs.re - im * rhs.im, re * rhs.im + im * rhs.re)`.
    pub open spec fn mul_spec(self, rhs: Self) -> Self {
        Complex {
            re: self.re.mul_spec(rhs.re).sub_spec(self.im.mul_spec(rhs.im)),
            im: self.re.mul_spec(rhs.im).add_spec(self.im.mul_spec(rhs.re)),
        }
    }

    pub fn mul(self, rhs: Self) -> (r: Self)
        requires
            self.mul_req(rhs),
        ensures
            r == self.mul_spec(rhs),
    {
        Self {
            re: self.re.mul(rhs.re).sub(self.im.mul(rhs.im)),
            im: self.re.mul(rhs.im).add(self.im.mul(rhs.re)),
        }
    }

    /// Whether the sum with `rhs` may be formed.
    pub open spec fn add_req(self, rhs: Self) -> bool {
        self.vector().add_req(rhs.vector())
    }

    /// The sum, part by part.
    pub open spec fn add_spec(self, rhs: Self) -> Self {
        Complex { re: self.re.add_spec(rhs.re), im: self.im.add_spec(rhs.im) }
    }

    pub fn add(self, rhs: Self) -> (r: Self)
        requires
            self.add_req(rhs),
        ensures
            r == self.add_spec(rhs),
    {
        Self { re: self.re.add(rhs.re), im: self.im.add(rhs.im) }
    }

    /// Whether the difference with `rhs` may be formed.
    pub open spec fn sub_req(self, rhs: Self) -> bool {
        self.vector().sub_req(rhs.vector())
    }

    /// The difference, part by part.
    pub open spec fn sub_spec(self, rhs: Self) -> Self {
        Complex { re: self.re.sub_spec(rhs.re), im: self.im.sub_spec(rhs.im) }
    }

    pub fn sub(self, rhs: Self) -> (r: Self)
        requires
            self.sub_req(rhs),
        ensures
            r == self.sub_spec(rhs),
    {
        Self { re: self.re.sub(rhs.re), im: self.im.sub(rhs.im) }
    }
}

} // verus!
