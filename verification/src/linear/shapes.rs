use vstd::prelude::*;
use crate::linear::traits::Number;
use crate::linear::vector::Vector;
use crate::linear::vector::Vector2;

verus! {

/// Three points, the corners of a triangle.
#[derive(Clone, Copy, Debug)]
pub struct Triangle<T: Vector> {
    points: [T; 3],
}

impl<T: Vector> Triangle<T> {
    /// The corners, in the order given.
    pub closed spec fn points(&self) -> Seq<T> {
        self.points@
    }

    pub fn new(a: T, b: T, c: T) -> (t: Self)
        ensures
            t.points() == seq![a, b, c],
    {
        Self { points: [a, b, c] }
    }

    /// The corner of the given number, counted from zero: a triangle has
    /// the corners 0, 1 and 2.
    pub fn index(&self, index: usize) -> (p: &T)
        requires
            index < 3,
        ensures
            *p == self.points()[index as int],
    {
        &self.points[index]
    }

    /// Replaces the corner of the given number and leaves the others.
    pub fn set(&mut self, index: usize, value: T)
        requires
            index < 3,
        ensures
            final(self).points() == old(self).points().update(index as int, value),
    {
        self.points[index] = value;
    }
}

/// Four corners in the plane.
pub struct Rectangle<T: Number> {
    pub top_left: Vector2<T>,
    pub top_right: Vector2<T>,
    pub bottom_left: Vector2<T>,
    pub bottom_right: Vector2<T>,
}

impl<T: Number> Rectangle<T> {
    pub fn new(
        top_left: Vector2<T>,
        top_right: Vector2<T>,
        bottom_left: Vector2<T>,
        bottom_right: Vector2<T>,
    ) -> (r: Self)
        ensures
            r == (Rectangle { top_left, top_right, bottom_left, bottom_right }),
    {
        Self { top_left, top_right, bottom_left, bottom_right }
    }
}

/// A box by its front and its back face.
pub struct Cube<T: Number> {
    pub front: Rectangle<T>,
    pub back: Rectangle<T>,
}

impl<T: Number> Cube<T> {
    pub fn new(front: Rectangle<T>, back: Rectangle<T>) -> (c: Self)
        ensures
            c == (Cube { front, back }),
    {
        Self { front, back }
    }
}

/// The last points of a walk, the newest first: room for `N` points, of
/// which the first `size` have been set.
pub struct Simplex<T: Vector, const N: usize> {
    pub points: [T; N],
    pub size: usize,
}

impl<T: Vector, const N: usize> Simplex<T, N> {
    /// No point set, and every place filled with the zero vector.
    pub fn new() -> (s: Self)
        ensures
            s.size == 0,
            s.points@.len() == N,
            forall|i: int| 0 <= i < N ==> s.points@[i] == T::zero_spec(),
    {
        Self { points: [T::zero(); N], size: 0 }
    }

    /// Puts `point` in front of the others, each of which moves one place
    /// back; the last one drops out. There must be room for a point, and
    /// the count of those set must not be at the end of its type.
    pub fn push(&mut self, point: T)
        requires
            N > 0,
            old(self).size < usize::MAX,
        ensures
            final(self).points@ == seq![point] + old(self).points@.take(N - 1),
            final(self).size == if old(self).size + 1 < N {
                old(self).size + 1
            } else {
                N as int
            },
    {
        let mut i: usize = N - 1;
        while i > 0
            invariant
                i < N,
                self.size == old(self).size,
                self.points@.len() == N,
                forall|j: int| 0 <= j <= i ==> self.points@[j] == old(self).points@[j],
                forall|j: int| i < j < N ==> self.points@[j] == old(self).points@[j - 1],
            decreases i,
        {
            self.points[i] = self.points[i - 1];
            i = i - 1;
        }
        self.points[0] = point;
        self.size = if self.size + 1 < N {
            self.size + 1
        } else {
            N
        };
        assert(self.points@ =~= seq![point] + old(self).points@.take(N - 1));
    }

    /// Sets the first places to the points of `list`, in its order, and
    /// leaves the others as they are. The list must fit.
    pub fn initialize(&mut self, list: Vec<T>)
        requires
            list.len() <= N,
        ensures
            final(self).points@ == list@ + old(self).points@.skip(list.len() as int),
            final(self).size == list.len(),
    {
        let mut i: usize = 0;
        while i < list.len()
            invariant
                i <= list.len() <= N,
                self.points@.len() == N,
                forall|j: int| 0 <= j < i ==> self.points@[j] == list@[j],
                forall|j: int| i <= j < N ==> self.points@[j] == old(self).points@[j],
            decreases list.len() - i,
        {
            self.points[i] = list[i];
            i = i + 1;
        }
        self.size = list.len();
        assert(self.points@ =~= list@ + old(self).points@.skip(list.len() as int));
    }
}

} // verus!
