use vstd::prelude::*;

verus! {

/// What has a mean.
pub trait Average {
    type Output;

    /// Whether the mean may be computed.
    spec fn mean_req(&self) -> bool;

    spec fn mean_spec(&self) -> Self::Output;

    fn mean(&self) -> (r: Self::Output)
        requires
            self.mean_req(),
        ensures
            r == self.mean_spec(),
    ;
}

/// The sum of the numbers of `s`.
pub open spec fn total(s: Seq<usize>) -> int
    decreases s.len(),
{
    if s.len() == 0 {
        0
    } else {
        total(s.drop_last()) + s.last()
    }
}

/// A sum is no less than the sum of any of its beginnings.
pub proof fn lemma_total_grows(s: Seq<usize>, n: int)
    requires
        0 <= n <= s.len(),
    ensures
        0 <= total(s.take(n)) <= total(s),
    decreases s.len() - n,
{
    if n == s.len() {
        assert(s.take(n) =~= s);
        lemma_total_is_not_negative(s);
    } else {
        lemma_total_grows(s, n + 1);
        lemma_total_is_not_negative(s.take(n));
        assert(s.take(n + 1).drop_last() =~= s.take(n));
    }
}

/// A sum of numbers that are not negative is not negative.
pub proof fn lemma_total_is_not_negative(s: Seq<usize>)
    ensures
        0 <= total(s),
    decreases s.len(),
{
    if s.len() > 0 {
        lemma_total_is_not_negative(s.drop_last());
    }
}

impl<const N: usize> Average for [usize; N] {
    type Output = usize;

    /// There is a number to take the mean of, and the sum of all is a
    /// `usize`.
    open spec fn mean_req(&self) -> bool {
        N > 0 && total(self@) <= usize::MAX
    }

    /// The sum of the numbers divided by their count, rounded down.
    open spec fn mean_spec(&self) -> usize {
        (total(self@) / N as int) as usize
    }

    fn mean(&self) -> (r: usize) {
        let mut sum: usize = 0;
        let mut i: usize = 0;
        while i < N
            invariant
                i <= N,
                self@.len() == N,
                sum == total(self@.take(i as int)),
                total(self@) <= usize::MAX,
            decreases N - i,
        {
            proof {
                lemma_total_grows(self@, i + 1);
                assert(self@.take(i + 1).drop_last() =~= self@.take(i as int));
            }
            sum = sum + self[i];
            i = i + 1;
        }
        proof {
            assert(self@.take(N as int) =~= self@);
        }
        sum / N
    }
}

} // verus!
