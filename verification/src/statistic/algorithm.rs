//! Welford Online: a one-pass recurrence for mean and variance.
//!
//! The accumulators are exact integers, so the mean and variance are exposed
//! as exact fractions and the classic recurrence laws hold with equality
//! rather than within a floating-point tolerance.

use vstd::prelude::*;
use crate::{lemma_bounded_product, lemma_mul_mono};

verus! {

/// Largest sample magnitude the accumulators accept.
pub const SAMPLE_LIMIT: i64 = 0x8000_0000;

/// Largest number of samples the accumulators accept.
pub const COUNT_LIMIT: u64 = 0x1_0000_0000;

/// Sum of a dataset.
pub open spec fn sum_of(s: Seq<int>) -> int
    decreases s.len(),
{
    if s.len() == 0 {
        0
    } else {
        sum_of(s.drop_last()) + s.last()
    }
}

/// Sum of the squares of a dataset.
pub open spec fn sum_sq_of(s: Seq<int>) -> int
    decreases s.len(),
{
    if s.len() == 0 {
        0
    } else {
        sum_sq_of(s.drop_last()) + s.last() * s.last()
    }
}

/// Sum of the squared deviations `(c * x - d)^2` over a dataset: the naive
/// "sum of squared distances from the mean", scaled to stay in integers
/// (`c` plays the count, `d` the sum, so `c * x - d == c * (x - mean)`).
pub open spec fn sq_dev_sum(s: Seq<int>, c: int, d: int) -> int
    decreases s.len(),
{
    if s.len() == 0 {
        0
    } else {
        sq_dev_sum(s.drop_last(), c, d) + (c * s.last() - d) * (c * s.last() - d)
    }
}

/// The Welford recurrence-relation numerator `M2 * n`: with `n` samples of
/// sum `S` and square sum `A`, the recurrence value `M2` equals
/// `(n * A - S * S) / n`.
pub open spec fn m2_num(s: Seq<int>) -> int {
    s.len() * sum_sq_of(s) - sum_of(s) * sum_of(s)
}

/// Appending a value adds it to the sum.
pub proof fn lemma_sum_push(s: Seq<int>, x: int)
    ensures
        sum_of(s.push(x)) == sum_of(s) + x,
        sum_sq_of(s.push(x)) == sum_sq_of(s) + x * x,
{
    assert(s.push(x).drop_last() =~= s);
    assert(s.push(x).last() == x);
}

/// The sum and square sum of a bounded dataset are bounded by the dataset
/// length times the bound (respectively its square).
pub proof fn lemma_acc_bounds(s: Seq<int>, lim: int)
    requires
        0 <= lim,
        forall|i: int| 0 <= i < s.len() ==> -lim <= #[trigger] s[i] <= lim,
    ensures
        -(s.len() * lim) <= sum_of(s) <= s.len() * lim,
        0 <= sum_sq_of(s) <= s.len() * (lim * lim),
    decreases s.len(),
{
    if s.len() > 0 {
        let t = s.drop_last();
        let y = s.last();
        lemma_acc_bounds(t, lim);
        lemma_bounded_product(y, y, lim);
        assert(y * y >= 0) by (nonlinear_arith);
        assert(s.len() * lim == t.len() * lim + lim) by (nonlinear_arith)
            requires s.len() == t.len() + 1;
        assert(s.len() * (lim * lim) == t.len() * (lim * lim) + lim * lim) by (nonlinear_arith)
            requires s.len() == t.len() + 1;
    }
}

/// Expands the scaled squared-deviation sum into the accumulators:
/// `sum (c*x - d)^2 == c^2 * A - 2*c*d * S + n * d^2`.
pub proof fn lemma_sq_dev_expand(s: Seq<int>, c: int, d: int)
    ensures
        sq_dev_sum(s, c, d) == c * c * sum_sq_of(s) - 2 * c * d * sum_of(s) + s.len() * d * d,
    decreases s.len(),
{
    if s.len() == 0 {
    } else {
        let t = s.drop_last();
        let y = s.last();
        lemma_sq_dev_expand(t, c, d);
        assert((c * y - d) * (c * y - d) == c * c * (y * y) - 2 * c * d * y + d * d)
            by (nonlinear_arith);
        assert(c * c * (sum_sq_of(t) + y * y) == c * c * sum_sq_of(t) + c * c * (y * y))
            by (nonlinear_arith);
        assert(2 * c * d * (sum_of(t) + y) == 2 * c * d * sum_of(t) + 2 * c * d * y)
            by (nonlinear_arith);
        assert(s.len() * d * d == t.len() * d * d + d * d) by (nonlinear_arith)
            requires s.len() == t.len() + 1;
    }
}

/// The tracked variance numerator is exactly the naive population variance:
/// `(n*A - S*S) / n^2` equals `sum (x - S/n)^2 / n`, both sides scaled by
/// `n^3`. In particular the numerator is never negative.
pub proof fn lemma_variance_matches_naive(s: Seq<int>)
    requires
        s.len() > 0,
    ensures
        s.len() * m2_num(s) == sq_dev_sum(s, s.len() as int, sum_of(s)),
        m2_num(s) >= 0,
{
    let n = s.len() as int;
    let a = sum_sq_of(s);
    let d = sum_of(s);
    lemma_sq_dev_expand(s, n, d);
    assert(n * (n * a - d * d) == n * n * a - 2 * n * d * d + n * d * d) by (nonlinear_arith);
    lemma_sq_dev_nonneg(s, n, d);
    assert(m2_num(s) >= 0) by (nonlinear_arith)
        requires n > 0 && n * m2_num(s) >= 0;
}

/// A sum of squares is non-negative.
pub proof fn lemma_sq_dev_nonneg(s: Seq<int>, c: int, d: int)
    ensures
        sq_dev_sum(s, c, d) >= 0,
    decreases s.len(),
{
    if s.len() > 0 {
        lemma_sq_dev_nonneg(s.drop_last(), c, d);
        let y = s.last();
        assert((c * y - d) * (c * y - d) >= 0) by (nonlinear_arith);
    }
}

/// One Welford step: appending `x` to `k > 0` samples of sum `S` raises the
/// recurrence relation `M2` by exactly `(x - mean_k) * (x - mean_{k+1})`,
/// i.e. `(k*x - S)^2 / (k * (k+1))`; scaled by `k * (k+1)`:
/// `k * m2_num(push) - (k+1) * m2_num(s) == (k*x - S)^2`.
pub proof fn lemma_welford_recurrence(s: Seq<int>, x: int)
    ensures
        (s.len() as int) * m2_num(s.push(x)) - (s.len() + 1) * m2_num(s) == ((s.len() as int) * x
            - sum_of(s)) * ((s.len() as int) * x - sum_of(s)),
{
    let k = s.len() as int;
    let a = sum_sq_of(s);
    let d = sum_of(s);
    lemma_sum_push(s, x);
    let m2p = m2_num(s.push(x));
    assert(m2p == (k + 1) * (a + x * x) - (d + x) * (d + x));
    assert((d + x) * (d + x) == d * d + 2 * (d * x) + x * x) by (nonlinear_arith);
    assert((k + 1) * (a + x * x) == (k + 1) * a + (k + 1) * (x * x)) by (nonlinear_arith);
    assert(k * m2p == k * ((k + 1) * a) + k * ((k + 1) * (x * x)) - k * (d * d) - 2 * (k * (d * x))
        - k * (x * x)) by (nonlinear_arith)
        requires m2p == (k + 1) * a + (k + 1) * (x * x) - (d * d + 2 * (d * x) + x * x);
    assert((k + 1) * (k * a - d * d) == k * ((k + 1) * a) - k * (d * d) - d * d)
        by (nonlinear_arith);
    assert(k * ((k + 1) * (x * x)) - k * (x * x) == (k * x) * (k * x)) by (nonlinear_arith);
    assert(k * (d * x) == (k * x) * d) by (nonlinear_arith);
    assert((k * x - d) * (k * x - d) == (k * x) * (k * x) - 2 * ((k * x) * d) + d * d)
        by (nonlinear_arith);
    assert(k * m2p - (k + 1) * m2_num(s) == (k * x - d) * (k * x - d));
}

/// Online calculation of mean and variance over a stream of samples, by the
/// Welford Online recurrence held in exact integer form: the count, the sum
/// and the sum of squares determine mean and `M2` exactly.
pub struct WelfordOnline {
    pub count: u64,
    pub sum: i128,
    pub sum_sq: i128,
    /// The samples accumulated so far, carried for specification only.
    pub samples: Ghost<Seq<int>>,
}

impl WelfordOnline {
    /// The accumulators agree with the recorded sample sequence, every
    /// sample is bounded, and there is room to count one more.
    pub open spec fn wf(self) -> bool {
        &&& self.count == self.samples@.len()
        &&& self.count <= COUNT_LIMIT
        &&& self.sum == sum_of(self.samples@)
        &&& self.sum_sq == sum_sq_of(self.samples@)
        &&& forall|i: int|
            0 <= i < self.samples@.len() ==> -SAMPLE_LIMIT <= #[trigger] self.samples@[i]
                <= SAMPLE_LIMIT
    }

    /// Exact mean numerator: the sum of all samples.
    pub open spec fn spec_mean_num(self) -> int {
        sum_of(self.samples@)
    }

    /// Exact variance numerator `n * A - S^2`; the denominator is `n^2`.
    pub open spec fn spec_variance_num(self) -> int {
        m2_num(self.samples@)
    }

    /// Constructs an empty accumulator.
    pub fn new() -> (w: WelfordOnline)
        ensures
            w.wf(),
            w.samples@ == Seq::<int>::empty(),
            w.count == 0,
    {
        WelfordOnline { count: 0, sum: 0, sum_sq: 0, samples: Ghost(Seq::empty()) }
    }

    /// Feeds the next sample into the accumulators.
    pub fn update(&mut self, value: i64)
        requires
            old(self).wf(),
            old(self).count < COUNT_LIMIT,
            -SAMPLE_LIMIT <= value <= SAMPLE_LIMIT,
        ensures
            final(self).wf(),
            final(self).samples@ == old(self).samples@.push(value as int),
            final(self).count == old(self).count + 1,
    {
        proof {
            lemma_acc_bounds(self.samples@, SAMPLE_LIMIT as int);
            lemma_mul_mono(
                self.samples@.len() as int,
                SAMPLE_LIMIT as int,
                COUNT_LIMIT as int,
                SAMPLE_LIMIT as int,
            );
            lemma_mul_mono(
                self.samples@.len() as int,
                SAMPLE_LIMIT as int * SAMPLE_LIMIT as int,
                COUNT_LIMIT as int,
                SAMPLE_LIMIT as int * SAMPLE_LIMIT as int,
            );
            lemma_bounded_product(value as int, value as int, SAMPLE_LIMIT as int);
            lemma_sum_push(self.samples@, value as int);
        }
        self.samples = Ghost(self.samples@.push(value as int));
        self.count = self.count + 1;
        self.sum = self.sum + (value as i128);
        let v: i128 = value as i128;
        self.sum_sq = self.sum_sq + v * v;
    }

    /// The exact mean of the samples as a fraction `(numerator,
    /// denominator)`, or None while no sample has been fed.
    pub fn calculate_mean(&self) -> (r: Option<(i128, i128)>)
        requires
            self.wf(),
        ensures
            match r {
                Some(mean) => {
                    &&& self.count > 0
                    &&& mean.0 == self.spec_mean_num()
                    &&& mean.1 == self.samples@.len()
                },
                None => self.count == 0,
            },
    {
        if self.count == 0 {
            None
        } else {
            Some((self.sum, self.count as i128))
        }
    }

    /// The exact population variance of the samples as a fraction
    /// `(numerator, denominator) == (n*A - S^2, n^2)`, or None while no
    /// sample has been fed.
    pub fn calculate_population_variance(&self) -> (r: Option<(i128, i128)>)
        requires
            self.wf(),
        ensures
            match r {
                Some(var) => {
                    &&& self.count > 0
                    &&& var.0 == self.spec_variance_num()
                    &&& var.1 == self.samples@.len() * self.samples@.len()
                    &&& var.0 >= 0
                },
                None => self.count == 0,
            },
    {
        if self.count == 0 {
            return None;
        }
        proof {
            lemma_acc_bounds(self.samples@, SAMPLE_LIMIT as int);
            lemma_mul_mono(
                self.samples@.len() as int,
                SAMPLE_LIMIT as int * SAMPLE_LIMIT as int,
                COUNT_LIMIT as int,
                SAMPLE_LIMIT as int * SAMPLE_LIMIT as int,
            );
            lemma_mul_mono(
                self.count as int,
                sum_sq_of(self.samples@),
                COUNT_LIMIT as int,
                COUNT_LIMIT as int * (SAMPLE_LIMIT as int * SAMPLE_LIMIT as int),
            );
            lemma_mul_mono(
                self.samples@.len() as int,
                SAMPLE_LIMIT as int,
                COUNT_LIMIT as int,
                SAMPLE_LIMIT as int,
            );
            lemma_bounded_product(
                sum_of(self.samples@),
                sum_of(self.samples@),
                COUNT_LIMIT as int * SAMPLE_LIMIT as int,
            );
            lemma_mul_mono(
                self.count as int,
                self.count as int,
                COUNT_LIMIT as int,
                COUNT_LIMIT as int,
            );
            lemma_variance_matches_naive(self.samples@);
        }
        proof {
            assert(self.sum * self.sum >= 0) by (nonlinear_arith);
        }
        let num: i128 = (self.count as i128) * self.sum_sq - self.sum * self.sum;
        let den: i128 = (self.count as i128) * (self.count as i128);
        Some((num, den))
    }

    /// The exact sample variance of the samples as a fraction `(numerator,
    /// denominator) == (n*A - S^2, n*(n-1))`, or None while fewer than two
    /// samples have been fed.
    pub fn calculate_sample_variance(&self) -> (r: Option<(i128, i128)>)
        requires
            self.wf(),
        ensures
            match r {
                Some(var) => {
                    &&& self.count >= 2
                    &&& var.0 == self.spec_variance_num()
                    &&& var.1 == self.samples@.len() * (self.samples@.len() - 1)
                },
                None => self.count < 2,
            },
    {
        if self.count < 2 {
            return None;
        }
        proof {
            lemma_acc_bounds(self.samples@, SAMPLE_LIMIT as int);
            lemma_mul_mono(
                self.samples@.len() as int,
                SAMPLE_LIMIT as int * SAMPLE_LIMIT as int,
                COUNT_LIMIT as int,
                SAMPLE_LIMIT as int * SAMPLE_LIMIT as int,
            );
            lemma_mul_mono(
                self.count as int,
                sum_sq_of(self.samples@),
                COUNT_LIMIT as int,
                COUNT_LIMIT as int * (SAMPLE_LIMIT as int * SAMPLE_LIMIT as int),
            );
            lemma_mul_mono(
                self.samples@.len() as int,
                SAMPLE_LIMIT as int,
                COUNT_LIMIT as int,
                SAMPLE_LIMIT as int,
            );
            lemma_bounded_product(
                sum_of(self.samples@),
                sum_of(self.samples@),
                COUNT_LIMIT as int * SAMPLE_LIMIT as int,
            );
            lemma_mul_mono(
                self.count as int,
                (self.count - 1) as int,
                COUNT_LIMIT as int,
                COUNT_LIMIT as int,
            );
            lemma_variance_matches_naive(self.samples@);
        }
        proof {
            assert(self.sum * self.sum >= 0) by (nonlinear_arith);
        }
        let num: i128 = (self.count as i128) * self.sum_sq - self.sum * self.sum;
        let den: i128 = (self.count as i128) * ((self.count - 1) as i128);
        Some((num, den))
    }
}

} // verus!
