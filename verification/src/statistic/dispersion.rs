//! Measures of dispersion: range, variance & standard deviation accumulators
//! over a streamed dataset.

use vstd::prelude::*;
use crate::statistic::algorithm::{WelfordOnline, COUNT_LIMIT, SAMPLE_LIMIT};

verus! {

/// Measure of dispersion providing the highest and lowest value of a
/// dataset. Lazy evaluation is used when calculating the range between them
/// via the calculate() function.
#[derive(Debug, PartialEq, Eq, Structural, Clone, Copy)]
pub struct Range {
    pub activated: bool,
    pub highest: i64,
    pub lowest: i64,
}

/// One update step of a [`Range`]: the first value sets both ends, every
/// later value pushes whichever end it passes.
pub open spec fn range_step(r: Range, v: i64) -> Range {
    if !r.activated {
        Range { activated: true, highest: v, lowest: v }
    } else {
        Range {
            activated: true,
            highest: if v > r.highest { v } else { r.highest },
            lowest: if v < r.lowest { v } else { r.lowest },
        }
    }
}

/// The state of a [`Range`] after a whole dataset, first value first.
pub open spec fn range_after(r: Range, s: Seq<i64>) -> Range
    decreases s.len(),
{
    if s.len() == 0 {
        r
    } else {
        range_step(range_after(r, s.drop_last()), s.last())
    }
}

/// The largest value of a non-empty dataset.
pub open spec fn seq_max(s: Seq<i64>) -> i64
    recommends
        s.len() > 0,
    decreases s.len(),
{
    if s.len() <= 1 {
        s.last()
    } else if s.last() > seq_max(s.drop_last()) {
        s.last()
    } else {
        seq_max(s.drop_last())
    }
}

/// The smallest value of a non-empty dataset.
pub open spec fn seq_min(s: Seq<i64>) -> i64
    recommends
        s.len() > 0,
    decreases s.len(),
{
    if s.len() <= 1 {
        s.last()
    } else if s.last() < seq_min(s.drop_last()) {
        s.last()
    } else {
        seq_min(s.drop_last())
    }
}

impl Range {
    /// Both ends stay inside the sample bound.
    pub open spec fn wf(self) -> bool {
        &&& -SAMPLE_LIMIT <= self.lowest <= SAMPLE_LIMIT
        &&& -SAMPLE_LIMIT <= self.highest <= SAMPLE_LIMIT
    }

    /// The not-yet-activated range.
    pub open spec fn spec_default() -> Range {
        Range { activated: false, highest: 0, lowest: 0 }
    }

    /// Initialises the Range with the provided first value of the dataset.
    fn init(first_value: i64) -> (r: Range)
        ensures
            r == (Range { activated: false, highest: first_value, lowest: first_value }),
    {
        Range { activated: false, highest: first_value, lowest: first_value }
    }

    /// Iteratively updates the Range given the next value in the dataset.
    pub fn update(&mut self, new_value: i64)
        requires
            old(self).wf(),
            -SAMPLE_LIMIT <= new_value <= SAMPLE_LIMIT,
        ensures
            *final(self) == range_step(*old(self), new_value),
            final(self).wf(),
    {
        if self.activated {
            if new_value > self.highest {
                self.highest = new_value;
            }
            if new_value < self.lowest {
                self.lowest = new_value;
            }
        } else {
            self.activated = true;
            self.highest = new_value;
            self.lowest = new_value;
        }
    }

    /// Calculates the range between the highest and lowest value of a
    /// dataset. Provided to allow lazy evaluation.
    pub fn calculate(&self) -> (r: i64)
        requires
            self.wf(),
        ensures
            r == self.highest - self.lowest,
    {
        self.highest - self.lowest
    }
}

impl Default for Range {
    /// A range that no value has activated yet.
    fn default() -> (r: Range)
        ensures
            r == Range::spec_default(),
    {
        Range { activated: false, highest: 0, lowest: 0 }
    }
}

/// Feeding a range the same value twice leaves it exactly where one feeding
/// put it: the update step is idempotent for repeated values.
pub proof fn lemma_range_update_idempotent(r: Range, v: i64)
    ensures
        range_step(range_step(r, v), v) == range_step(r, v),
{
}

/// After any non-empty dataset, a range started from the default state holds
/// exactly the maximum and minimum of the dataset.
pub proof fn lemma_range_tracks_extremes(s: Seq<i64>)
    requires
        s.len() > 0,
    ensures
        range_after(Range::spec_default(), s).activated,
        range_after(Range::spec_default(), s).highest == seq_max(s),
        range_after(Range::spec_default(), s).lowest == seq_min(s),
    decreases s.len(),
{
    let d = Range::spec_default();
    if s.len() == 1 {
        assert(range_after(d, s) == range_step(range_after(d, s.drop_last()), s.last()));
        assert(s.drop_last().len() == 0);
        assert(range_after(d, s.drop_last()) == d);
    } else {
        lemma_range_tracks_extremes(s.drop_last());
        assert(range_after(d, s) == range_step(range_after(d, s.drop_last()), s.last()));
    }
}

/// An empty dispersion measure, identical to [`Dispersion::new`].
impl Default for Dispersion {
    fn default() -> (d: Dispersion)
        ensures
            d.wf(),
            d.range == Range::spec_default(),
            d.welford.samples@ == Seq::<int>::empty(),
            d.welford.count == 0,
    {
        Dispersion::new()
    }
}

/// Representation of a dataset using measures of dispersion: range and the
/// Welford Online accumulators for variance & standard deviation.
pub struct Dispersion {
    pub range: Range,
    pub welford: WelfordOnline,
}

impl Dispersion {
    /// Both underlying accumulators are well-formed.
    pub open spec fn wf(self) -> bool {
        &&& self.range.wf()
        &&& self.welford.wf()
    }

    /// Constructs an empty dispersion measure.
    pub fn new() -> (d: Dispersion)
        ensures
            d.wf(),
            d.range == Range::spec_default(),
            d.welford.samples@ == Seq::<int>::empty(),
            d.welford.count == 0,
    {
        Dispersion { range: Range { activated: false, highest: 0, lowest: 0 }, welford: WelfordOnline::new() }
    }

    /// Iteratively updates the measures of Dispersion given the next value
    /// in the dataset (see [`Dispersion::update`]).
    pub fn update(&mut self, new_value: i64)
        requires
            old(self).wf(),
            old(self).welford.count < COUNT_LIMIT,
            -SAMPLE_LIMIT <= new_value <= SAMPLE_LIMIT,
        ensures
            final(self).wf(),
            final(self).range == range_step(old(self).range, new_value),
            final(self).welford.samples@ == old(self).welford.samples@.push(new_value as int),
            final(self).welford.count == old(self).welford.count + 1,
    {
        self.range.update(new_value);
        self.welford.update(new_value);
    }
}

} // verus!
