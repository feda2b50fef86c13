//! Per-market trading summary: streaming aggregates over closed positions.

use vstd::prelude::*;
use crate::statistic::dispersion::{range_step, Dispersion};
use crate::statistic::algorithm::{WelfordOnline, COUNT_LIMIT, SAMPLE_LIMIT};
use crate::CASH_LIMIT;

verus! {

/// The downside image of a return: losses kept, gains flattened to zero.
/// Feeding these into a Welford accumulator yields the exact ingredients of
/// the downside deviation behind a Sortino ratio.
pub open spec fn spec_downside(return_bps: i64) -> i64 {
    if return_bps < 0 {
        return_bps
    } else {
        0
    }
}

/// Streaming aggregates for one market, fed with the return of each closed
/// position (in basis points) and the equity after the close: count, mean,
/// variance and range of returns, downside accumulators, and the maximum
/// equity drawdown.
pub struct TradingSummary {
    pub dispersion: Dispersion,
    /// Welford accumulators over the downside image of every return.
    pub downside: WelfordOnline,
    /// Highest equity seen so far, in minor units.
    pub peak_equity: i128,
    /// Largest distance the equity has fallen below its running peak.
    pub max_drawdown: i128,
}

impl TradingSummary {
    /// Accumulators well-formed and drawdown figures inside the accounting
    /// range.
    pub open spec fn wf(self) -> bool {
        &&& self.dispersion.wf()
        &&& self.downside.wf()
        &&& self.downside.count == self.dispersion.welford.count
        &&& -CASH_LIMIT <= self.peak_equity <= CASH_LIMIT
        &&& 0 <= self.max_drawdown <= 2 * CASH_LIMIT
    }

    /// Number of closed positions fed so far.
    pub open spec fn spec_count(self) -> u64 {
        self.dispersion.welford.count
    }

    /// Constructs the summary for a market, starting its equity peak at the
    /// portfolio's starting equity.
    pub fn new(starting_equity: i128) -> (s: TradingSummary)
        requires
            -CASH_LIMIT <= starting_equity <= CASH_LIMIT,
        ensures
            s.wf(),
            s.peak_equity == starting_equity,
            s.max_drawdown == 0,
            s.dispersion.welford.samples@ == Seq::<int>::empty(),
            s.downside.samples@ == Seq::<int>::empty(),
            s.spec_count() == 0,
    {
        TradingSummary {
            dispersion: Dispersion::new(),
            downside: WelfordOnline::new(),
            peak_equity: starting_equity,
            max_drawdown: 0,
        }
    }

    /// Whether another closed position can still be recorded.
    pub fn has_capacity(&self) -> (r: bool)
        ensures
            r == (self.spec_count() < COUNT_LIMIT),
    {
        self.dispersion.welford.count < COUNT_LIMIT
    }

    /// Feeds the return of a closed position and the equity after it: the
    /// dispersion of returns advances one Welford step, the equity peak
    /// rises to the new equity if passed, and the maximum drawdown takes the
    /// distance from the peak if that is a new record.
    pub fn update(&mut self, return_bps: i64, equity: i128)
        requires
            old(self).wf(),
            old(self).spec_count() < COUNT_LIMIT,
            -SAMPLE_LIMIT <= return_bps <= SAMPLE_LIMIT,
            -CASH_LIMIT <= equity <= CASH_LIMIT,
        ensures
            final(self).wf(),
            final(self).dispersion.welford.samples@ == old(self).dispersion.welford.samples@.push(
                return_bps as int,
            ),
            final(self).dispersion.range == range_step(old(self).dispersion.range, return_bps),
            final(self).downside.samples@ == old(self).downside.samples@.push(
                spec_downside(return_bps) as int,
            ),
            final(self).spec_count() == old(self).spec_count() + 1,
            final(self).peak_equity == if equity > old(self).peak_equity {
                equity
            } else {
                old(self).peak_equity
            },
            final(self).max_drawdown == if final(self).peak_equity - equity > old(self).max_drawdown {
                final(self).peak_equity - equity
            } else {
                old(self).max_drawdown as int
            },
    {
        self.dispersion.update(return_bps);
        let downside_sample: i64 = if return_bps < 0 {
            return_bps
        } else {
            0
        };
        self.downside.update(downside_sample);
        if equity > self.peak_equity {
            self.peak_equity = equity;
        }
        let drawdown: i128 = self.peak_equity - equity;
        if drawdown > self.max_drawdown {
            self.max_drawdown = drawdown;
        }
    }
}

} // verus!
