//! In-memory persistence for the portfolio: open & closed positions, the
//! per-market statistics and the balance.

use vstd::prelude::*;
use crate::event::Balance;
use crate::portfolio::position::Position;
use crate::statistic::summary::TradingSummary;
use crate::{lemma_bounded_product, lemma_product_bounds, AMOUNT_LIMIT, CASH_LIMIT};

verus! {

/// Magnitude bound on a well-formed position's market value: entry value
/// plus directed movement stays under `2^62`.
pub const MARKET_VALUE_LIMIT: i128 = 0x4000_0000_0000_0000;

/// True iff the position trades the market named by `exchange` & `symbol`.
pub open spec fn key_matches(p: Position, exchange: Seq<char>, symbol: Seq<char>) -> bool {
    p.exchange@ == exchange && p.symbol@ == symbol
}

/// Some position in the sequence trades the named market.
pub open spec fn has_open(s: Seq<Position>, exchange: Seq<char>, symbol: Seq<char>) -> bool {
    exists|i: int| 0 <= i < s.len() && key_matches(#[trigger] s[i], exchange, symbol)
}

/// The index of the named market's position (unique under
/// [`unique_markets`]).
pub open spec fn open_idx(s: Seq<Position>, exchange: Seq<char>, symbol: Seq<char>) -> int {
    choose|i: int| 0 <= i < s.len() && key_matches(#[trigger] s[i], exchange, symbol)
}

/// At most one open position per market.
pub open spec fn unique_markets(s: Seq<Position>) -> bool {
    forall|i: int, j: int|
        0 <= i < j < s.len() ==> !((#[trigger] s[i]).exchange@ == (#[trigger] s[j]).exchange@
            && s[i].symbol@ == s[j].symbol@)
}

/// Every position in the sequence is internally consistent.
pub open spec fn all_wf(s: Seq<Position>) -> bool {
    forall|i: int| 0 <= i < s.len() ==> (#[trigger] s[i]).wf()
}

/// Total market value of a sequence of positions.
pub open spec fn sum_market_value(s: Seq<Position>) -> int
    decreases s.len(),
{
    if s.len() == 0 {
        0
    } else {
        sum_market_value(s.drop_last()) + s.last().market_value()
    }
}

/// A well-formed position's market value stays under the limit.
pub proof fn lemma_market_value_bound(p: Position)
    requires
        p.wf(),
    ensures
        -MARKET_VALUE_LIMIT < p.market_value() < MARKET_VALUE_LIMIT,
{
    lemma_bounded_product(
        crate::execution::fill::abs_i64(p.quantity),
        p.enter_avg_price_gross as int,
        AMOUNT_LIMIT as int,
    );
    lemma_product_bounds(
        match p.direction {
            crate::portfolio::position::Direction::Long => p.current_symbol_price
                - p.enter_avg_price_gross,
            crate::portfolio::position::Direction::Short => p.enter_avg_price_gross
                - p.current_symbol_price,
        },
        crate::execution::fill::abs_i64(p.quantity),
        2 * AMOUNT_LIMIT as int,
        AMOUNT_LIMIT as int,
    );
    let diff = match p.direction {
        crate::portfolio::position::Direction::Long => p.current_symbol_price
            - p.enter_avg_price_gross,
        crate::portfolio::position::Direction::Short => p.enter_avg_price_gross
            - p.current_symbol_price,
    };
    lemma_bounded_product(
        diff,
        crate::execution::fill::abs_i64(p.quantity),
        2 * AMOUNT_LIMIT as int,
    );
}

/// Appending a position adds its market value to the total.
pub proof fn lemma_sum_mv_push(s: Seq<Position>, p: Position)
    ensures
        sum_market_value(s.push(p)) == sum_market_value(s) + p.market_value(),
{
    assert(s.push(p).drop_last() =~= s);
}

/// Replacing the position at `i` moves the total by the difference of the
/// two market values.
pub proof fn lemma_sum_mv_update(s: Seq<Position>, i: int, p: Position)
    requires
        0 <= i < s.len(),
    ensures
        sum_market_value(s.update(i, p)) == sum_market_value(s) - s[i].market_value()
            + p.market_value(),
    decreases s.len(),
{
    if i == s.len() - 1 {
        assert(s.update(i, p).drop_last() =~= s.drop_last());
        assert(s.update(i, p).last() == p);
    } else {
        lemma_sum_mv_update(s.drop_last(), i, p);
        assert(s.update(i, p).drop_last() =~= s.drop_last().update(i, p));
        assert(s.update(i, p).last() == s.last());
    }
}

/// Removing the position at `i` subtracts its market value from the total.
pub proof fn lemma_sum_mv_remove(s: Seq<Position>, i: int)
    requires
        0 <= i < s.len(),
    ensures
        sum_market_value(s.remove(i)) == sum_market_value(s) - s[i].market_value(),
    decreases s.len(),
{
    if i == s.len() - 1 {
        assert(s.remove(i) =~= s.drop_last());
    } else {
        lemma_sum_mv_remove(s.drop_last(), i);
        assert(s.remove(i).drop_last() =~= s.drop_last().remove(i));
        assert(s.remove(i).last() == s.last());
    }
}

/// The total market value of well-formed positions is bounded by their
/// number times the per-position limit.
pub proof fn lemma_sum_mv_bounds(s: Seq<Position>)
    requires
        all_wf(s),
    ensures
        -(s.len() * MARKET_VALUE_LIMIT) <= sum_market_value(s) <= s.len() * MARKET_VALUE_LIMIT,
    decreases s.len(),
{
    if s.len() > 0 {
        let t = s.drop_last();
        assert(all_wf(t)) by {
            assert(forall|j: int| 0 <= j < t.len() ==> t[j] == s[j]);
        }
        lemma_sum_mv_bounds(t);
        lemma_market_value_bound(s.last());
        assert(s.len() * MARKET_VALUE_LIMIT == t.len() * MARKET_VALUE_LIMIT
            + MARKET_VALUE_LIMIT) by (nonlinear_arith)
            requires s.len() == t.len() + 1;
    }
}

/// Removing a position keeps the remaining ones well-formed and uniquely
/// keyed, and leaves no position of the removed market behind.
pub proof fn lemma_open_remove_props(s: Seq<Position>, i: int)
    requires
        0 <= i < s.len(),
        unique_markets(s),
        all_wf(s),
    ensures
        unique_markets(s.remove(i)),
        all_wf(s.remove(i)),
        !has_open(s.remove(i), s[i].exchange@, s[i].symbol@),
{
    let t = s.remove(i);
    assert forall|a: int| 0 <= a < t.len() implies (#[trigger] t[a]).wf() by {
        if a < i {
            assert(t[a] == s[a]);
        } else {
            assert(t[a] == s[a + 1]);
        }
    }
    assert forall|a: int, b: int| 0 <= a < b < t.len() implies !((#[trigger] t[a]).exchange@ == (
    #[trigger] t[b]).exchange@ && t[a].symbol@ == t[b].symbol@) by {
        let a2 = if a < i {
            a
        } else {
            a + 1
        };
        let b2 = if b < i {
            b
        } else {
            b + 1
        };
        assert(t[a] == s[a2]);
        assert(t[b] == s[b2]);
    }
    assert forall|a: int| 0 <= a < t.len() implies !key_matches(
        #[trigger] t[a],
        s[i].exchange@,
        s[i].symbol@,
    ) by {
        if a < i {
            assert(t[a] == s[a]);
        } else {
            assert(t[a] == s[a + 1]);
        }
    }
}

/// Some statistics entry carries the given market identifier.
pub open spec fn has_stat(s: Seq<(String, TradingSummary)>, market_id: Seq<char>) -> bool {
    exists|i: int| 0 <= i < s.len() && (#[trigger] s[i]).0@ == market_id
}

/// The index of the market's statistics entry (unique under
/// [`unique_stat_keys`]).
pub open spec fn stat_idx(s: Seq<(String, TradingSummary)>, market_id: Seq<char>) -> int {
    choose|i: int| 0 <= i < s.len() && (#[trigger] s[i]).0@ == market_id
}

/// At most one statistics entry per market.
pub open spec fn unique_stat_keys(s: Seq<(String, TradingSummary)>) -> bool {
    forall|i: int, j: int|
        0 <= i < j < s.len() ==> (#[trigger] s[i]).0@ != (#[trigger] s[j]).0@
}

/// Every statistics entry is well-formed.
pub open spec fn all_stats_wf(s: Seq<(String, TradingSummary)>) -> bool {
    forall|i: int| 0 <= i < s.len() ==> (#[trigger] s[i]).1.wf()
}

/// In-memory repository: open positions indexed by market, the append-only
/// closed position log, per-market statistics and the balance.
pub struct InMemoryRepository {
    /// The open positions, at most one per market.
    pub open_positions: Vec<Position>,
    /// Closed positions, in closing order.
    pub closed_positions: Vec<Position>,
    /// Per-market statistics, keyed by `{exchange}_{symbol}`.
    pub statistics: Vec<(String, TradingSummary)>,
    /// The engine-wide cash & equity balance.
    pub balance: Balance,
}

impl InMemoryRepository {
    /// Storage consistency: positions well-formed and uniquely keyed,
    /// statistics uniquely keyed and well-formed, balance in range.
    pub open spec fn wf(self) -> bool {
        &&& all_wf(self.open_positions@)
        &&& unique_markets(self.open_positions@)
        &&& unique_stat_keys(self.statistics@)
        &&& all_stats_wf(self.statistics@)
        &&& -CASH_LIMIT <= self.balance.cash <= CASH_LIMIT
    }

    /// Constructs an empty repository holding the starting cash; the equity
    /// of an empty portfolio is its cash.
    pub fn new(starting_cash: i128, timestamp: i64) -> (repo: InMemoryRepository)
        requires
            -CASH_LIMIT <= starting_cash <= CASH_LIMIT,
        ensures
            repo.wf(),
            repo.open_positions@.len() == 0,
            repo.closed_positions@.len() == 0,
            repo.statistics@.len() == 0,
            repo.balance == (Balance {
                timestamp,
                cash: starting_cash,
                equity: starting_cash,
            }),
    {
        InMemoryRepository {
            open_positions: Vec::new(),
            closed_positions: Vec::new(),
            statistics: Vec::new(),
            balance: Balance { timestamp, cash: starting_cash, equity: starting_cash },
        }
    }

    /// Finds the open position for the named market: Some(its index) iff
    /// one is open.
    pub fn find_open_index(&self, exchange: &String, symbol: &String) -> (r: Option<usize>)
        requires
            unique_markets(self.open_positions@),
        ensures
            match r {
                Some(i) => {
                    &&& has_open(self.open_positions@, exchange@, symbol@)
                    &&& i == open_idx(self.open_positions@, exchange@, symbol@)
                    &&& i < self.open_positions@.len()
                    &&& key_matches(self.open_positions@[i as int], exchange@, symbol@)
                },
                None => !has_open(self.open_positions@, exchange@, symbol@),
            },
    {
        let mut i: usize = 0;
        while i < self.open_positions.len()
            invariant
                i <= self.open_positions@.len(),
                unique_markets(self.open_positions@),
                forall|j: int|
                    0 <= j < i ==> !key_matches(
                        #[trigger] self.open_positions@[j],
                        exchange@,
                        symbol@,
                    ),
            decreases self.open_positions@.len() - i,
        {
            let p = &self.open_positions[i];
            if p.exchange.eq(exchange) && p.symbol.eq(symbol) {
                proof {
                    let k = open_idx(self.open_positions@, exchange@, symbol@);
                    assert(key_matches(self.open_positions@[i as int], exchange@, symbol@));
                    assert(0 <= k < self.open_positions@.len() && key_matches(
                        self.open_positions@[k],
                        exchange@,
                        symbol@,
                    ));
                    if k != i {
                        if k < i {
                            assert(!key_matches(self.open_positions@[k], exchange@, symbol@));
                        }
                    }
                }
                return Some(i);
            }
            i = i + 1;
        }
        None
    }

    /// Finds the statistics entry for a market identifier: Some(its index)
    /// iff one exists.
    pub fn find_statistics_index(&self, market_id: &String) -> (r: Option<usize>)
        requires
            unique_stat_keys(self.statistics@),
        ensures
            match r {
                Some(i) => {
                    &&& has_stat(self.statistics@, market_id@)
                    &&& i == stat_idx(self.statistics@, market_id@)
                    &&& i < self.statistics@.len()
                    &&& self.statistics@[i as int].0@ == market_id@
                },
                None => !has_stat(self.statistics@, market_id@),
            },
    {
        let mut i: usize = 0;
        while i < self.statistics.len()
            invariant
                i <= self.statistics@.len(),
                unique_stat_keys(self.statistics@),
                forall|j: int| 0 <= j < i ==> (#[trigger] self.statistics@[j]).0@ != market_id@,
            decreases self.statistics@.len() - i,
        {
            if self.statistics[i].0.eq(market_id) {
                proof {
                    let k = stat_idx(self.statistics@, market_id@);
                    assert(self.statistics@[i as int].0@ == market_id@);
                    assert(0 <= k < self.statistics@.len() && self.statistics@[k].0@
                        == market_id@);
                }
                return Some(i);
            }
            i = i + 1;
        }
        None
    }

    /// Every open position, copied out (the engine's open-positions fetch).
    pub fn get_open_positions(&self) -> (r: Vec<Position>)
        ensures
            r@.len() == self.open_positions@.len(),
            forall|i: int|
                0 <= i < r@.len() ==> (#[trigger] r@[i]).like(self.open_positions@[i]),
    {
        let mut out: Vec<Position> = Vec::new();
        let mut i: usize = 0;
        while i < self.open_positions.len()
            invariant
                i <= self.open_positions@.len(),
                out@.len() == i,
                forall|j: int|
                    0 <= j < i ==> (#[trigger] out@[j]).like(self.open_positions@[j]),
            decreases self.open_positions@.len() - i,
        {
            out.push(self.open_positions[i].duplicate());
            i = i + 1;
        }
        out
    }

    /// Recomputes the total market value of all open positions.
    pub fn total_market_value(&self) -> (total: i128)
        requires
            all_wf(self.open_positions@),
        ensures
            total == sum_market_value(self.open_positions@),
            -0x4000_0000_0000_0000_0000_0000_0000_0000 <= total
                <= 0x4000_0000_0000_0000_0000_0000_0000_0000,
    {
        let mut total: i128 = 0;
        let mut i: usize = 0;
        proof {
            assert(self.open_positions@.subrange(0, 0) =~= Seq::<Position>::empty());
        }
        while i < self.open_positions.len()
            invariant
                i <= self.open_positions@.len(),
                all_wf(self.open_positions@),
                total == sum_market_value(self.open_positions@.subrange(0, i as int)),
                -(i as int) * MARKET_VALUE_LIMIT <= total <= (i as int) * MARKET_VALUE_LIMIT,
            decreases self.open_positions@.len() - i,
        {
            let p = &self.open_positions[i];
            let abs_q: i64 = if p.quantity >= 0 {
                p.quantity
            } else {
                -p.quantity
            };
            let diff: i64 = match p.direction {
                crate::portfolio::position::Direction::Long => p.current_symbol_price
                    - p.enter_avg_price_gross,
                crate::portfolio::position::Direction::Short => p.enter_avg_price_gross
                    - p.current_symbol_price,
            };
            proof {
                lemma_bounded_product(diff as int, abs_q as int, 2 * AMOUNT_LIMIT as int);
                lemma_market_value_bound(self.open_positions@[i as int]);
                crate::lemma_mul_mono(
                    i as int,
                    MARKET_VALUE_LIMIT as int,
                    0x1_0000_0000_0000_0000,
                    MARKET_VALUE_LIMIT as int,
                );
                assert(self.open_positions@.subrange(0, i as int + 1).drop_last()
                    =~= self.open_positions@.subrange(0, i as int));
                assert(self.open_positions@.subrange(0, i as int + 1).last()
                    == self.open_positions@[i as int]);
            }
            let mv: i128 = p.enter_value_gross + (diff as i128) * (abs_q as i128);
            total = total + mv;
            i = i + 1;
        }
        proof {
            assert(self.open_positions@.subrange(0, self.open_positions@.len() as int)
                =~= self.open_positions@);
            crate::lemma_mul_mono(
                i as int,
                MARKET_VALUE_LIMIT as int,
                0x1_0000_0000_0000_0000,
                MARKET_VALUE_LIMIT as int,
            );
        }
        total
    }
}

} // verus!
