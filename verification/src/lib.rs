//! Core of an event-driven trading engine: per-market traders drive a
//! Market -> Signal -> Order -> Fill pipeline against one shared portfolio.
//!
//! All monetary quantities (prices, cash, fees, order sizes) are accounted in
//! integer minor units, so every profit-and-loss computation in this crate is
//! exact and carries a contract that pins the result down. Callers that price
//! in fractional units convert at the boundary.

use vstd::prelude::*;

pub mod data;
pub mod engine;
pub mod event;
pub mod execution;
pub mod portfolio;
pub mod statistic;
pub mod strategy;
pub mod util;

verus! {

/// Largest magnitude, in minor units, accepted for a single price, quantity or
/// fee amount. Keeps every product of two amounts well inside `i128`.
pub const AMOUNT_LIMIT: i64 = 0x4000_0000;

/// Largest cash / equity magnitude the accounting accepts. Far beyond any
/// balance reachable in practice, yet small enough that one more fill can
/// never overflow an `i128`.
pub const CASH_LIMIT: i128 = 0x1_0000_0000_0000_0000_0000_0000;

/// A product of two values bounded in magnitude by `lim` is bounded by
/// `lim * lim`.
pub proof fn lemma_bounded_product(a: int, b: int, lim: int)
    by (nonlinear_arith)
    requires
        0 <= lim,
        -lim <= a <= lim,
        -lim <= b <= lim,
    ensures
        -(lim * lim) <= a * b <= lim * lim,
{
}

/// A product of two values bounded in magnitude by `la` and `lb` is bounded
/// by `la * lb`.
pub proof fn lemma_product_bounds(a: int, b: int, la: int, lb: int)
    by (nonlinear_arith)
    requires
        0 <= la,
        0 <= lb,
        -la <= a <= la,
        -lb <= b <= lb,
    ensures
        -(la * lb) <= a * b <= la * lb,
{
}

/// Multiplication of non-negative values is monotonic in both factors.
pub proof fn lemma_mul_mono(a: int, b: int, c: int, d: int)
    by (nonlinear_arith)
    requires
        0 <= a <= c,
        0 <= b <= d,
    ensures
        0 <= a * b <= c * d,
{
}

/// A price in minor units is valid when it is positive and bounded.
pub open spec fn valid_price(p: i64) -> bool {
    0 < p <= AMOUNT_LIMIT
}

/// A signed quantity is valid when it is non-zero and bounded.
pub open spec fn valid_quantity(q: i64) -> bool {
    q != 0 && -AMOUNT_LIMIT <= q <= AMOUNT_LIMIT
}

/// A single fee amount is valid when it is non-negative and bounded.
pub open spec fn valid_fee(f: i64) -> bool {
    0 <= f <= AMOUNT_LIMIT
}

/// Barter exchange & symbol combination used to uniquely identify a market.
pub struct Market {
    pub exchange: String,
    pub symbol: String,
}

impl Market {
    /// Constructs a new [`Market`] from an exchange & symbol.
    pub fn new(exchange: String, symbol: String) -> (market: Market)
        ensures
            market.exchange@ == exchange@,
            market.symbol@ == symbol@,
    {
        Market { exchange, symbol }
    }

    /// The market identity key: both name components joined by `_`.
    pub open spec fn key(self) -> Seq<char> {
        self.exchange@ + seq!['_'] + self.symbol@
    }

    /// Returns the unique identifier for this market: `{exchange}_{symbol}`.
    pub fn market_id(&self) -> (id: String)
        ensures
            id@ == self.key(),
    {
        let mut id = self.exchange.clone();
        id.append("_");
        id.append(self.symbol.as_str());
        proof {
            reveal_strlit("_");
            assert(id@ =~= self.key());
        }
        id
    }

    /// Structural copy of this market.
    pub fn duplicate(&self) -> (m: Market)
        ensures
            m.exchange@ == self.exchange@,
            m.symbol@ == self.symbol@,
    {
        Market { exchange: self.exchange.clone(), symbol: self.symbol.clone() }
    }

    /// True iff the other market names the same exchange & symbol.
    pub fn same_market(&self, other: &Market) -> (r: bool)
        ensures
            r == (self.exchange@ == other.exchange@ && self.symbol@ == other.symbol@),
    {
        self.exchange.eq(&other.exchange) && self.symbol.eq(&other.symbol)
    }
}

} // verus!
