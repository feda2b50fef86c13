//! Fills: journals of work done by an execution handler, sent back to the
//! portfolio so it can apply updates.

use vstd::prelude::*;
use crate::data::market::MarketMeta;
use crate::execution::error::ExecutionError;
use crate::strategy::signal::Decision;
use crate::{valid_fee, valid_quantity};

verus! {

/// Fee amount in minor units.
pub type FeeAmount = i64;

/// All potential fees incurred by a [`FillEvent`].
#[derive(Debug, PartialEq, Eq, Structural, Clone, Copy)]
pub struct Fees {
    /// Fee taken by the exchange / broker (eg/ commission).
    pub exchange: FeeAmount,
    /// Order book slippage modelled as a fee.
    pub slippage: FeeAmount,
    /// Fee incurred by any required network transactions (eg/ gas).
    pub network: FeeAmount,
}

impl Fees {
    /// Every fee amount is non-negative and bounded.
    pub open spec fn valid(self) -> bool {
        &&& valid_fee(self.exchange)
        &&& valid_fee(self.slippage)
        &&& valid_fee(self.network)
    }

    /// The sum of every [`FeeAmount`] in [`Fees`].
    pub open spec fn spec_total(self) -> int {
        self.exchange + self.slippage + self.network
    }

    /// Calculates the sum of every [`FeeAmount`] in [`Fees`]: exactly
    /// exchange + slippage + network.
    pub fn calculate_total_fees(&self) -> (total: i64)
        requires
            self.valid(),
        ensures
            total == self.spec_total(),
    {
        self.exchange + self.network + self.slippage
    }
}

impl Default for Fees {
    /// Fee-free by default.
    fn default() -> (fees: Fees)
        ensures
            fees == (Fees { exchange: 0, slippage: 0, network: 0 }),
            fees.valid(),
            fees.spec_total() == 0,
    {
        Fees { exchange: 0, slippage: 0, network: 0 }
    }
}

/// Journal of a transacted order: the confirmation the portfolio applies.
#[derive(Debug)]
pub struct FillEvent {
    pub trace_id: u128,
    pub timestamp: i64,
    pub exchange: String,
    pub symbol: String,
    /// Metadata propagated from the source market event; the fill transacts
    /// at its close price.
    pub market_meta: MarketMeta,
    pub decision: Decision,
    /// Signed quantity, its sign matching the decision's direction.
    pub quantity: i64,
    /// abs(quantity) * close, in minor units, excluding total fees.
    pub fill_value_gross: i128,
    pub fees: Fees,
}

impl FillEvent {
    /// Valid when the snapshot is priced, the non-zero signed quantity is
    /// bounded and carries the sign its decision demands, the fees are
    /// bounded, and the gross value is exactly abs(quantity) * close.
    pub open spec fn valid(self) -> bool {
        &&& self.market_meta.valid()
        &&& valid_quantity(self.quantity)
        &&& (self.decision is Long || self.decision is CloseShort) ==> self.quantity > 0
        &&& (self.decision is Short || self.decision is CloseLong) ==> self.quantity < 0
        &&& self.fees.valid()
        &&& self.fill_value_gross == abs_i64(self.quantity) * self.market_meta.close
    }

    /// Returns a [`FillEventBuilder`] instance.
    pub fn builder() -> (b: FillEventBuilder)
        ensures
            b == FillEventBuilder::empty(),
    {
        FillEventBuilder {
            trace_id: None,
            timestamp: None,
            exchange: None,
            symbol: None,
            market_meta: None,
            decision: None,
            quantity: None,
            fill_value_gross: None,
            fees: None,
        }
    }
}

impl Default for FillEvent {
    /// A placeholder fill: one lot bought at the default market snapshot,
    /// fee-free, under a fresh trace identifier.
    fn default() -> (fill: FillEvent)
        ensures
            fill.exchange@ == "BINANCE"@,
            fill.symbol@ == "ETH-USD"@,
            fill.market_meta == (MarketMeta { close: 100, timestamp: 0 }),
            fill.decision == Decision::Long,
            fill.quantity == 1,
            fill.fill_value_gross == 100,
            fill.fees == (Fees { exchange: 0, slippage: 0, network: 0 }),
            fill.valid(),
    {
        let fill = FillEvent {
            trace_id: crate::util::new_trace_id(),
            timestamp: crate::util::now_millis(),
            exchange: "BINANCE".to_owned(),
            symbol: "ETH-USD".to_owned(),
            market_meta: MarketMeta { close: 100, timestamp: 0 },
            decision: Decision::Long,
            quantity: 1,
            fill_value_gross: 100,
            fees: Fees { exchange: 0, slippage: 0, network: 0 },
        };
        proof {
            reveal_strlit("BINANCE");
            reveal_strlit("ETH-USD");
        }
        fill
    }
}

/// The absolute value of a signed 64-bit amount, as a mathematical integer.
pub open spec fn abs_i64(q: i64) -> int {
    if q >= 0 {
        q as int
    } else {
        -(q as int)
    }
}

/// Builder to construct [`FillEvent`] instances; every field is required.
#[derive(Debug)]
pub struct FillEventBuilder {
    pub trace_id: Option<u128>,
    pub timestamp: Option<i64>,
    pub exchange: Option<String>,
    pub symbol: Option<String>,
    pub market_meta: Option<MarketMeta>,
    pub decision: Option<Decision>,
    pub quantity: Option<i64>,
    pub fill_value_gross: Option<i128>,
    pub fees: Option<Fees>,
}

impl FillEventBuilder {
    /// The builder with no attribute provided yet.
    pub open spec fn empty() -> FillEventBuilder {
        FillEventBuilder {
            trace_id: None,
            timestamp: None,
            exchange: None,
            symbol: None,
            market_meta: None,
            decision: None,
            quantity: None,
            fill_value_gross: None,
            fees: None,
        }
    }

    /// True once every required attribute has been provided.
    pub open spec fn complete(self) -> bool {
        &&& self.trace_id is Some
        &&& self.timestamp is Some
        &&& self.exchange is Some
        &&& self.symbol is Some
        &&& self.market_meta is Some
        &&& self.decision is Some
        &&& self.quantity is Some
        &&& self.fill_value_gross is Some
        &&& self.fees is Some
    }

    /// Returns a new builder with no attribute provided.
    pub fn new() -> (b: FillEventBuilder)
        ensures
            b == FillEventBuilder::empty(),
    {
        FillEvent::builder()
    }

    pub fn trace_id(self, value: u128) -> (b: FillEventBuilder)
        ensures
            b == (FillEventBuilder { trace_id: Some(value), ..self }),
    {
        FillEventBuilder { trace_id: Some(value), ..self }
    }

    pub fn timestamp(self, value: i64) -> (b: FillEventBuilder)
        ensures
            b == (FillEventBuilder { timestamp: Some(value), ..self }),
    {
        FillEventBuilder { timestamp: Some(value), ..self }
    }

    pub fn exchange(self, value: String) -> (b: FillEventBuilder)
        ensures
            b == (FillEventBuilder { exchange: Some(value), ..self }),
    {
        FillEventBuilder { exchange: Some(value), ..self }
    }

    pub fn symbol(self, value: String) -> (b: FillEventBuilder)
        ensures
            b == (FillEventBuilder { symbol: Some(value), ..self }),
    {
        FillEventBuilder { symbol: Some(value), ..self }
    }

    pub fn market_meta(self, value: MarketMeta) -> (b: FillEventBuilder)
        ensures
            b == (FillEventBuilder { market_meta: Some(value), ..self }),
    {
        FillEventBuilder { market_meta: Some(value), ..self }
    }

    pub fn decision(self, value: Decision) -> (b: FillEventBuilder)
        ensures
            b == (FillEventBuilder { decision: Some(value), ..self }),
    {
        FillEventBuilder { decision: Some(value), ..self }
    }

    pub fn quantity(self, value: i64) -> (b: FillEventBuilder)
        ensures
            b == (FillEventBuilder { quantity: Some(value), ..self }),
    {
        FillEventBuilder { quantity: Some(value), ..self }
    }

    pub fn fill_value_gross(self, value: i128) -> (b: FillEventBuilder)
        ensures
            b == (FillEventBuilder { fill_value_gross: Some(value), ..self }),
    {
        FillEventBuilder { fill_value_gross: Some(value), ..self }
    }

    pub fn fees(self, value: Fees) -> (b: FillEventBuilder)
        ensures
            b == (FillEventBuilder { fees: Some(value), ..self }),
    {
        FillEventBuilder { fees: Some(value), ..self }
    }

    /// Builds the [`FillEvent`] if and only if every attribute was provided;
    /// otherwise reports the builder as incomplete.
    pub fn build(self) -> (r: Result<FillEvent, ExecutionError>)
        ensures
            match r {
                Ok(fill) => {
                    &&& self.complete()
                    &&& Some(fill.trace_id) == self.trace_id
                    &&& Some(fill.timestamp) == self.timestamp
                    &&& Some(fill.exchange) == self.exchange
                    &&& Some(fill.symbol) == self.symbol
                    &&& Some(fill.market_meta) == self.market_meta
                    &&& Some(fill.decision) == self.decision
                    &&& Some(fill.quantity) == self.quantity
                    &&& Some(fill.fill_value_gross) == self.fill_value_gross
                    &&& Some(fill.fees) == self.fees
                },
                Err(e) => {
                    &&& !self.complete()
                    &&& e == ExecutionError::BuilderIncomplete
                },
            },
    {
        if let (
            Some(trace_id),
            Some(timestamp),
            Some(exchange),
            Some(symbol),
            Some(market_meta),
            Some(decision),
            Some(quantity),
            Some(fill_value_gross),
            Some(fees),
        ) = (
            self.trace_id,
            self.timestamp,
            self.exchange,
            self.symbol,
            self.market_meta,
            self.decision,
            self.quantity,
            self.fill_value_gross,
            self.fees,
        ) {
            Ok(FillEvent {
                trace_id,
                timestamp,
                exchange,
                symbol,
                market_meta,
                decision,
                quantity,
                fill_value_gross,
                fees,
            })
        } else {
            Err(ExecutionError::BuilderIncomplete)
        }
    }
}

} // verus!
