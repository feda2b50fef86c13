//! Orders: concrete instructions to transact, produced by the portfolio.

use vstd::prelude::*;
use crate::portfolio::error::PortfolioError;
use crate::strategy::signal::Decision;
use crate::{valid_price, AMOUNT_LIMIT};

verus! {

/// Type of order the execution handler should place.
#[derive(Debug, PartialEq, Eq, Structural, Clone, Copy, Hash)]
pub enum OrderType {
    Market,
    Limit,
    Bracket,
}

impl Default for OrderType {
    /// The default order type transacts at market.
    fn default() -> (t: OrderType)
        ensures
            t == OrderType::Market,
    {
        OrderType::Market
    }
}

/// Contains work to be done by an execution handler to execute a trade.
///
/// The quantity is signed: positive for `Long` / `CloseShort`, negative for
/// `Short` / `CloseLong`, and possibly zero before the risk evaluator has
/// had its say.
#[derive(Debug)]
pub struct OrderEvent {
    pub trace_id: u128,
    pub timestamp: i64,
    pub exchange: String,
    pub symbol: String,
    /// Close price of the bar that caused this order, in minor units.
    pub close: i64,
    pub decision: Decision,
    /// Signed quantity, its sign matching the decision's direction.
    pub quantity: i64,
    pub order_type: OrderType,
}

impl OrderEvent {
    /// Valid when the price is bounded and the signed quantity is bounded
    /// with the sign its decision demands (zero is tolerated until the risk
    /// evaluator rejects it).
    pub open spec fn valid(self) -> bool {
        &&& valid_price(self.close)
        &&& -AMOUNT_LIMIT <= self.quantity <= AMOUNT_LIMIT
        &&& (self.decision is Long || self.decision is CloseShort) ==> self.quantity >= 0
        &&& (self.decision is Short || self.decision is CloseLong) ==> self.quantity <= 0
    }

    /// Returns an [`OrderEventBuilder`] instance.
    pub fn builder() -> (b: OrderEventBuilder)
        ensures
            b == OrderEventBuilder::empty(),
    {
        OrderEventBuilder {
            trace_id: None,
            timestamp: None,
            exchange: None,
            symbol: None,
            close: None,
            decision: None,
            quantity: None,
            order_type: None,
        }
    }
}

impl Default for OrderEvent {
    /// A placeholder order: ten lots bought at market, under a fresh trace
    /// identifier.
    fn default() -> (order: OrderEvent)
        ensures
            order.exchange@ == "BINANCE"@,
            order.symbol@ == "ETH-USD"@,
            order.close == 1050,
            order.decision == Decision::Long,
            order.quantity == 10,
            order.order_type == OrderType::Market,
            order.valid(),
    {
        let order = OrderEvent {
            trace_id: crate::util::new_trace_id(),
            timestamp: crate::util::now_millis(),
            exchange: "BINANCE".to_owned(),
            symbol: "ETH-USD".to_owned(),
            close: 1050,
            decision: Decision::Long,
            quantity: 10,
            order_type: OrderType::Market,
        };
        proof {
            reveal_strlit("BINANCE");
            reveal_strlit("ETH-USD");
        }
        order
    }
}

/// Builder to construct [`OrderEvent`] instances; every field is required.
#[derive(Debug)]
pub struct OrderEventBuilder {
    pub trace_id: Option<u128>,
    pub timestamp: Option<i64>,
    pub exchange: Option<String>,
    pub symbol: Option<String>,
    pub close: Option<i64>,
    pub decision: Option<Decision>,
    pub quantity: Option<i64>,
    pub order_type: Option<OrderType>,
}

impl OrderEventBuilder {
    /// The builder with no attribute provided yet.
    pub open spec fn empty() -> OrderEventBuilder {
        OrderEventBuilder {
            trace_id: None,
            timestamp: None,
            exchange: None,
            symbol: None,
            close: None,
            decision: None,
            quantity: None,
            order_type: None,
        }
    }

    /// True once every required attribute has been provided.
    pub open spec fn complete(self) -> bool {
        &&& self.trace_id is Some
        &&& self.timestamp is Some
        &&& self.exchange is Some
        &&& self.symbol is Some
        &&& self.close is Some
        &&& self.decision is Some
        &&& self.quantity is Some
        &&& self.order_type is Some
    }

    /// Returns a new builder with no attribute provided.
    pub fn new() -> (b: OrderEventBuilder)
        ensures
            b == OrderEventBuilder::empty(),
    {
        OrderEvent::builder()
    }

    pub fn trace_id(self, value: u128) -> (b: OrderEventBuilder)
        ensures
            b == (OrderEventBuilder { trace_id: Some(value), ..self }),
    {
        OrderEventBuilder { trace_id: Some(value), ..self }
    }

    pub fn timestamp(self, value: i64) -> (b: OrderEventBuilder)
        ensures
            b == (OrderEventBuilder { timestamp: Some(value), ..self }),
    {
        OrderEventBuilder { timestamp: Some(value), ..self }
    }

    pub fn exchange(self, value: String) -> (b: OrderEventBuilder)
        ensures
            b == (OrderEventBuilder { exchange: Some(value), ..self }),
    {
        OrderEventBuilder { exchange: Some(value), ..self }
    }

    pub fn symbol(self, value: String) -> (b: OrderEventBuilder)
        ensures
            b == (OrderEventBuilder { symbol: Some(value), ..self }),
    {
        OrderEventBuilder { symbol: Some(value), ..self }
    }

    pub fn close(self, value: i64) -> (b: OrderEventBuilder)
        ensures
            b == (OrderEventBuilder { close: Some(value), ..self }),
    {
        OrderEventBuilder { close: Some(value), ..self }
    }

    pub fn decision(self, value: Decision) -> (b: OrderEventBuilder)
        ensures
            b == (OrderEventBuilder { decision: Some(value), ..self }),
    {
        OrderEventBuilder { decision: Some(value), ..self }
    }

    pub fn quantity(self, value: i64) -> (b: OrderEventBuilder)
        ensures
            b == (OrderEventBuilder { quantity: Some(value), ..self }),
    {
        OrderEventBuilder { quantity: Some(value), ..self }
    }

    pub fn order_type(self, value: OrderType) -> (b: OrderEventBuilder)
        ensures
            b == (OrderEventBuilder { order_type: Some(value), ..self }),
    {
        OrderEventBuilder { order_type: Some(value), ..self }
    }

    /// Builds the [`OrderEvent`] if and only if every attribute was provided;
    /// otherwise reports the builder as incomplete.
    pub fn build(self) -> (r: Result<OrderEvent, PortfolioError>)
        ensures
            match r {
                Ok(order) => {
                    &&& self.complete()
                    &&& Some(order.trace_id) == self.trace_id
                    &&& Some(order.timestamp) == self.timestamp
                    &&& Some(order.exchange) == self.exchange
                    &&& Some(order.symbol) == self.symbol
                    &&& Some(order.close) == self.close
                    &&& Some(order.decision) == self.decision
                    &&& Some(order.quantity) == self.quantity
                    &&& Some(order.order_type) == self.order_type
                },
                Err(e) => {
                    &&& !self.complete()
                    &&& e == PortfolioError::BuilderIncomplete
                },
            },
    {
        if let (
            Some(trace_id),
            Some(timestamp),
            Some(exchange),
            Some(symbol),
            Some(close),
            Some(decision),
            Some(quantity),
            Some(order_type),
        ) = (
            self.trace_id,
            self.timestamp,
            self.exchange,
            self.symbol,
            self.close,
            self.decision,
            self.quantity,
            self.order_type,
        ) {
            Ok(OrderEvent {
                trace_id,
                timestamp,
                exchange,
                symbol,
                close,
                decision,
                quantity,
                order_type,
            })
        } else {
            Err(PortfolioError::BuilderIncomplete)
        }
    }
}

} // verus!
