//! The position lifecycle: enter on a fill, update on market data, exit on
//! the closing fill — with exact profit-and-loss accounting.

use vstd::prelude::*;
use crate::execution::fill::{abs_i64, FillEvent};
use crate::portfolio::error::PortfolioError;
use crate::strategy::signal::Decision;
use crate::{lemma_bounded_product, valid_price, valid_quantity, AMOUNT_LIMIT};

verus! {

/// Direction of an open exposure; immutable for the position's life.
#[derive(Debug, PartialEq, Eq, Structural, Clone, Copy, Hash)]
pub enum Direction {
    Long,
    Short,
}

impl Direction {
    /// The direction opened by an entry decision.
    pub open spec fn spec_from_entry(decision: Decision) -> Direction {
        if decision is Long {
            Direction::Long
        } else {
            Direction::Short
        }
    }

    /// True iff `decision` is the close matching this direction.
    pub open spec fn spec_closed_by(self, decision: Decision) -> bool {
        match self {
            Direction::Long => decision is CloseLong,
            Direction::Short => decision is CloseShort,
        }
    }

    /// Returns true if `decision` is the close matching this direction:
    /// CloseLong closes Long, CloseShort closes Short.
    pub fn closed_by(&self, decision: Decision) -> (r: bool)
        ensures
            r == self.spec_closed_by(decision),
    {
        match self {
            Direction::Long => matches!(decision, Decision::CloseLong),
            Direction::Short => matches!(decision, Decision::CloseShort),
        }
    }
}

/// The directed price movement of a position, valued over its quantity:
/// positive when the move from `enter` to `current` favours `direction`.
pub open spec fn value_delta(direction: Direction, enter: i64, current: i64, quantity: i64) -> int {
    (match direction {
        Direction::Long => current - enter,
        Direction::Short => enter - current,
    }) * abs_i64(quantity)
}

/// Builds the position identifier `{engine_id}_{exchange}_{symbol}_position`.
pub fn determine_position_id(engine_id: &String, exchange: &String, symbol: &String) -> (id:
    String)
    ensures
        id@ == engine_id@ + seq!['_'] + exchange@ + seq!['_'] + symbol@ + "_position"@,
{
    let mut id = engine_id.clone();
    id.append("_");
    id.append(exchange.as_str());
    id.append("_");
    id.append(symbol.as_str());
    id.append("_position");
    proof {
        reveal_strlit("_");
        reveal_strlit("_position");
        assert(id@ =~= engine_id@ + seq!['_'] + exchange@ + seq!['_'] + symbol@ + "_position"@);
    }
    id
}

/// Open exposure in one market with a direction, quantity and entry price.
/// All prices and fees in minor units; values and profits exact integers.
#[derive(Debug)]
pub struct Position {
    /// Unique identifier `{engine_id}_{exchange}_{symbol}_position`.
    pub position_id: String,
    pub exchange: String,
    pub symbol: String,
    /// Timestamp of the bar that caused the entry fill.
    pub entry_timestamp: i64,
    /// Buy or Sell, never changing between open and close.
    pub direction: Direction,
    /// Signed quantity: positive for Long, negative for Short.
    pub quantity: i64,
    /// Total fees paid on entry.
    pub enter_fees_total: i64,
    /// Entry price: the close of the bar that caused the entry fill.
    pub enter_avg_price_gross: i64,
    /// abs(quantity) * enter_avg_price_gross.
    pub enter_value_gross: i128,
    /// Latest known symbol price.
    pub current_symbol_price: i64,
    /// abs(quantity) * current_symbol_price.
    pub current_value_gross: i128,
    /// Estimate of the exit fees until the closing fill lands, then the
    /// fees that fill actually charged.
    pub exit_fees_total: i64,
    /// Directed price movement minus entry fees and the exit fee estimate.
    pub unrealised_profit_loss: i128,
    /// Zero until the position closes; then the realised P&L net of fees.
    pub realised_profit_loss: i128,
}

impl Position {
    /// Internal consistency: bounded fields, quantity sign matching the
    /// direction, and gross values & unrealised P&L agreeing with their
    /// defining formulas.
    pub open spec fn wf(self) -> bool {
        &&& valid_quantity(self.quantity)
        &&& (self.direction is Long <==> self.quantity > 0)
        &&& valid_price(self.enter_avg_price_gross)
        &&& valid_price(self.current_symbol_price)
        &&& 0 <= self.enter_fees_total <= 3 * AMOUNT_LIMIT
        &&& 0 <= self.exit_fees_total <= 3 * AMOUNT_LIMIT
        &&& self.enter_value_gross == abs_i64(self.quantity) * self.enter_avg_price_gross
        &&& self.current_value_gross == abs_i64(self.quantity) * self.current_symbol_price
        &&& self.unrealised_profit_loss == value_delta(
            self.direction,
            self.enter_avg_price_gross,
            self.current_symbol_price,
            self.quantity,
        ) - self.enter_fees_total - self.exit_fees_total
    }

    /// The key of the market this position trades.
    pub open spec fn market_key(self) -> (Seq<char>, Seq<char>) {
        (self.exchange@, self.symbol@)
    }

    /// What the position is worth at its current price: the entry value
    /// plus the directed price movement. For a Long this is the current
    /// gross value; for a Short the mirror image around the entry value.
    pub open spec fn market_value(self) -> int {
        self.enter_value_gross + value_delta(
            self.direction,
            self.enter_avg_price_gross,
            self.current_symbol_price,
            self.quantity,
        )
    }

    /// The realised profit a close at `exit_price` charging `exit_fees`
    /// yields: the directed move from entry to exit over the full quantity,
    /// minus both fee totals.
    pub open spec fn spec_realised_profit(self, exit_price: i64, exit_fees: int) -> int {
        value_delta(self.direction, self.enter_avg_price_gross, exit_price, self.quantity)
            - self.enter_fees_total - exit_fees
    }

    /// Enters a new position from an entry fill. Returns an error exactly
    /// when the fill's decision is an exit decision.
    pub fn enter(engine_id: &String, fill: &FillEvent) -> (r: Result<Position, PortfolioError>)
        requires
            fill.valid(),
        ensures
            match r {
                Ok(p) => {
                    &&& fill.decision.spec_is_entry()
                    &&& p.wf()
                    &&& p.position_id@ == engine_id@ + seq!['_'] + fill.exchange@ + seq!['_']
                        + fill.symbol@ + "_position"@
                    &&& p.exchange@ == fill.exchange@
                    &&& p.symbol@ == fill.symbol@
                    &&& p.entry_timestamp == fill.market_meta.timestamp
                    &&& p.direction == Direction::spec_from_entry(fill.decision)
                    &&& p.quantity == fill.quantity
                    &&& p.enter_fees_total == fill.fees.spec_total()
                    &&& p.enter_avg_price_gross == fill.market_meta.close
                    &&& p.enter_value_gross == fill.fill_value_gross
                    &&& p.current_symbol_price == fill.market_meta.close
                    &&& p.current_value_gross == fill.fill_value_gross
                    &&& p.exit_fees_total == fill.fees.spec_total()
                    &&& p.unrealised_profit_loss == -2 * fill.fees.spec_total()
                    &&& p.realised_profit_loss == 0
                },
                Err(e) => {
                    &&& fill.decision.spec_is_exit()
                    &&& e == PortfolioError::FillDirectionMismatch
                },
            },
    {
        if fill.decision.is_exit() {
            return Err(PortfolioError::FillDirectionMismatch);
        }
        let direction = if fill.quantity > 0 {
            Direction::Long
        } else {
            Direction::Short
        };
        let fees_total = fill.fees.calculate_total_fees();
        let position_id = determine_position_id(engine_id, &fill.exchange, &fill.symbol);
        Ok(Position {
            position_id,
            exchange: fill.exchange.clone(),
            symbol: fill.symbol.clone(),
            entry_timestamp: fill.market_meta.timestamp,
            direction,
            quantity: fill.quantity,
            enter_fees_total: fees_total,
            enter_avg_price_gross: fill.market_meta.close,
            enter_value_gross: fill.fill_value_gross,
            current_symbol_price: fill.market_meta.close,
            current_value_gross: fill.fill_value_gross,
            exit_fees_total: fees_total,
            unrealised_profit_loss: -2 * (fees_total as i128),
            realised_profit_loss: 0,
        })
    }

    /// Updates the position to the latest close price: the current value
    /// and the unrealised P&L move with the price; direction, quantity and
    /// every entry field stay untouched.
    pub fn update(&mut self, close: i64)
        requires
            old(self).wf(),
            valid_price(close),
        ensures
            final(self).wf(),
            final(self).current_symbol_price == close,
            final(self).current_value_gross == abs_i64(old(self).quantity) * close,
            final(self).unrealised_profit_loss == value_delta(
                old(self).direction,
                old(self).enter_avg_price_gross,
                close,
                old(self).quantity,
            ) - old(self).enter_fees_total - old(self).exit_fees_total,
            final(self).direction == old(self).direction,
            final(self).quantity == old(self).quantity,
            final(self).position_id == old(self).position_id,
            final(self).exchange == old(self).exchange,
            final(self).symbol == old(self).symbol,
            final(self).entry_timestamp == old(self).entry_timestamp,
            final(self).enter_fees_total == old(self).enter_fees_total,
            final(self).enter_avg_price_gross == old(self).enter_avg_price_gross,
            final(self).enter_value_gross == old(self).enter_value_gross,
            final(self).exit_fees_total == old(self).exit_fees_total,
            final(self).realised_profit_loss == old(self).realised_profit_loss,
    {
        let abs_q: i64 = if self.quantity >= 0 {
            self.quantity
        } else {
            -self.quantity
        };
        let diff: i64 = match self.direction {
            Direction::Long => close - self.enter_avg_price_gross,
            Direction::Short => self.enter_avg_price_gross - close,
        };
        proof {
            lemma_bounded_product(abs_q as int, close as int, AMOUNT_LIMIT as int);
            lemma_bounded_product(diff as int, abs_q as int, 2 * AMOUNT_LIMIT as int);
        }
        self.current_symbol_price = close;
        self.current_value_gross = (abs_q as i128) * (close as i128);
        self.unrealised_profit_loss = (diff as i128) * (abs_q as i128) - (self.enter_fees_total
            as i128) - (self.exit_fees_total as i128);
    }

    /// Closes the position with an exit fill. Returns an error exactly when
    /// the fill's decision is not the close matching the held direction.
    /// On success the realised P&L is the directed move from entry to the
    /// fill's close over the full quantity, minus entry and exit fees; the
    /// direction, quantity and entry fields stay untouched.
    pub fn exit(&mut self, fill: &FillEvent) -> (r: Result<(), PortfolioError>)
        requires
            old(self).wf(),
            fill.valid(),
        ensures
            final(self).wf(),
            match r {
                Ok(()) => {
                    &&& old(self).direction.spec_closed_by(fill.decision)
                    &&& final(self).realised_profit_loss == old(self).spec_realised_profit(
                        fill.market_meta.close,
                        fill.fees.spec_total(),
                    )
                    &&& final(self).exit_fees_total == fill.fees.spec_total()
                    &&& final(self).current_symbol_price == fill.market_meta.close
                    &&& final(self).current_value_gross == abs_i64(old(self).quantity)
                        * fill.market_meta.close
                    &&& final(self).direction == old(self).direction
                    &&& final(self).quantity == old(self).quantity
                    &&& final(self).position_id == old(self).position_id
                    &&& final(self).exchange == old(self).exchange
                    &&& final(self).symbol == old(self).symbol
                    &&& final(self).enter_fees_total == old(self).enter_fees_total
                    &&& final(self).enter_avg_price_gross == old(self).enter_avg_price_gross
                    &&& final(self).enter_value_gross == old(self).enter_value_gross
                },
                Err(e) => {
                    &&& !old(self).direction.spec_closed_by(fill.decision)
                    &&& e == PortfolioError::FillDirectionMismatch
                    &&& *final(self) == *old(self)
                },
            },
    {
        if !self.direction.closed_by(fill.decision) {
            return Err(PortfolioError::FillDirectionMismatch);
        }
        let exit_fees = fill.fees.calculate_total_fees();
        self.update(fill.market_meta.close);
        let abs_q: i64 = if self.quantity >= 0 {
            self.quantity
        } else {
            -self.quantity
        };
        let diff: i64 = match self.direction {
            Direction::Long => fill.market_meta.close - self.enter_avg_price_gross,
            Direction::Short => self.enter_avg_price_gross - fill.market_meta.close,
        };
        proof {
            lemma_bounded_product(diff as int, abs_q as int, 2 * AMOUNT_LIMIT as int);
        }
        self.realised_profit_loss = (diff as i128) * (abs_q as i128) - (self.enter_fees_total
            as i128) - (exit_fees as i128);
        self.exit_fees_total = exit_fees;
        self.unrealised_profit_loss = (diff as i128) * (abs_q as i128) - (self.enter_fees_total
            as i128) - (exit_fees as i128);
        Ok(())
    }

    /// Field-for-field agreement with another position (string fields up to
    /// their character content).
    pub open spec fn like(self, other: Position) -> bool {
        &&& self.position_id@ == other.position_id@
        &&& self.exchange@ == other.exchange@
        &&& self.symbol@ == other.symbol@
        &&& self.entry_timestamp == other.entry_timestamp
        &&& self.direction == other.direction
        &&& self.quantity == other.quantity
        &&& self.enter_fees_total == other.enter_fees_total
        &&& self.enter_avg_price_gross == other.enter_avg_price_gross
        &&& self.enter_value_gross == other.enter_value_gross
        &&& self.current_symbol_price == other.current_symbol_price
        &&& self.current_value_gross == other.current_value_gross
        &&& self.exit_fees_total == other.exit_fees_total
        &&& self.unrealised_profit_loss == other.unrealised_profit_loss
        &&& self.realised_profit_loss == other.realised_profit_loss
    }

    /// Structural copy of this position.
    pub fn duplicate(&self) -> (p: Position)
        ensures
            p.like(*self),
            self.wf() ==> p.wf(),
    {
        Position {
            position_id: self.position_id.clone(),
            exchange: self.exchange.clone(),
            symbol: self.symbol.clone(),
            entry_timestamp: self.entry_timestamp,
            direction: self.direction,
            quantity: self.quantity,
            enter_fees_total: self.enter_fees_total,
            enter_avg_price_gross: self.enter_avg_price_gross,
            enter_value_gross: self.enter_value_gross,
            current_symbol_price: self.current_symbol_price,
            current_value_gross: self.current_value_gross,
            exit_fees_total: self.exit_fees_total,
            unrealised_profit_loss: self.unrealised_profit_loss,
            realised_profit_loss: self.realised_profit_loss,
        }
    }
}

/// Round trip of a long position: opening Long with quantity `q` at the
/// entry price and closing with CloseLong at `exit_price` realises exactly
/// `(exit_price - entry_price) * q` minus all fees.
pub proof fn lemma_long_round_trip_profit(p: Position, exit_price: i64, exit_fees: int)
    requires
        p.wf(),
        p.direction is Long,
    ensures
        p.spec_realised_profit(exit_price, exit_fees) == (exit_price - p.enter_avg_price_gross)
            * p.quantity - p.enter_fees_total - exit_fees,
{
}

/// Round trip of a short position: opening Short and closing with
/// CloseShort at `exit_price` realises the mirror image,
/// `(entry_price - exit_price) * |q|` minus all fees.
pub proof fn lemma_short_round_trip_profit(p: Position, exit_price: i64, exit_fees: int)
    requires
        p.wf(),
        p.direction is Short,
    ensures
        p.spec_realised_profit(exit_price, exit_fees) == (p.enter_avg_price_gross - exit_price)
            * (-p.quantity) - p.enter_fees_total - exit_fees,
{
}

/// Notification of an open position whose state advanced on market data.
#[derive(Debug)]
pub struct PositionUpdate {
    pub position_id: String,
    pub timestamp: i64,
    pub current_symbol_price: i64,
    pub current_value_gross: i128,
    pub unrealised_profit_loss: i128,
}

impl PositionUpdate {
    /// Snapshots the updated fields of a position.
    pub fn from_position(position: &Position, timestamp: i64) -> (u: PositionUpdate)
        ensures
            u.position_id@ == position.position_id@,
            u.timestamp == timestamp,
            u.current_symbol_price == position.current_symbol_price,
            u.current_value_gross == position.current_value_gross,
            u.unrealised_profit_loss == position.unrealised_profit_loss,
    {
        PositionUpdate {
            position_id: position.position_id.clone(),
            timestamp,
            current_symbol_price: position.current_symbol_price,
            current_value_gross: position.current_value_gross,
            unrealised_profit_loss: position.unrealised_profit_loss,
        }
    }
}

} // verus!
