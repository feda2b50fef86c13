//! The centralised portfolio state machine: reacts to market, signal and
//! fill events for every market, allocates order sizes, applies risk, and
//! keeps cash, equity, positions and per-market statistics consistent.

use vstd::prelude::*;
use crate::data::market::MarketEvent;
use crate::event::{Balance, Event, MetricEvent};
use crate::execution::fill::FillEvent;
use crate::portfolio::allocator::{spec_allocate, DefaultAllocator};
use crate::portfolio::error::PortfolioError;
use crate::portfolio::order::{OrderEvent, OrderType};
use crate::portfolio::position::{value_delta, Direction, Position, PositionUpdate};
use crate::portfolio::repository::{
    all_wf, has_open, has_stat, key_matches, lemma_market_value_bound, lemma_sum_mv_bounds,
    lemma_sum_mv_push, lemma_sum_mv_remove, lemma_sum_mv_update, open_idx, stat_idx,
    sum_market_value, unique_markets, unique_stat_keys, InMemoryRepository, MARKET_VALUE_LIMIT,
};
use crate::portfolio::risk::DefaultRisk;
use crate::statistic::summary::TradingSummary;
use crate::strategy::signal::{Decision, SignalEvent, SignalForceExit};
use crate::util::{new_trace_id, now_millis};
use crate::{lemma_mul_mono, CASH_LIMIT};

verus! {

/// Components for constructing a [`MetaPortfolio`].
pub struct Components {
    pub allocator: DefaultAllocator,
    pub risk: DefaultRisk,
    pub starting_cash: i128,
}

/// The single, centralised portfolio shared by every trader of an engine.
pub struct MetaPortfolio {
    /// Identifier of the engine this portfolio belongs to.
    pub engine_id: String,
    /// The exclusively owned persistence handle.
    pub repository: InMemoryRepository,
    /// Sizes entry orders.
    pub allocator: DefaultAllocator,
    /// Evaluates proposed orders.
    pub risk: DefaultRisk,
}

impl MetaPortfolio {
    /// The central consistency invariant: the repository is well-formed and
    /// the recorded equity is exactly the cash plus the total market value
    /// of all open positions.
    pub open spec fn wf(self) -> bool {
        &&& self.repository.wf()
        &&& self.allocator.wf()
        &&& self.repository.balance.equity == self.repository.balance.cash + sum_market_value(
            self.repository.open_positions@,
        )
    }

    /// The open position sequence.
    pub open spec fn open(self) -> Seq<Position> {
        self.repository.open_positions@
    }

    /// The closed position sequence.
    pub open spec fn closed(self) -> Seq<Position> {
        self.repository.closed_positions@
    }

    /// The engine-wide balance.
    pub open spec fn balance(self) -> Balance {
        self.repository.balance
    }

    /// Constructs a new [`MetaPortfolio`] with no positions, no statistics,
    /// and equity equal to the starting cash.
    pub fn new(engine_id: String, components: Components, timestamp: i64) -> (portfolio:
        MetaPortfolio)
        requires
            components.allocator.wf(),
            -CASH_LIMIT <= components.starting_cash <= CASH_LIMIT,
        ensures
            portfolio.wf(),
            portfolio.engine_id@ == engine_id@,
            portfolio.allocator == components.allocator,
            portfolio.risk == components.risk,
            portfolio.open().len() == 0,
            portfolio.closed().len() == 0,
            portfolio.repository.statistics@.len() == 0,
            portfolio.balance() == (Balance {
                timestamp,
                cash: components.starting_cash,
                equity: components.starting_cash,
            }),
    {
        MetaPortfolio {
            engine_id,
            repository: InMemoryRepository::new(components.starting_cash, timestamp),
            allocator: components.allocator,
            risk: components.risk,
        }
    }

    /// Determines if this portfolio has an open position relating to the
    /// input market event, and if so updates it with the bar's close price,
    /// recomputes the equity, and reports a position update. Never emits
    /// orders and never touches cash, closed positions or statistics.
    pub fn update_from_market(&mut self, market: &MarketEvent) -> (r: Result<
        Option<PositionUpdate>,
        PortfolioError,
    >)
        requires
            old(self).wf(),
            market.valid(),
        ensures
            final(self).wf(),
            final(self).engine_id == old(self).engine_id,
            final(self).allocator == old(self).allocator,
            final(self).risk == old(self).risk,
            final(self).closed() == old(self).closed(),
            final(self).repository.statistics@ == old(self).repository.statistics@,
            final(self).balance().cash == old(self).balance().cash,
            final(self).balance().timestamp == old(self).balance().timestamp,
            match r {
                Ok(Some(update)) => {
                    let i = open_idx(old(self).open(), market.exchange@, market.symbol@);
                    let p = old(self).open()[i];
                    &&& has_open(old(self).open(), market.exchange@, market.symbol@)
                    &&& final(self).open().len() == old(self).open().len()
                    &&& forall|j: int|
                        0 <= j < old(self).open().len() && j != i ==> final(self).open()[j]
                            == old(self).open()[j]
                    &&& final(self).open()[i].current_symbol_price == market.bar.close
                    &&& final(self).open()[i].unrealised_profit_loss == value_delta(
                        p.direction,
                        p.enter_avg_price_gross,
                        market.bar.close,
                        p.quantity,
                    ) - p.enter_fees_total - p.exit_fees_total
                    &&& final(self).open()[i].direction == p.direction
                    &&& final(self).open()[i].quantity == p.quantity
                    &&& final(self).open()[i].enter_avg_price_gross == p.enter_avg_price_gross
                    &&& final(self).open()[i].enter_value_gross == p.enter_value_gross
                    &&& final(self).open()[i].exchange@ == p.exchange@
                    &&& final(self).open()[i].symbol@ == p.symbol@
                    &&& update.position_id@ == p.position_id@
                    &&& update.timestamp == market.timestamp
                    &&& update.current_symbol_price == market.bar.close
                    &&& update.unrealised_profit_loss == final(self).open()[
                        i
                    ].unrealised_profit_loss
                },
                Ok(None) => {
                    &&& !has_open(old(self).open(), market.exchange@, market.symbol@)
                    &&& *final(self) == *old(self)
                },
                Err(_) => false,
            },
    {
        let index = self.repository.find_open_index(&market.exchange, &market.symbol);
        match index {
            None => Ok(None),
            Some(i) => {
                let ghost old_open = self.repository.open_positions@;
                let mut position = self.repository.open_positions.remove(i);
                position.update(market.bar.close);
                let update = PositionUpdate::from_position(&position, market.timestamp);
                self.repository.open_positions.insert(i, position);
                proof {
                    let new_open = self.repository.open_positions@;
                    assert(new_open =~= old_open.update(
                        i as int,
                        new_open[i as int],
                    ));
                    lemma_sum_mv_update(old_open, i as int, new_open[i as int]);
                    assert(unique_markets(new_open));
                    assert(all_wf(new_open)) by {
                        assert(forall|j: int|
                            0 <= j < new_open.len() && j != i ==> new_open[j] == old_open[j]);
                    }
                    lemma_market_value_bound(old_open[i as int]);
                    lemma_market_value_bound(new_open[i as int]);
                }
                let total = self.repository.total_market_value();
                self.repository.balance.equity = self.repository.balance.cash + total;
                Ok(Some(update))
            },
        }
    }

    /// May generate an [`OrderEvent`] after analysing an input advisory
    /// [`SignalEvent`]. Never mutates the portfolio.
    ///
    /// With an open position in the signal's market, only the matching
    /// close decision produces an order, sized to flatten the full open
    /// quantity. With no open position, an undisputed entry decision (Long
    /// or Short advice, not both) produces an order sized by the allocator
    /// and passed through the risk evaluator, which rejects exactly the
    /// zero-quantity allocations — so an empty signal map never produces an
    /// order.
    pub fn generate_order(&mut self, signal: &SignalEvent) -> (r: Result<
        Option<OrderEvent>,
        PortfolioError,
    >)
        requires
            old(self).wf(),
            signal.valid(),
        ensures
            *final(self) == *old(self),
            signal.signals@.len() == 0 ==> r == Ok::<Option<OrderEvent>, PortfolioError>(None),
            match r {
                Ok(Some(order)) => {
                    &&& order.valid()
                    &&& order.quantity != 0
                    &&& order.exchange@ == signal.exchange@
                    &&& order.symbol@ == signal.symbol@
                    &&& order.close == signal.market_meta.close
                    &&& order.order_type == OrderType::Market
                    &&& if has_open(old(self).open(), signal.exchange@, signal.symbol@) {
                        let p = old(self).open()[
                            open_idx(old(self).open(), signal.exchange@, signal.symbol@)
                        ];
                        &&& p.direction.spec_closed_by(order.decision)
                        &&& crate::strategy::signal::signal_lookup(
                            signal.signals@,
                            order.decision,
                        ) is Some
                        &&& order.quantity == -p.quantity
                    } else {
                        let looked = crate::strategy::signal::signal_lookup(
                            signal.signals@,
                            order.decision,
                        );
                        &&& order.decision.spec_is_entry()
                        &&& looked is Some
                        &&& (order.decision is Long ==> crate::strategy::signal::signal_lookup(
                            signal.signals@,
                            Decision::Short,
                        ) is None && order.quantity == spec_allocate(
                            old(self).allocator.default_order_value,
                            looked->Some_0,
                            signal.market_meta.close,
                            old(self).balance().cash,
                        ))
                        &&& (order.decision is Short ==> crate::strategy::signal::signal_lookup(
                            signal.signals@,
                            Decision::Long,
                        ) is None && order.quantity == -spec_allocate(
                            old(self).allocator.default_order_value,
                            looked->Some_0,
                            signal.market_meta.close,
                            old(self).balance().cash,
                        ))
                    }
                },
                Ok(None) => {
                    if has_open(old(self).open(), signal.exchange@, signal.symbol@) {
                        let p = old(self).open()[
                            open_idx(old(self).open(), signal.exchange@, signal.symbol@)
                        ];
                        let close_decision = if p.direction is Long {
                            Decision::CloseLong
                        } else {
                            Decision::CloseShort
                        };
                        crate::strategy::signal::signal_lookup(
                            signal.signals@,
                            close_decision,
                        ) is None
                    } else {
                        let long = crate::strategy::signal::signal_lookup(
                            signal.signals@,
                            Decision::Long,
                        );
                        let short = crate::strategy::signal::signal_lookup(
                            signal.signals@,
                            Decision::Short,
                        );
                        ||| (long is Some && short is Some)
                        ||| (long is None && short is None)
                        ||| (long is Some && short is None && spec_allocate(
                            old(self).allocator.default_order_value,
                            long->Some_0,
                            signal.market_meta.close,
                            old(self).balance().cash,
                        ) == 0)
                        ||| (short is Some && long is None && spec_allocate(
                            old(self).allocator.default_order_value,
                            short->Some_0,
                            signal.market_meta.close,
                            old(self).balance().cash,
                        ) == 0)
                    }
                },
                Err(_) => false,
            },
    {
        let index = self.repository.find_open_index(&signal.exchange, &signal.symbol);
        match index {
            Some(i) => {
                let position = &self.repository.open_positions[i];
                let close_decision = match position.direction {
                    Direction::Long => Decision::CloseLong,
                    Direction::Short => Decision::CloseShort,
                };
                match crate::strategy::signal::signals_get(&signal.signals, close_decision) {
                    Some(_) => {
                        proof {
                            assert(self.repository.open_positions@[i as int].wf());
                        }
                        let order = OrderEvent {
                            trace_id: new_trace_id(),
                            timestamp: now_millis(),
                            exchange: signal.exchange.clone(),
                            symbol: signal.symbol.clone(),
                            close: signal.market_meta.close,
                            decision: close_decision,
                            quantity: -position.quantity,
                            order_type: OrderType::Market,
                        };
                        Ok(Some(order))
                    },
                    None => Ok(None),
                }
            },
            None => {
                let long = crate::strategy::signal::signals_get(&signal.signals, Decision::Long);
                let short = crate::strategy::signal::signals_get(&signal.signals, Decision::Short);
                let advised: Option<(Decision, crate::strategy::signal::SignalStrength)> =
                    match (long, short) {
                    (Some(strength), None) => Some((Decision::Long, strength)),
                    (None, Some(strength)) => Some((Decision::Short, strength)),
                    _ => None,
                };
                match advised {
                    None => Ok(None),
                    Some((decision, strength)) => {
                        proof {
                            crate::strategy::signal::lemma_signal_lookup_bounded(
                                signal.signals@,
                                decision,
                            );
                        }
                        let magnitude = self.allocator.allocate(
                            strength,
                            signal.market_meta.close,
                            self.repository.balance.cash,
                        );
                        let signed: i64 = match decision {
                            Decision::Short => -magnitude,
                            _ => magnitude,
                        };
                        let order = OrderEvent {
                            trace_id: new_trace_id(),
                            timestamp: now_millis(),
                            exchange: signal.exchange.clone(),
                            symbol: signal.symbol.clone(),
                            close: signal.market_meta.close,
                            decision,
                            quantity: signed,
                            order_type: OrderType::Market,
                        };
                        Ok(self.risk.evaluate_order(order))
                    },
                }
            },
        }
    }

    /// Generates an exit [`OrderEvent`] if (and only if) there is an open
    /// position for the input [`SignalForceExit`]'s market; otherwise
    /// returns None. Never mutates the portfolio: this bypasses the
    /// allocator and risk path and flattens the full open quantity at the
    /// position's current price.
    pub fn generate_exit_order(&mut self, signal: SignalForceExit) -> (r: Result<
        Option<OrderEvent>,
        PortfolioError,
    >)
        requires
            old(self).wf(),
        ensures
            *final(self) == *old(self),
            match r {
                Ok(Some(order)) => {
                    let p = old(self).open()[
                        open_idx(old(self).open(), signal.exchange@, signal.symbol@)
                    ];
                    &&& has_open(old(self).open(), signal.exchange@, signal.symbol@)
                    &&& order.valid()
                    &&& order.quantity != 0
                    &&& p.direction.spec_closed_by(order.decision)
                    &&& order.quantity == -p.quantity
                    &&& order.close == p.current_symbol_price
                    &&& order.exchange@ == signal.exchange@
                    &&& order.symbol@ == signal.symbol@
                    &&& order.order_type == OrderType::Market
                },
                Ok(None) => !has_open(old(self).open(), signal.exchange@, signal.symbol@),
                Err(_) => false,
            },
    {
        let index = self.repository.find_open_index(&signal.exchange, &signal.symbol);
        match index {
            None => Ok(None),
            Some(i) => {
                let position = &self.repository.open_positions[i];
                proof {
                    assert(self.repository.open_positions@[i as int].wf());
                }
                let decision = match position.direction {
                    Direction::Long => Decision::CloseLong,
                    Direction::Short => Decision::CloseShort,
                };
                let order = OrderEvent {
                    trace_id: new_trace_id(),
                    timestamp: now_millis(),
                    exchange: signal.exchange,
                    symbol: signal.symbol,
                    close: position.current_symbol_price,
                    decision,
                    quantity: -position.quantity,
                    order_type: OrderType::Market,
                };
                Ok(Some(order))
            },
        }
    }

    /// Cash after an entry fill: the gross entry value and the fees leave
    /// the cash balance.
    pub open spec fn entry_cash_after(self, fill: FillEvent) -> int {
        self.balance().cash - fill.fill_value_gross - fill.fees.spec_total()
    }

    /// Cash after an exit fill closing `p`: the position's value at the
    /// fill's close price returns to cash, net of the exit fees.
    pub open spec fn exit_cash_after(self, p: Position, fill: FillEvent) -> int {
        self.balance().cash + p.enter_value_gross + value_delta(
            p.direction,
            p.enter_avg_price_gross,
            fill.market_meta.close,
            p.quantity,
        ) - fill.fees.spec_total()
    }

    /// Equity after an exit fill closing `p`: marked from the stale price
    /// to the fill's close, minus the exit fees.
    pub open spec fn exit_equity_after(self, p: Position, fill: FillEvent) -> int {
        self.balance().equity - fill.fees.spec_total() + value_delta(
            p.direction,
            p.enter_avg_price_gross,
            fill.market_meta.close,
            p.quantity,
        ) - value_delta(
            p.direction,
            p.enter_avg_price_gross,
            p.current_symbol_price,
            p.quantity,
        )
    }

    /// Whether some accounting bound stops this exit fill: the cash or the
    /// equity after the close leaves the representable range, the return
    /// sample overflows, or the market's statistics are full.
    pub open spec fn exit_out_of_range(self, p: Position, fill: FillEvent, market_id: Seq<char>) -> bool {
        ||| !(-CASH_LIMIT <= self.exit_cash_after(p, fill) <= CASH_LIMIT)
        ||| !(-CASH_LIMIT <= self.exit_equity_after(p, fill) <= CASH_LIMIT)
        ||| spec_return_bps(
            p.spec_realised_profit(fill.market_meta.close, fill.fees.spec_total()),
            p.enter_value_gross as int,
        ) > crate::statistic::algorithm::SAMPLE_LIMIT
        ||| spec_return_bps(
            p.spec_realised_profit(fill.market_meta.close, fill.fees.spec_total()),
            p.enter_value_gross as int,
        ) < -crate::statistic::algorithm::SAMPLE_LIMIT
        ||| (has_stat(self.repository.statistics@, market_id) && self.repository.statistics@[
            stat_idx(self.repository.statistics@, market_id)
        ].1.spec_count() >= crate::statistic::algorithm::COUNT_LIMIT)
    }

    /// Updates the portfolio state from an input [`FillEvent`]: the only
    /// operation that mutates positions and balance.
    ///
    /// An entry fill with no open position in its market opens one, pays
    /// its gross value and fees out of cash, and reports the new position
    /// and balance. An exit fill matching the open position's direction
    /// closes it: the position moves from the open store to the closed
    /// log, the proceeds net of fees return to cash, the market's
    /// statistics take the realised return, and the new position, balance
    /// and metric are reported. Every other combination is an invalid
    /// state transition and mutates nothing.
    pub fn update_from_fill(&mut self, fill: &FillEvent) -> (r: Result<
        Vec<Event>,
        PortfolioError,
    >)
        requires
            old(self).wf(),
            fill.valid(),
        ensures
            final(self).wf(),
            final(self).engine_id == old(self).engine_id,
            final(self).allocator == old(self).allocator,
            final(self).risk == old(self).risk,
            match r {
                Ok(events) => {
                    if !has_open(old(self).open(), fill.exchange@, fill.symbol@) {
                        let np = final(self).open().last();
                        &&& fill.decision.spec_is_entry()
                        &&& -CASH_LIMIT <= old(self).entry_cash_after(*fill) <= CASH_LIMIT
                        &&& final(self).open().len() == old(self).open().len() + 1
                        &&& forall|j: int|
                            0 <= j < old(self).open().len() ==> final(self).open()[j] == old(self).open()[j]
                        &&& np.wf()
                        &&& np.direction == Direction::spec_from_entry(fill.decision)
                        &&& np.quantity == fill.quantity
                        &&& np.enter_avg_price_gross == fill.market_meta.close
                        &&& np.enter_value_gross == fill.fill_value_gross
                        &&& np.enter_fees_total == fill.fees.spec_total()
                        &&& np.exchange@ == fill.exchange@
                        &&& np.symbol@ == fill.symbol@
                        &&& np.realised_profit_loss == 0
                        &&& final(self).closed() == old(self).closed()
                        &&& final(self).repository.statistics@ == old(self).repository.statistics@
                        &&& final(self).balance().cash == old(self).entry_cash_after(*fill)
                        &&& final(self).balance().equity == old(self).balance().equity
                            - fill.fees.spec_total()
                        &&& final(self).balance().timestamp == fill.timestamp
                        &&& events@.len() == 2
                        &&& events@[0] is PositionNew && events@[0]->PositionNew_0.like(np)
                        &&& events@[1] is Balance && events@[1]->Balance_0 == final(self).balance()
                    } else {
                        let i = open_idx(old(self).open(), fill.exchange@, fill.symbol@);
                        let p = old(self).open()[i];
                        let cp = final(self).closed().last();
                        let mk = fill.exchange@ + seq!['_'] + fill.symbol@;
                        let si = stat_idx(final(self).repository.statistics@, mk);
                        let stat = final(self).repository.statistics@[si].1;
                        &&& p.direction.spec_closed_by(fill.decision)
                        &&& !old(self).exit_out_of_range(p, *fill, mk)
                        &&& final(self).open() == old(self).open().remove(i)
                        &&& !has_open(final(self).open(), fill.exchange@, fill.symbol@)
                        &&& final(self).closed().len() == old(self).closed().len() + 1
                        &&& forall|j: int|
                            0 <= j < old(self).closed().len() ==> final(self).closed()[j] == old(self).closed()[j]
                        &&& cp.wf()
                        &&& cp.direction == p.direction
                        &&& cp.quantity == p.quantity
                        &&& cp.enter_avg_price_gross == p.enter_avg_price_gross
                        &&& cp.enter_value_gross == p.enter_value_gross
                        &&& cp.enter_fees_total == p.enter_fees_total
                        &&& cp.exit_fees_total == fill.fees.spec_total()
                        &&& cp.current_symbol_price == fill.market_meta.close
                        &&& cp.realised_profit_loss == p.spec_realised_profit(
                            fill.market_meta.close,
                            fill.fees.spec_total(),
                        )
                        &&& cp.exchange@ == p.exchange@
                        &&& cp.symbol@ == p.symbol@
                        &&& final(self).balance().cash == old(self).exit_cash_after(p, *fill)
                        &&& final(self).balance().equity == old(self).exit_equity_after(p, *fill)
                        &&& final(self).balance().timestamp == fill.timestamp
                        &&& has_stat(final(self).repository.statistics@, mk)
                        &&& stat.dispersion.welford.samples@.len() > 0
                        &&& stat.dispersion.welford.samples@.last() == spec_return_bps(
                            cp.realised_profit_loss as int,
                            p.enter_value_gross as int,
                        )
                        &&& (has_stat(old(self).repository.statistics@, mk)
                            ==> stat.dispersion.welford.samples@ == old(self).repository.statistics@[
                            stat_idx(old(self).repository.statistics@, mk)
                        ].1.dispersion.welford.samples@.push(
                            spec_return_bps(
                                cp.realised_profit_loss as int,
                                p.enter_value_gross as int,
                            ),
                        ))
                        &&& (!has_stat(old(self).repository.statistics@, mk)
                            ==> stat.dispersion.welford.samples@ == seq![
                            spec_return_bps(
                                cp.realised_profit_loss as int,
                                p.enter_value_gross as int,
                            ),
                        ])
                        &&& events@.len() == 3
                        &&& events@[0] is PositionExit && events@[0]->PositionExit_0.like(cp)
                        &&& events@[1] is Balance && events@[1]->Balance_0 == final(self).balance()
                        &&& events@[2] is Metric && events@[2]->Metric_0.market_id@ == mk
                    }
                },
                Err(e) => {
                    let opened = has_open(old(self).open(), fill.exchange@, fill.symbol@);
                    let i = open_idx(old(self).open(), fill.exchange@, fill.symbol@);
                    let mk = fill.exchange@ + seq!['_'] + fill.symbol@;
                    &&& *final(self) == *old(self)
                    &&& (e == PortfolioError::PositionNotOpen <==> !opened
                        && fill.decision.spec_is_exit())
                    &&& (e == PortfolioError::PositionAlreadyOpen <==> opened
                        && fill.decision.spec_is_entry())
                    &&& (e == PortfolioError::FillDirectionMismatch <==> opened
                        && fill.decision.spec_is_exit() && !old(self).open()[
                        i
                    ].direction.spec_closed_by(fill.decision))
                    &&& (e == PortfolioError::AccountingOutOfRange ==> (if opened {
                        old(self).exit_out_of_range(old(self).open()[i], *fill, mk)
                    } else {
                        !(-CASH_LIMIT <= old(self).entry_cash_after(*fill) <= CASH_LIMIT)
                    }))
                    &&& (e == PortfolioError::PositionNotOpen || e
                        == PortfolioError::PositionAlreadyOpen || e
                        == PortfolioError::FillDirectionMismatch || e
                        == PortfolioError::AccountingOutOfRange)
                },
            },
    {
        let index = self.repository.find_open_index(&fill.exchange, &fill.symbol);
        match index {
            None => self.open_from_fill(fill),
            Some(i) => self.close_from_fill(i, fill),
        }
    }

    /// Opens a new position from an entry fill (no position open in the
    /// fill's market).
    fn open_from_fill(&mut self, fill: &FillEvent) -> (r: Result<Vec<Event>, PortfolioError>)
        requires
            old(self).wf(),
            fill.valid(),
            !has_open(old(self).open(), fill.exchange@, fill.symbol@),
        ensures
            final(self).wf(),
            final(self).engine_id == old(self).engine_id,
            final(self).allocator == old(self).allocator,
            final(self).risk == old(self).risk,
            match r {
                Ok(events) => {
                    let np = final(self).open().last();
                    &&& fill.decision.spec_is_entry()
                    &&& -CASH_LIMIT <= old(self).entry_cash_after(*fill) <= CASH_LIMIT
                    &&& final(self).open().len() == old(self).open().len() + 1
                    &&& forall|j: int|
                        0 <= j < old(self).open().len() ==> final(self).open()[j] == old(self).open()[j]
                    &&& np.wf()
                    &&& np.direction == Direction::spec_from_entry(fill.decision)
                    &&& np.quantity == fill.quantity
                    &&& np.enter_avg_price_gross == fill.market_meta.close
                    &&& np.enter_value_gross == fill.fill_value_gross
                    &&& np.enter_fees_total == fill.fees.spec_total()
                    &&& np.exchange@ == fill.exchange@
                    &&& np.symbol@ == fill.symbol@
                    &&& np.realised_profit_loss == 0
                    &&& final(self).closed() == old(self).closed()
                    &&& final(self).repository.statistics@ == old(self).repository.statistics@
                    &&& final(self).balance().cash == old(self).entry_cash_after(*fill)
                    &&& final(self).balance().equity == old(self).balance().equity
                        - fill.fees.spec_total()
                    &&& final(self).balance().timestamp == fill.timestamp
                    &&& events@.len() == 2
                    &&& events@[0] is PositionNew && events@[0]->PositionNew_0.like(np)
                    &&& events@[1] is Balance && events@[1]->Balance_0 == final(self).balance()
                },
                Err(e) => {
                    &&& *final(self) == *old(self)
                    &&& (e == PortfolioError::PositionNotOpen <==> fill.decision.spec_is_exit())
                    &&& (e == PortfolioError::AccountingOutOfRange <==> (
                    fill.decision.spec_is_entry() && !(-CASH_LIMIT <= old(self).entry_cash_after(
                        *fill,
                    ) <= CASH_LIMIT)))
                    &&& (e == PortfolioError::PositionNotOpen || e
                        == PortfolioError::AccountingOutOfRange)
                },
            },
    {
        if fill.decision.is_exit() {
            return Err(PortfolioError::PositionNotOpen);
        }
        let fees = fill.fees.calculate_total_fees();
        proof {
            crate::lemma_bounded_product(
                crate::execution::fill::abs_i64(fill.quantity),
                fill.market_meta.close as int,
                crate::AMOUNT_LIMIT as int,
            );
        }
        let new_cash: i128 = self.repository.balance.cash - fill.fill_value_gross - (
        fees as i128);
        if new_cash > CASH_LIMIT || new_cash < -CASH_LIMIT {
            return Err(PortfolioError::AccountingOutOfRange);
        }
        let position = match Position::enter(&self.engine_id, fill) {
            Ok(p) => p,
            Err(_) => {
                proof {
                    assert(false);
                }
                return Err(PortfolioError::PositionNotOpen);
            },
        };
        let snapshot = position.duplicate();
        let open_count = self.repository.open_positions.len();
        let ghost old_open = self.repository.open_positions@;
        let ghost np = position;
        proof {
            assert(old_open.len() == open_count);
            lemma_sum_mv_push(old_open, np);
            lemma_sum_mv_bounds(old_open);
            lemma_mul_mono(
                old_open.len() as int,
                MARKET_VALUE_LIMIT as int,
                0x1_0000_0000_0000_0000,
                MARKET_VALUE_LIMIT as int,
            );
        }
        self.repository.open_positions.push(position);
        proof {
            let new_open = self.repository.open_positions@;
            assert(all_wf(new_open)) by {
                assert(forall|j: int| 0 <= j < old_open.len() ==> new_open[j] == old_open[j]);
                assert(new_open[new_open.len() - 1] == np);
            }
            assert(unique_markets(new_open)) by {
                assert(forall|j: int|
                    0 <= j < old_open.len() ==> !key_matches(
                        #[trigger] old_open[j],
                        fill.exchange@,
                        fill.symbol@,
                    ));
                assert(forall|j: int| 0 <= j < old_open.len() ==> new_open[j] == old_open[j]);
            }
        }
        let prior_equity: i128 = self.repository.balance.equity;
        self.repository.balance.cash = new_cash;
        self.repository.balance.timestamp = fill.timestamp;
        self.repository.balance.equity = prior_equity - (fees as i128);
        let mut events: Vec<Event> = Vec::new();
        events.push(Event::PositionNew(snapshot));
        events.push(Event::Balance(self.repository.balance));
        Ok(events)
    }

    /// Closes the open position at `index` with an exit fill.
    fn close_from_fill(&mut self, index: usize, fill: &FillEvent) -> (r: Result<
        Vec<Event>,
        PortfolioError,
    >)
        requires
            old(self).wf(),
            fill.valid(),
            has_open(old(self).open(), fill.exchange@, fill.symbol@),
            index == open_idx(old(self).open(), fill.exchange@, fill.symbol@),
            index < old(self).open().len(),
            key_matches(old(self).open()[index as int], fill.exchange@, fill.symbol@),
        ensures
            final(self).wf(),
            final(self).engine_id == old(self).engine_id,
            final(self).allocator == old(self).allocator,
            final(self).risk == old(self).risk,
            match r {
                Ok(events) => {
                    let i = index as int;
                    let p = old(self).open()[i];
                    let cp = final(self).closed().last();
                    let mk = fill.exchange@ + seq!['_'] + fill.symbol@;
                    let si = stat_idx(final(self).repository.statistics@, mk);
                    let stat = final(self).repository.statistics@[si].1;
                    &&& p.direction.spec_closed_by(fill.decision)
                    &&& !old(self).exit_out_of_range(p, *fill, mk)
                    &&& final(self).open() == old(self).open().remove(i)
                    &&& !has_open(final(self).open(), fill.exchange@, fill.symbol@)
                    &&& final(self).closed().len() == old(self).closed().len() + 1
                    &&& forall|j: int|
                        0 <= j < old(self).closed().len() ==> final(self).closed()[j] == old(self).closed()[j]
                    &&& cp.wf()
                    &&& cp.direction == p.direction
                    &&& cp.quantity == p.quantity
                    &&& cp.enter_avg_price_gross == p.enter_avg_price_gross
                    &&& cp.enter_value_gross == p.enter_value_gross
                    &&& cp.enter_fees_total == p.enter_fees_total
                    &&& cp.exit_fees_total == fill.fees.spec_total()
                    &&& cp.current_symbol_price == fill.market_meta.close
                    &&& cp.realised_profit_loss == p.spec_realised_profit(
                        fill.market_meta.close,
                        fill.fees.spec_total(),
                    )
                    &&& cp.exchange@ == p.exchange@
                    &&& cp.symbol@ == p.symbol@
                    &&& final(self).balance().cash == old(self).exit_cash_after(p, *fill)
                    &&& final(self).balance().equity == old(self).exit_equity_after(p, *fill)
                    &&& final(self).balance().timestamp == fill.timestamp
                    &&& has_stat(final(self).repository.statistics@, mk)
                    &&& stat.dispersion.welford.samples@.len() > 0
                    &&& stat.dispersion.welford.samples@.last() == spec_return_bps(
                        cp.realised_profit_loss as int,
                        p.enter_value_gross as int,
                    )
                    &&& (has_stat(old(self).repository.statistics@, mk) ==> stat
                        .dispersion.welford.samples@ == old(self).repository.statistics@[
                        stat_idx(old(self).repository.statistics@, mk)
                    ].1.dispersion.welford.samples@.push(
                        spec_return_bps(
                            cp.realised_profit_loss as int,
                            p.enter_value_gross as int,
                        ),
                    ))
                    &&& (!has_stat(old(self).repository.statistics@, mk) ==> stat
                        .dispersion.welford.samples@ == seq![
                        spec_return_bps(
                            cp.realised_profit_loss as int,
                            p.enter_value_gross as int,
                        ),
                    ])
                    &&& events@.len() == 3
                    &&& events@[0] is PositionExit && events@[0]->PositionExit_0.like(cp)
                    &&& events@[1] is Balance && events@[1]->Balance_0 == final(self).balance()
                    &&& events@[2] is Metric && events@[2]->Metric_0.market_id@ == mk
                },
                Err(e) => {
                    let i = index as int;
                    let p = old(self).open()[i];
                    let mk = fill.exchange@ + seq!['_'] + fill.symbol@;
                    &&& *final(self) == *old(self)
                    &&& (e == PortfolioError::PositionAlreadyOpen <==>
                    fill.decision.spec_is_entry())
                    &&& (e == PortfolioError::FillDirectionMismatch <==> (
                    fill.decision.spec_is_exit() && !p.direction.spec_closed_by(fill.decision)))
                    &&& (e == PortfolioError::AccountingOutOfRange <==> (
                    p.direction.spec_closed_by(fill.decision) && old(self).exit_out_of_range(
                        p,
                        *fill,
                        mk,
                    )))
                    &&& (e == PortfolioError::PositionAlreadyOpen || e
                        == PortfolioError::FillDirectionMismatch || e
                        == PortfolioError::AccountingOutOfRange)
                },
            },
    {
        proof {
            assert(self.repository.open_positions@[index as int].wf());
        }
        if fill.decision.is_entry() {
            return Err(PortfolioError::PositionAlreadyOpen);
        }
        let closes = self.repository.open_positions[index].direction.closed_by(fill.decision);
        if !closes {
            return Err(PortfolioError::FillDirectionMismatch);
        }
        let fees = fill.fees.calculate_total_fees();
        let quantity = self.repository.open_positions[index].quantity;
        let enter_price = self.repository.open_positions[index].enter_avg_price_gross;
        let stale_price = self.repository.open_positions[index].current_symbol_price;
        let enter_value_gross = self.repository.open_positions[index].enter_value_gross;
        let enter_fees = self.repository.open_positions[index].enter_fees_total;
        let is_long = matches!(
            self.repository.open_positions[index].direction,
            Direction::Long
        );
        let abs_q: i64 = if quantity >= 0 {
            quantity
        } else {
            -quantity
        };
        let diff_exit: i64 = if is_long {
            fill.market_meta.close - enter_price
        } else {
            enter_price - fill.market_meta.close
        };
        let diff_stale: i64 = if is_long {
            stale_price - enter_price
        } else {
            enter_price - stale_price
        };
        let open_count = self.repository.open_positions.len();
        proof {
            assert(self.repository.open_positions@.len() == open_count);
            crate::lemma_product_bounds(
                diff_exit as int,
                abs_q as int,
                2 * crate::AMOUNT_LIMIT as int,
                crate::AMOUNT_LIMIT as int,
            );
            crate::lemma_product_bounds(
                diff_stale as int,
                abs_q as int,
                2 * crate::AMOUNT_LIMIT as int,
                crate::AMOUNT_LIMIT as int,
            );
            crate::lemma_bounded_product(
                crate::execution::fill::abs_i64(quantity),
                enter_price as int,
                crate::AMOUNT_LIMIT as int,
            );
            lemma_sum_mv_bounds(self.repository.open_positions@);
            lemma_mul_mono(
                self.repository.open_positions@.len() as int,
                MARKET_VALUE_LIMIT as int,
                0x1_0000_0000_0000_0000,
                MARKET_VALUE_LIMIT as int,
            );
        }
        let delta_exit: i128 = (diff_exit as i128) * (abs_q as i128);
        let delta_stale: i128 = (diff_stale as i128) * (abs_q as i128);
        let new_cash: i128 = self.repository.balance.cash + enter_value_gross + delta_exit - (
        fees as i128);
        if new_cash > CASH_LIMIT || new_cash < -CASH_LIMIT {
            return Err(PortfolioError::AccountingOutOfRange);
        }
        let new_equity: i128 = self.repository.balance.equity - (fees as i128) + delta_exit
            - delta_stale;
        if new_equity > CASH_LIMIT || new_equity < -CASH_LIMIT {
            return Err(PortfolioError::AccountingOutOfRange);
        }
        let realised: i128 = delta_exit - (enter_fees as i128) - (fees as i128);
        proof {
            lemma_mul_mono(1, 1, crate::execution::fill::abs_i64(quantity), enter_price as int);
        }
        let mag: u128 = if realised >= 0 {
            realised as u128
        } else {
            (-realised) as u128
        };
        let ret_mag: u128 = (mag * 10000) / (enter_value_gross as u128);
        if ret_mag > (crate::statistic::algorithm::SAMPLE_LIMIT as u128) {
            return Err(PortfolioError::AccountingOutOfRange);
        }
        let ret: i64 = if realised >= 0 {
            ret_mag as i64
        } else {
            -(ret_mag as i64)
        };
        let market_id = crate::Market::new(
            fill.exchange.clone(),
            fill.symbol.clone(),
        ).market_id();
        let stat_index = self.repository.find_statistics_index(&market_id);
        match stat_index {
            Some(si) => {
                proof {
                    assert(self.repository.statistics@[si as int].1.wf());
                }
                if !self.repository.statistics[si].1.has_capacity() {
                    return Err(PortfolioError::AccountingOutOfRange);
                }
            },
            None => {},
        }
        let ghost old_open = self.repository.open_positions@;
        let ghost old_stats = self.repository.statistics@;
        let mut position = self.repository.open_positions.remove(index);
        proof {
            lemma_sum_mv_remove(old_open, index as int);
            crate::portfolio::repository::lemma_open_remove_props(old_open, index as int);
        }
        match position.exit(fill) {
            Ok(()) => {},
            Err(_) => {
                proof {
                    assert(false);
                }
                return Err(PortfolioError::FillDirectionMismatch);
            },
        }
        let snapshot = position.duplicate();
        self.repository.closed_positions.push(position);
        self.repository.balance.cash = new_cash;
        self.repository.balance.equity = new_equity;
        self.repository.balance.timestamp = fill.timestamp;
        let mut events: Vec<Event> = Vec::new();
        events.push(Event::PositionExit(snapshot));
        events.push(Event::Balance(self.repository.balance));
        match stat_index {
            Some(si) => {
                let mut entry = self.repository.statistics.remove(si);
                entry.1.update(ret, new_equity);
                let metric = MetricEvent::from_summary(market_id, &entry.1);
                self.repository.statistics.insert(si, entry);
                proof {
                    assert(self.repository.statistics@ =~= old_stats.update(
                        si as int,
                        self.repository.statistics@[si as int],
                    ));
                }
                events.push(Event::Metric(metric));
            },
            None => {
                let mut summary = TradingSummary::new(new_equity);
                summary.update(ret, new_equity);
                let metric = MetricEvent::from_summary(market_id.clone(), &summary);
                self.repository.statistics.push((market_id, summary));
                events.push(Event::Metric(metric));
            },
        }
        proof {
            let mk = fill.exchange@ + seq!['_'] + fill.symbol@;
            let new_stats = self.repository.statistics@;
            assert(unique_stat_keys(new_stats)) by {
                if stat_index is Some {
                    assert(forall|j: int|
                        0 <= j < new_stats.len() ==> (#[trigger] new_stats[j]).0
                            == old_stats[j].0);
                } else {
                    assert(forall|j: int|
                        0 <= j < old_stats.len() ==> (#[trigger] new_stats[j]) == old_stats[j]);
                    assert(forall|j: int|
                        0 <= j < old_stats.len() ==> (#[trigger] old_stats[j]).0@ != mk);
                }
            }
            let si = stat_idx(new_stats, mk);
            if stat_index is Some {
                let s0 = stat_index->Some_0 as int;
                assert(new_stats[s0].0@ == mk);
                assert(has_stat(new_stats, mk));
                assert(si == s0) by {
                    assert(0 <= si < new_stats.len() && new_stats[si].0@ == mk);
                }
            } else {
                let s0 = new_stats.len() - 1;
                assert(new_stats[s0].0@ == mk);
                assert(has_stat(new_stats, mk));
                assert(si == s0) by {
                    assert(0 <= si < new_stats.len() && new_stats[si].0@ == mk);
                    if si < s0 {
                        assert(old_stats[si] == new_stats[si]);
                    }
                }
            }
        }
        Ok(events)
    }
}

/// The portfolio's standing invariant, established by the constructor and
/// preserved by every operation: the recorded equity is exactly the cash
/// plus the total market value of the open positions, at most one position
/// is open per market, and every stored position is internally consistent.
pub proof fn lemma_equity_invariant(portfolio: MetaPortfolio)
    requires
        portfolio.wf(),
    ensures
        portfolio.balance().equity == portfolio.balance().cash + sum_market_value(
            portfolio.open(),
        ),
        unique_markets(portfolio.open()),
        all_wf(portfolio.open()),
{
}

/// Return of a closed position in basis points: the realised profit scaled
/// by 10000 and divided by the gross entry value, rounded towards zero.
pub open spec fn spec_return_bps(realised: int, enter_value_gross: int) -> int {
    if realised >= 0 {
        (realised * 10000) / enter_value_gross
    } else {
        -((-realised * 10000) / enter_value_gross)
    }
}

} // verus!
