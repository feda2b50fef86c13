//! End-to-end pipeline scenarios against the portfolio state machine.

use barter::data::handler::{Config as DataConfig, HistoricDataHandler};
use barter::data::market::{Bar, MarketEvent, MarketMeta};
use barter::engine::trader::Trader;
use barter::event::{Event, MessageTransmitter};
use barter::execution::fill::{Fees, FillEvent};
use barter::execution::{FillGenerator, SimulatedExecution};
use barter::portfolio::allocator::DefaultAllocator;
use barter::portfolio::error::PortfolioError;
use barter::portfolio::portfolio::{Components, MetaPortfolio};
use barter::portfolio::position::Direction;
use barter::portfolio::risk::DefaultRisk;
use barter::portfolio::shared::SharedPortfolio;
use barter::strategy::error::StrategyError;
use barter::strategy::signal::{Decision, SignalEvent, SignalStrength};
use barter::strategy::SignalGenerator;
use barter::Market;

/// Strategy scripted per bar: the n-th generated signal map is the n-th
/// entry of the script; an empty map means no signal event.
struct ScriptedStrategy {
    script: Vec<Vec<(Decision, SignalStrength)>>,
    next: usize,
}

impl ScriptedStrategy {
    fn new(script: Vec<Vec<(Decision, SignalStrength)>>) -> Self {
        ScriptedStrategy { script, next: 0 }
    }
}

impl SignalGenerator for ScriptedStrategy {
    fn generate_signal(
        &mut self,
        market: &MarketEvent,
    ) -> Result<Option<SignalEvent>, StrategyError> {
        let signals = if self.next < self.script.len() {
            self.script[self.next].clone()
        } else {
            Vec::new()
        };
        self.next += 1;
        if signals.is_empty() {
            return Ok(None);
        }
        Ok(Some(SignalEvent {
            trace_id: 0,
            timestamp: market.timestamp,
            exchange: market.exchange.clone(),
            symbol: market.symbol.clone(),
            market_meta: MarketMeta { close: market.bar.close, timestamp: market.bar.timestamp },
            signals,
        }))
    }
}

/// Event sink collecting everything the pipeline emits.
struct VecSink {
    events: Vec<Event>,
}

impl MessageTransmitter for VecSink {
    fn send(&mut self, message: Event) {
        self.events.push(message);
    }

    fn send_many(&mut self, messages: Vec<Event>) {
        for message in messages {
            self.events.push(message);
        }
    }
}

fn bar(close: i64) -> Bar {
    Bar { open: close, high: close, low: close, close, volume: 1, timestamp: 0 }
}

fn market() -> Market {
    Market::new("binance".to_string(), "eth_usd".to_string())
}

fn portfolio_with_cash(cash: i128) -> MetaPortfolio {
    MetaPortfolio::new(
        "engine".to_string(),
        Components {
            allocator: DefaultAllocator { default_order_value: 1000 },
            risk: DefaultRisk {},
            starting_cash: cash,
        },
        0,
    )
}

fn data_handler(closes: &[i64]) -> HistoricDataHandler {
    HistoricDataHandler::new(DataConfig {
        exchange: "binance".to_string(),
        symbol: "eth_usd".to_string(),
        bars: closes.iter().map(|&c| bar(c)).collect(),
    })
    .unwrap()
}

fn run_trader(
    closes: &[i64],
    script: Vec<Vec<(Decision, SignalStrength)>>,
    fees: Fees,
    portfolio: MetaPortfolio,
) -> (Vec<Event>, MetaPortfolio) {
    let shared = SharedPortfolio::new(portfolio);
    let (_tx, rx) = tokio::sync::mpsc::channel(8);
    let mut trader = Trader::new(
        "engine".to_string(),
        market(),
        rx,
        VecSink { events: Vec::new() },
        data_handler(closes),
        ScriptedStrategy::new(script),
        SimulatedExecution::new(fees),
    );
    trader.run(&shared);
    (trader.event_tx.events, shared.into_inner())
}

#[test]
fn single_long_winner() {
    let (_events, portfolio) = run_trader(
        &[100, 110, 120],
        vec![
            vec![(Decision::Long, 1000)],
            vec![],
            vec![(Decision::CloseLong, 1000)],
        ],
        Fees::default(),
        portfolio_with_cash(10_000),
    );

    assert_eq!(portfolio.repository.open_positions.len(), 0);
    assert_eq!(portfolio.repository.closed_positions.len(), 1);
    let closed = &portfolio.repository.closed_positions[0];
    assert_eq!(closed.direction, Direction::Long);
    assert_eq!(closed.quantity, 10);
    assert_eq!(closed.enter_avg_price_gross, 100);
    assert_eq!(closed.realised_profit_loss, 200);
    assert_eq!(portfolio.repository.balance.cash, 10_200);
    assert_eq!(portfolio.repository.balance.equity, 10_200);
}

#[test]
fn force_exit_mid_run() {
    let mut execution = SimulatedExecution::new(Fees::default());

    // Bars 1 and 2 flow through the pipeline; the position opens on bar 1.
    let (_events, mut portfolio) = run_trader(
        &[100, 110],
        vec![vec![(Decision::Long, 1000)]],
        Fees::default(),
        portfolio_with_cash(10_000),
    );
    assert_eq!(portfolio.repository.open_positions.len(), 1);

    // The engine requests an exit after bar 2: the position closes at its
    // latest price, 110.
    let force_exit = barter::strategy::signal::SignalForceExit::from_market(&market());
    let order = portfolio.generate_exit_order(force_exit).unwrap().unwrap();
    assert_eq!(order.close, 110);
    assert_eq!(order.quantity, -10);
    let fill = execution.generate_fill(&order).unwrap();
    portfolio.update_from_fill(&fill).unwrap();

    assert_eq!(portfolio.repository.closed_positions[0].realised_profit_loss, 100);
    assert_eq!(portfolio.repository.balance.cash, 10_100);

    // Bar 3 produces no position update: nothing is open any more.
    let event = MarketEvent {
        trace_id: 0,
        timestamp: 0,
        exchange: "binance".to_string(),
        symbol: "eth_usd".to_string(),
        bar: bar(120),
    };
    assert_eq!(portfolio.update_from_market(&event).unwrap().is_none(), true);
}

#[test]
fn force_exit_without_position_is_a_quiet_no_op() {
    let mut portfolio = portfolio_with_cash(10_000);
    let force_exit = barter::strategy::signal::SignalForceExit::from_market(&market());
    assert!(portfolio.generate_exit_order(force_exit).unwrap().is_none());
    assert_eq!(portfolio.repository.balance.cash, 10_000);
    assert_eq!(portfolio.repository.balance.equity, 10_000);
    assert_eq!(portfolio.repository.open_positions.len(), 0);
}

#[test]
fn short_round_trip() {
    let (_events, portfolio) = run_trader(
        &[100, 90],
        vec![
            vec![(Decision::Short, 1000)],
            vec![(Decision::CloseShort, 1000)],
        ],
        Fees::default(),
        portfolio_with_cash(10_000),
    );

    assert_eq!(portfolio.repository.closed_positions.len(), 1);
    let closed = &portfolio.repository.closed_positions[0];
    assert_eq!(closed.direction, Direction::Short);
    assert_eq!(closed.quantity, -10);
    assert_eq!(closed.realised_profit_loss, 100);
    assert_eq!(portfolio.repository.balance.cash, 10_100);
    assert_eq!(portfolio.repository.balance.equity, 10_100);
}

#[test]
fn no_signal_path() {
    let (events, portfolio) =
        run_trader(&[50, 51], vec![vec![], vec![]], Fees::default(), portfolio_with_cash(10_000));

    assert_eq!(portfolio.repository.open_positions.len(), 0);
    assert_eq!(portfolio.repository.closed_positions.len(), 0);
    assert_eq!(portfolio.repository.statistics.len(), 0);
    assert_eq!(portfolio.repository.balance.cash, 10_000);
    assert_eq!(portfolio.repository.balance.equity, 10_000);
    assert!(events.iter().all(|e| matches!(e, Event::Market(_))));
}

#[test]
fn fee_accounting_round_trip() {
    // One minor unit of exchange fee on entry and on exit.
    let fees = Fees { exchange: 1, slippage: 0, network: 0 };
    let (_events, portfolio) = run_trader(
        &[100, 110],
        vec![
            vec![(Decision::Long, 1000)],
            vec![(Decision::CloseLong, 1000)],
        ],
        fees,
        portfolio_with_cash(10_000),
    );

    let closed = &portfolio.repository.closed_positions[0];
    assert_eq!(closed.enter_fees_total, 1);
    assert_eq!(closed.exit_fees_total, 1);
    assert_eq!(closed.realised_profit_loss, 98);
    assert_eq!(portfolio.repository.balance.cash, 10_098);
    assert_eq!(portfolio.repository.balance.equity, 10_098);
}

#[test]
fn allocator_without_cash_for_one_lot_orders_nothing() {
    let allocator = DefaultAllocator { default_order_value: 1000 };
    // Cash below the price of a single lot allocates a zero quantity.
    assert_eq!(allocator.allocate(1000, 100, 50), 0);

    // And the risk layer rejects the zero-quantity order: no order leaves
    // the portfolio.
    let mut portfolio = portfolio_with_cash(50);
    let signal = SignalEvent {
        trace_id: 0,
        timestamp: 0,
        exchange: "binance".to_string(),
        symbol: "eth_usd".to_string(),
        market_meta: MarketMeta { close: 100, timestamp: 0 },
        signals: vec![(Decision::Long, 1000)],
    };
    assert!(portfolio.generate_order(&signal).unwrap().is_none());
}

#[test]
fn empty_signal_map_produces_no_order() {
    let mut portfolio = portfolio_with_cash(10_000);
    let signal = SignalEvent {
        trace_id: 0,
        timestamp: 0,
        exchange: "binance".to_string(),
        symbol: "eth_usd".to_string(),
        market_meta: MarketMeta { close: 100, timestamp: 0 },
        signals: Vec::new(),
    };
    assert!(portfolio.generate_order(&signal).unwrap().is_none());
    assert_eq!(portfolio.repository.balance.cash, 10_000);
}

fn fill(decision: Decision, quantity: i64, close: i64, fees_total: i64) -> FillEvent {
    FillEvent {
        trace_id: 0,
        timestamp: 0,
        exchange: "binance".to_string(),
        symbol: "eth_usd".to_string(),
        market_meta: MarketMeta { close, timestamp: 0 },
        decision,
        quantity,
        fill_value_gross: (quantity.unsigned_abs() as i128) * (close as i128),
        fees: Fees { exchange: fees_total, slippage: 0, network: 0 },
    }
}

#[test]
fn exit_fill_without_position_is_rejected() {
    let mut portfolio = portfolio_with_cash(10_000);
    let err = portfolio.update_from_fill(&fill(Decision::CloseLong, -10, 100, 0)).unwrap_err();
    assert_eq!(err, PortfolioError::PositionNotOpen);
    assert_eq!(portfolio.repository.balance.cash, 10_000);
}

#[test]
fn second_entry_fill_for_a_market_is_rejected() {
    let mut portfolio = portfolio_with_cash(10_000);
    portfolio.update_from_fill(&fill(Decision::Long, 10, 100, 0)).unwrap();
    let err = portfolio.update_from_fill(&fill(Decision::Long, 10, 100, 0)).unwrap_err();
    assert_eq!(err, PortfolioError::PositionAlreadyOpen);
    let err = portfolio.update_from_fill(&fill(Decision::Short, -10, 100, 0)).unwrap_err();
    assert_eq!(err, PortfolioError::PositionAlreadyOpen);
}

#[test]
fn mismatched_close_decision_is_rejected() {
    let mut portfolio = portfolio_with_cash(10_000);
    portfolio.update_from_fill(&fill(Decision::Long, 10, 100, 0)).unwrap();
    let err = portfolio.update_from_fill(&fill(Decision::CloseShort, -10, 110, 0)).unwrap_err();
    assert_eq!(err, PortfolioError::FillDirectionMismatch);
    // The position is untouched.
    assert_eq!(portfolio.repository.open_positions.len(), 1);
    assert_eq!(portfolio.repository.open_positions[0].direction, Direction::Long);
}

#[test]
fn entry_beyond_the_accounting_range_is_rejected() {
    // A portfolio already at the representable low end cannot pay for an
    // entry: the fill is rejected and nothing changes.
    let mut portfolio = MetaPortfolio::new(
        "engine".to_string(),
        Components {
            allocator: DefaultAllocator { default_order_value: 1000 },
            risk: DefaultRisk {},
            starting_cash: -barter::CASH_LIMIT,
        },
        0,
    );
    let err = portfolio.update_from_fill(&fill(Decision::Long, 10, 100, 0)).unwrap_err();
    assert_eq!(err, PortfolioError::AccountingOutOfRange);
    assert_eq!(portfolio.repository.balance.cash, -barter::CASH_LIMIT);
    assert_eq!(portfolio.repository.open_positions.len(), 0);
}

#[test]
fn out_of_bounds_bars_are_rejected_by_the_data_handler() {
    let result = HistoricDataHandler::new(DataConfig {
        exchange: "binance".to_string(),
        symbol: "eth_usd".to_string(),
        bars: vec![Bar { open: 100, high: 100, low: 100, close: 0, volume: 1, timestamp: 0 }],
    });
    match result {
        Err(e) => assert_eq!(e, barter::data::error::DataError::BuilderAttributesInvalid),
        Ok(_) => panic!("a bar with a non-positive close must be rejected"),
    }
}

#[test]
fn equity_marks_to_market_on_every_bar() {
    let mut portfolio = portfolio_with_cash(10_000);
    portfolio.update_from_fill(&fill(Decision::Long, 10, 100, 0)).unwrap();
    assert_eq!(portfolio.repository.balance.cash, 9_000);
    assert_eq!(portfolio.repository.balance.equity, 10_000);

    let event = MarketEvent {
        trace_id: 0,
        timestamp: 7,
        exchange: "binance".to_string(),
        symbol: "eth_usd".to_string(),
        bar: bar(110),
    };
    let update = portfolio.update_from_market(&event).unwrap().unwrap();
    assert_eq!(update.current_symbol_price, 110);
    assert_eq!(update.current_value_gross, 1_100);
    assert_eq!(update.unrealised_profit_loss, 100);
    assert_eq!(portfolio.repository.balance.cash, 9_000);
    assert_eq!(portfolio.repository.balance.equity, 10_100);
}

#[test]
fn shared_portfolio_round_trip_preserves_the_balance() {
    let shared = SharedPortfolio::new(portfolio_with_cash(10_000));
    assert_eq!(shared.balance().cash, 10_000);
    assert_eq!(shared.balance().equity, 10_000);
    assert_eq!(shared.get_open_positions().len(), 0);

    shared.update_from_fill(&fill(Decision::Long, 10, 100, 0)).unwrap();
    assert_eq!(shared.balance().cash, 9_000);
    assert_eq!(shared.get_open_positions().len(), 1);

    let portfolio = shared.into_inner();
    assert_eq!(portfolio.repository.balance.cash, 9_000);
    assert_eq!(portfolio.repository.open_positions.len(), 1);
}

#[test]
fn position_identifiers_follow_the_engine_market_layout() {
    let mut portfolio = portfolio_with_cash(10_000);
    portfolio.update_from_fill(&fill(Decision::Long, 10, 100, 0)).unwrap();
    assert_eq!(
        portfolio.repository.open_positions[0].position_id,
        "engine_binance_eth_usd_position"
    );
    assert_eq!(market().market_id(), "binance_eth_usd");
}

#[test]
fn markets_account_independently_under_one_equity() {
    let mut portfolio = portfolio_with_cash(10_000);
    portfolio.update_from_fill(&fill(Decision::Long, 10, 100, 0)).unwrap();

    let mut btc_fill = fill(Decision::Short, -2, 300, 0);
    btc_fill.symbol = "btc_usd".to_string();
    portfolio.update_from_fill(&btc_fill).unwrap();

    // One open position per market, both carried by the same balance:
    // cash 10_000 - 1_000 - 600, equity still marks both at entry.
    assert_eq!(portfolio.repository.open_positions.len(), 2);
    assert_eq!(portfolio.repository.balance.cash, 8_400);
    assert_eq!(portfolio.repository.balance.equity, 10_000);

    // A second entry in either market is still refused.
    let err = portfolio.update_from_fill(&btc_fill).unwrap_err();
    assert_eq!(err, PortfolioError::PositionAlreadyOpen);
}

#[test]
fn closed_positions_feed_per_market_statistics() {
    let mut portfolio = portfolio_with_cash(10_000);
    portfolio.update_from_fill(&fill(Decision::Long, 10, 100, 0)).unwrap();
    let events = portfolio.update_from_fill(&fill(Decision::CloseLong, -10, 120, 0)).unwrap();

    assert_eq!(portfolio.repository.statistics.len(), 1);
    let (market_id, summary) = &portfolio.repository.statistics[0];
    assert_eq!(market_id, "binance_eth_usd");
    assert_eq!(summary.dispersion.welford.count, 1);
    // Return of +20% in basis points.
    assert_eq!(summary.dispersion.welford.sum, 2_000);
    assert!(events.iter().any(|e| matches!(e, Event::Metric(_))));
    assert!(events.iter().any(|e| matches!(e, Event::PositionExit(_))));
    assert!(events.iter().any(|e| matches!(e, Event::Balance(_))));
}
