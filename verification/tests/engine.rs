//! Engine orchestration: builder, command routing and graceful shutdown.

use barter::data::handler::{Config as DataConfig, HistoricDataHandler};
use barter::data::market::{Bar, MarketEvent};
use barter::engine::error::EngineError;
use barter::engine::trader::Trader;
use barter::engine::{Command, Engine, EngineFlow, EngineLego, EngineState};
use barter::event::{Event, MessageTransmitter};
use barter::execution::fill::Fees;
use barter::execution::SimulatedExecution;
use barter::portfolio::allocator::DefaultAllocator;
use barter::portfolio::portfolio::{Components, MetaPortfolio};
use barter::portfolio::risk::DefaultRisk;
use barter::portfolio::shared::SharedPortfolio;
use barter::strategy::error::StrategyError;
use barter::strategy::signal::SignalEvent;
use barter::strategy::SignalGenerator;
use barter::Market;

struct SilentStrategy;

impl SignalGenerator for SilentStrategy {
    fn generate_signal(
        &mut self,
        _market: &MarketEvent,
    ) -> Result<Option<SignalEvent>, StrategyError> {
        Ok(None)
    }
}

struct NullSink;

impl MessageTransmitter for NullSink {
    fn send(&mut self, _message: Event) {}

    fn send_many(&mut self, _messages: Vec<Event>) {}
}

fn market(symbol: &str) -> Market {
    Market::new("binance".to_string(), symbol.to_string())
}

fn shared_portfolio() -> SharedPortfolio {
    SharedPortfolio::new(portfolio())
}

fn portfolio() -> MetaPortfolio {
    MetaPortfolio::new(
        "engine".to_string(),
        Components {
            allocator: DefaultAllocator { default_order_value: 1000 },
            risk: DefaultRisk {},
            starting_cash: 10_000,
        },
        0,
    )
}

#[test]
fn engine_builder_requires_every_attribute() {
    let incomplete = Engine::builder().engine_id("engine".to_string()).build();
    match incomplete {
        Err(e) => assert_eq!(e, EngineError::BuilderIncomplete),
        Ok(_) => panic!("an incomplete builder must not build"),
    }
}

#[test]
fn engine_builder_builds_a_running_engine() {
    let (_command_tx, command_rx) = tokio::sync::mpsc::channel(8);
    let engine = Engine::builder()
        .engine_id("engine".to_string())
        .command_rx(command_rx)
        .trader_command_txs(Vec::new())
        .build()
        .unwrap();
    assert_eq!(engine.engine_id, "engine");
    assert_eq!(engine.state, EngineState::Running);
}

#[test]
fn fetch_open_positions_replies_without_touching_the_portfolio() {
    let (_command_tx, command_rx) = tokio::sync::mpsc::channel(8);
    let mut engine = Engine::new(EngineLego {
        engine_id: "engine".to_string(),
        command_rx,
        trader_command_txs: Vec::new(),
    });
    let portfolio = shared_portfolio();

    let (reply_tx, mut reply_rx) = tokio::sync::oneshot::channel();
    let flow = engine.handle_command(Command::FetchOpenPositions(reply_tx), &portfolio);
    assert!(matches!(flow, EngineFlow::Continue));
    assert_eq!(engine.state, EngineState::Running);

    let reply = reply_rx.try_recv().unwrap().unwrap();
    assert_eq!(reply.len(), 0);
    assert_eq!(portfolio.balance().cash, 10_000);
}

#[test]
fn exit_position_routes_to_the_addressed_trader() {
    let (eth_tx, mut eth_rx) = tokio::sync::mpsc::channel(8);
    let (btc_tx, mut btc_rx) = tokio::sync::mpsc::channel(8);
    let (_command_tx, command_rx) = tokio::sync::mpsc::channel(8);
    let mut engine = Engine::new(EngineLego {
        engine_id: "engine".to_string(),
        command_rx,
        trader_command_txs: vec![(market("eth_usd"), eth_tx), (market("btc_usd"), btc_tx)],
    });
    let pf = shared_portfolio();

    let flow = engine.handle_command(Command::ExitPosition(market("btc_usd")), &pf);
    assert!(matches!(flow, EngineFlow::Continue));
    assert!(eth_rx.try_recv().is_err());
    assert!(matches!(btc_rx.try_recv().unwrap(), Command::ExitPosition(_)));

    // A market no trader serves is ignored.
    engine.handle_command(Command::ExitPosition(market("sol_usd")), &pf);
    assert!(eth_rx.try_recv().is_err());
    assert!(btc_rx.try_recv().is_err());
}

#[test]
fn graceful_shutdown_drains_then_terminates() {
    let (eth_tx, mut eth_rx) = tokio::sync::mpsc::channel(8);
    let (btc_tx, mut btc_rx) = tokio::sync::mpsc::channel(8);
    let (_command_tx, command_rx) = tokio::sync::mpsc::channel(8);
    let mut engine = Engine::new(EngineLego {
        engine_id: "engine".to_string(),
        command_rx,
        trader_command_txs: vec![(market("eth_usd"), eth_tx), (market("btc_usd"), btc_tx)],
    });
    let pf = shared_portfolio();

    // Terminate broadcasts an exit to every trader and asks the caller to
    // wait the grace period.
    let flow = engine.handle_command(Command::Terminate("bye".to_string()), &pf);
    match flow {
        EngineFlow::Drain(message) => assert_eq!(message, "bye"),
        EngineFlow::Continue => panic!("terminate must drain"),
    }
    assert_eq!(engine.state, EngineState::Draining);
    assert!(matches!(eth_rx.try_recv().unwrap(), Command::ExitPosition(_)));
    assert!(matches!(btc_rx.try_recv().unwrap(), Command::ExitPosition(_)));

    // After the grace period every trader is terminated and the engine
    // stops.
    engine.terminate_traders("bye".to_string());
    assert_eq!(engine.state, EngineState::Stopped);
    match eth_rx.try_recv().unwrap() {
        Command::Terminate(message) => assert_eq!(message, "bye"),
        _ => panic!("expected terminate"),
    }
    match btc_rx.try_recv().unwrap() {
        Command::Terminate(message) => assert_eq!(message, "bye"),
        _ => panic!("expected terminate"),
    }
}

#[test]
fn terminate_with_no_traders_stops_cleanly() {
    let (_command_tx, command_rx) = tokio::sync::mpsc::channel(8);
    let mut engine = Engine::new(EngineLego {
        engine_id: "engine".to_string(),
        command_rx,
        trader_command_txs: Vec::new(),
    });
    let pf = shared_portfolio();

    let flow = engine.handle_command(Command::Terminate("done".to_string()), &pf);
    assert!(matches!(flow, EngineFlow::Drain(_)));
    engine.terminate_traders("done".to_string());
    assert_eq!(engine.state, EngineState::Stopped);
}

#[test]
fn trader_exits_on_terminate_without_consuming_the_feed() {
    let bars = vec![
        Bar { open: 50, high: 50, low: 50, close: 50, volume: 1, timestamp: 0 },
        Bar { open: 51, high: 51, low: 51, close: 51, volume: 1, timestamp: 0 },
    ];
    let data = HistoricDataHandler::new(DataConfig {
        exchange: "binance".to_string(),
        symbol: "eth_usd".to_string(),
        bars,
    })
    .unwrap();

    let (command_tx, command_rx) = tokio::sync::mpsc::channel(8);
    command_tx.try_send(Command::Terminate("stop".to_string())).unwrap();

    let mut trader = Trader::new(
        "engine".to_string(),
        market("eth_usd"),
        command_rx,
        NullSink,
        data,
        SilentStrategy,
        SimulatedExecution::new(Fees::default()),
    );
    let pf = shared_portfolio();
    trader.run(&pf);

    // The queued terminate was honoured before any bar was replayed.
    assert_eq!(trader.data.next_index, 0);
    assert_eq!(pf.balance().cash, 10_000);
}
