//! RSI threshold rules and signal map handling.

use barter::data::market::{Bar, MarketEvent};
use barter::strategy::signal::{signals_get, Decision, STRENGTH_SCALE};
use barter::strategy::strategy::{build_signal_event, generate_signals_map};

fn bar(close: i64) -> Bar {
    Bar { open: close, high: close, low: close, close, volume: 1, timestamp: 0 }
}

fn market_event(close: i64) -> MarketEvent {
    MarketEvent {
        trace_id: 1,
        timestamp: 0,
        exchange: "binance".to_string(),
        symbol: "eth_usd".to_string(),
        bar: bar(close),
    }
}

#[test]
fn should_generate_signals_map_containing_long_and_close_short_decision() {
    // RSI of 20 points, in centi-points.
    let input_rsi = 2000;

    let actual_signals = generate_signals_map(input_rsi);

    assert!(
        signals_get(&actual_signals, Decision::Long).is_some()
            && signals_get(&actual_signals, Decision::CloseShort).is_some()
    );
}

#[test]
fn oversold_rsi_advises_long_and_close_short() {
    let signals = generate_signals_map(3999);
    assert_eq!(
        signals,
        vec![(Decision::Long, STRENGTH_SCALE), (Decision::CloseShort, STRENGTH_SCALE)]
    );
}

#[test]
fn overbought_rsi_advises_close_long_and_short() {
    let signals = generate_signals_map(6001);
    assert_eq!(
        signals,
        vec![(Decision::CloseLong, STRENGTH_SCALE), (Decision::Short, STRENGTH_SCALE)]
    );
}

#[test]
fn rsi_between_bands_advises_nothing() {
    assert!(generate_signals_map(4000).is_empty());
    assert!(generate_signals_map(5000).is_empty());
    assert!(generate_signals_map(6000).is_empty());
}

#[test]
fn empty_signal_map_builds_no_event() {
    let market = market_event(5_000);
    assert!(build_signal_event(&market, Vec::new()).is_none());
}

#[test]
fn advice_builds_a_signal_event_for_the_market() {
    let market = market_event(5_000);
    let signals = generate_signals_map(1000);
    let event = build_signal_event(&market, signals).unwrap();
    assert_eq!(event.exchange, "binance");
    assert_eq!(event.symbol, "eth_usd");
    assert_eq!(event.market_meta.close, 5_000);
    assert_eq!(
        event.signals,
        vec![(Decision::Long, STRENGTH_SCALE), (Decision::CloseShort, STRENGTH_SCALE)]
    );
}
