//! Event types, fees and the order & fill builders.

use barter::data::market::MarketMeta;
use barter::execution::error::ExecutionError;
use barter::execution::fill::{Fees, FillEvent};
use barter::portfolio::error::PortfolioError;
use barter::portfolio::order::{OrderEvent, OrderType};
use barter::strategy::signal::Decision;

#[test]
fn fees_total_is_the_exact_sum() {
    let fees = Fees { exchange: 7, slippage: 2, network: 5 };
    assert_eq!(fees.calculate_total_fees(), 14);

    let free = Fees::default();
    assert_eq!(free.calculate_total_fees(), 0);
}

#[test]
fn order_builder_requires_every_attribute() {
    let incomplete = OrderEvent::builder()
        .trace_id(9)
        .timestamp(0)
        .exchange("binance".to_string())
        .symbol("eth_usd".to_string())
        .build();
    assert_eq!(incomplete.unwrap_err(), PortfolioError::BuilderIncomplete);
}

#[test]
fn order_builder_builds_from_complete_attributes() {
    let order = OrderEvent::builder()
        .trace_id(9)
        .timestamp(17)
        .exchange("binance".to_string())
        .symbol("eth_usd".to_string())
        .close(1050)
        .decision(Decision::Long)
        .quantity(10)
        .order_type(OrderType::Market)
        .build()
        .unwrap();
    assert_eq!(order.trace_id, 9);
    assert_eq!(order.timestamp, 17);
    assert_eq!(order.exchange, "binance");
    assert_eq!(order.symbol, "eth_usd");
    assert_eq!(order.close, 1050);
    assert_eq!(order.decision, Decision::Long);
    assert_eq!(order.quantity, 10);
    assert_eq!(order.order_type, OrderType::Market);
}

#[test]
fn fill_builder_requires_every_attribute() {
    let incomplete = FillEvent::builder().trace_id(1).quantity(1).build();
    assert_eq!(incomplete.unwrap_err(), ExecutionError::BuilderIncomplete);
}

#[test]
fn fill_builder_builds_from_complete_attributes() {
    let fill = FillEvent::builder()
        .trace_id(3)
        .timestamp(21)
        .exchange("binance".to_string())
        .symbol("eth_usd".to_string())
        .market_meta(MarketMeta { close: 100, timestamp: 20 })
        .decision(Decision::Short)
        .quantity(-10)
        .fill_value_gross(1000)
        .fees(Fees::default())
        .build()
        .unwrap();
    assert_eq!(fill.trace_id, 3);
    assert_eq!(fill.quantity, -10);
    assert_eq!(fill.fill_value_gross, 1000);
    assert_eq!(fill.market_meta.close, 100);
}

#[test]
fn order_type_defaults_to_market() {
    assert_eq!(OrderType::default(), OrderType::Market);
}

#[test]
fn decision_defaults_to_long() {
    assert_eq!(Decision::default(), Decision::Long);
    assert!(Decision::Long.is_entry());
    assert!(Decision::Short.is_entry());
    assert!(Decision::CloseLong.is_exit());
    assert!(Decision::CloseShort.is_exit());
    assert!(Decision::Long.is_long());
    assert!(Decision::Short.is_short());
}
