use order_matching_engine::amount::Amount;
use order_matching_engine::fill::SimpleFill;
use order_matching_engine::ident::{fresh_id, V4_BITS, V4_MASK};
use order_matching_engine::models::{order_type::OrderType, side::Side, trade_status::TradeStatus};
use order_matching_engine::timestamp::Timestamp;
use order_matching_engine::trade::{check_trade, Trade};
use order_matching_engine::validation::ValidationError;

fn now() -> Timestamp {
    let t = chrono::Utc::now();
    Timestamp { secs: t.timestamp(), nanos: t.timestamp_subsec_nanos() }
}

#[test]
fn test_trade_creation_executed_bid_market() {
    let exchange = String::from("Binance");
    let trade_volume = Amount::new(50, 0);
    let avg_price = Amount::new(10, 0);
    let commission = Amount::new(1, 0);
    let transact_time = now();
    let symbol = String::from("AAPL");

    let trade = SimpleFill::new(
        exchange.clone(),
        trade_volume,
        avg_price,
        commission,
        transact_time,
        symbol.clone(),
    );

    assert_eq!(trade.exchange, exchange);
    assert_eq!(trade.trade_volume, trade_volume);
    assert_eq!(trade.avg_price, avg_price);
    assert_eq!(trade.commision, commission);
    assert_eq!(trade.symbol, symbol);
}

#[test]
fn executed_ask_market_trade_keeps_fields() {
    let x = uuid::Uuid::new_v4().as_u128();
    let y = uuid::Uuid::new_v4().as_u128();
    let t = Timestamp { secs: 1_600_000_000, nanos: 250 };
    let trade = Trade::new(
        x,
        y,
        OrderType::Market,
        Amount::new(100, 0),
        Amount::new(50, 0),
        Amount::new(10, 0),
        Amount::new(1, 0),
        t,
        "AAPL".to_string(),
        Side::Ask,
        TradeStatus::Executed,
    );
    assert_eq!(trade.order_id, x);
    assert_eq!(trade.client_id, y);
    assert_eq!(trade.order_type, OrderType::Market);
    assert_eq!(trade.order_volume, Amount::new(100, 0));
    assert_eq!(trade.filled_volume, Amount::new(50, 0));
    assert!(trade.filled_volume.le(&trade.order_volume));
    assert_eq!(trade.avg_price, Amount::new(10, 0));
    assert_eq!(trade.commision, Amount::new(1, 0));
    assert_eq!(trade.transact_time, t);
    assert_eq!(trade.symbol, "AAPL");
    assert_eq!(trade.side, Side::Ask);
    assert_eq!(trade.status, TradeStatus::Executed);
    assert_ne!(trade.trade_id, x);
    assert_ne!(trade.trade_id, y);
    assert_eq!(trade.trade_id & V4_MASK, V4_BITS);
}

fn sample(status: TradeStatus) -> Trade {
    Trade::new(
        7,
        8,
        OrderType::Limit,
        Amount::new(100, 0),
        Amount::new(25, 0),
        Amount::new(1234, 2),
        Amount::new(5, 1),
        Timestamp { secs: 0, nanos: 0 },
        "MSFT".to_string(),
        Side::Bid,
        status,
    )
}

#[test]
fn trades_of_same_fields_agree_but_for_trade_id() {
    let a = sample(TradeStatus::Cancelled);
    let b = sample(TradeStatus::Cancelled);
    assert_eq!(a.order_id, b.order_id);
    assert_eq!(a.client_id, b.client_id);
    assert_eq!(a.order_type, b.order_type);
    assert_eq!(a.order_volume, b.order_volume);
    assert_eq!(a.filled_volume, b.filled_volume);
    assert_eq!(a.avg_price, b.avg_price);
    assert_eq!(a.commision, b.commision);
    assert_eq!(a.transact_time, b.transact_time);
    assert_eq!(a.symbol, b.symbol);
    assert_eq!(a.side, b.side);
    assert_eq!(a.status, b.status);
    assert_ne!(a.trade_id, b.trade_id);
}

#[test]
fn with_id_keeps_given_id() {
    let t = Trade::with_id(
        99,
        1,
        2,
        OrderType::Market,
        Amount::new(1, 0),
        Amount::new(1, 0),
        Amount::new(1, 0),
        Amount::new(0, 0),
        Timestamp { secs: 3, nanos: 4 },
        "Z".to_string(),
        Side::Ask,
        TradeStatus::Rejected,
    );
    assert_eq!(t.trade_id, 99);
    assert_eq!(t.order_id, 1);
    assert_eq!(t.client_id, 2);
    assert_eq!(t.status, TradeStatus::Rejected);
}

#[test]
fn fresh_ids_are_random_and_distinct() {
    let a = fresh_id();
    let b = fresh_id();
    assert_ne!(a, 0);
    assert_ne!(a, b);
    assert_eq!(a & V4_MASK, V4_BITS);
    assert_eq!(uuid::Uuid::from_u128(a).get_version_num(), 4);
}

#[test]
fn trade_errors() {
    let ov = Amount::new(100, 0);
    let s = "S".to_string();
    let m = OrderType::Market;
    assert_eq!(check_trade(OrderType::Unset, &ov, &ov, &s, Side::Bid), Some(ValidationError::UnsetSentinelOrderType));
    assert_eq!(check_trade(m, &ov, &ov, &s, Side::Unset), Some(ValidationError::UnsetSentinelSide));
    assert_eq!(check_trade(m, &ov, &ov, &String::new(), Side::Bid), Some(ValidationError::EmptySymbol));
    assert_eq!(check_trade(m, &Amount::new(0, 0), &Amount::new(0, 0), &s, Side::Bid), Some(ValidationError::NonPositiveVolume));
    assert_eq!(check_trade(m, &ov, &Amount::new(-1, 3), &s, Side::Bid), Some(ValidationError::NonPositiveVolume));
    assert_eq!(check_trade(m, &ov, &Amount::new(10001, 2), &s, Side::Bid), Some(ValidationError::OverfillVolume));
    assert_eq!(check_trade(m, &ov, &Amount::new(10000, 2), &s, Side::Bid), None);
    assert_eq!(check_trade(m, &ov, &Amount::new(0, 0), &s, Side::Bid), None);
    let r = Trade::try_new(1, 2, m, ov, Amount::new(101, 0), ov, ov, Timestamp { secs: 0, nanos: 0 }, s.clone(), Side::Ask, TradeStatus::Executed);
    assert_eq!(r.unwrap_err(), ValidationError::OverfillVolume);
    let r = Trade::try_new(1, 2, m, ov, Amount::new(50, 0), ov, ov, Timestamp { secs: 0, nanos: 0 }, s, Side::Ask, TradeStatus::Executed);
    assert_eq!(r.unwrap().filled_volume, Amount::new(50, 0));
}
