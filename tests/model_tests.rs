use order_matching_engine::amount::{Amount, MAX_SCALE};
use order_matching_engine::models::{order_type::OrderType, side::Side, trade_status::TradeStatus};

#[test]
fn sides_compare_by_value() {
    let all = [Side::Bid, Side::Ask, Side::Unset];
    for (i, a) in all.iter().enumerate() {
        for (j, b) in all.iter().enumerate() {
            assert_eq!(a == b, i == j);
            assert_eq!(a == b, b == a);
        }
    }
}

#[test]
fn order_types_compare_by_value() {
    let all = [OrderType::Limit, OrderType::Market, OrderType::Unset];
    for (i, a) in all.iter().enumerate() {
        for (j, b) in all.iter().enumerate() {
            assert_eq!(a == b, i == j);
            assert_eq!(a == b, b == a);
        }
    }
}

#[test]
fn trade_statuses_compare_by_value() {
    let all = [TradeStatus::Executed, TradeStatus::Cancelled, TradeStatus::Rejected, TradeStatus::Unset];
    for (i, a) in all.iter().enumerate() {
        for (j, b) in all.iter().enumerate() {
            assert_eq!(a == b, i == j);
            assert_eq!(a == b, b == a);
        }
    }
}

#[test]
fn amounts_compare_by_value() {
    assert!(Amount::new(50, 0).le(&Amount::new(1000, 1)));
    assert!(!Amount::new(1000, 1).le(&Amount::new(50, 0)));
    assert!(Amount::new(5, 1).le(&Amount::new(50, 2)));
    assert!(Amount::new(50, 2).le(&Amount::new(5, 1)));
    assert!(!Amount::new(5, 1).le(&Amount::new(25, 2)));
    assert!(Amount::new(-7, 0).le(&Amount::new(-69, 1)));
    assert!(!Amount::new(-69, 1).le(&Amount::new(-7, 0)));
    assert!(Amount::new(1, MAX_SCALE).le(&Amount::new(i64::MAX, 0)));
    assert!(!Amount::new(i64::MAX, 0).le(&Amount::new(i64::MIN, MAX_SCALE)));
}

#[test]
fn amount_parts_and_sign() {
    let a = Amount::new(-125, 2);
    assert_eq!(a.mantissa(), -125);
    assert_eq!(a.scale(), 2);
    assert!(a.is_negative());
    assert!(!a.is_positive());
    let z = Amount::new(0, 5);
    assert!(!z.is_negative());
    assert!(!z.is_positive());
    assert_ne!(Amount::new(1, 0), Amount::new(10, 1));
}
