use ares_trade::{OrderSide, OrderStatus, OrderType, TimeInForce};

#[test]
fn side_names_round_trip() {
    for v in [OrderSide::Buy, OrderSide::Sell] {
        assert_eq!(OrderSide::from_str(v.as_str()), Ok(v));
    }
    assert_eq!(OrderSide::Buy.as_str(), "BUY");
    assert_eq!(OrderSide::Sell.as_str(), "SELL");
}

#[test]
fn side_from_str_ignores_case() {
    assert_eq!(OrderSide::from_str("buy"), Ok(OrderSide::Buy));
    assert_eq!(OrderSide::from_str("SeLl"), Ok(OrderSide::Sell));
}

#[test]
fn side_from_str_uses_unicode_uppercase() {
    // U+017F LATIN SMALL LETTER LONG S upper-cases to 'S'.
    assert_eq!(OrderSide::from_str("\u{17f}ell"), Ok(OrderSide::Sell));
}

#[test]
fn side_from_str_rejects_unknown() {
    assert_eq!(
        OrderSide::from_str("hold"),
        Err("Invalid order_side_enum value: hold".to_string())
    );
    assert_eq!(
        OrderSide::from_str(" buy"),
        Err("Invalid order_side_enum value:  buy".to_string())
    );
}

#[test]
fn side_from_name_is_exact() {
    assert_eq!(OrderSide::from_name("BUY"), Some(OrderSide::Buy));
    assert_eq!(OrderSide::from_name("buy"), None);
}

#[test]
fn order_type_names_round_trip() {
    let all = [
        OrderType::Market,
        OrderType::Limit,
        OrderType::Stop,
        OrderType::StopLimit,
        OrderType::MarketOnClose,
        OrderType::LimitOnClose,
        OrderType::Pegged,
        OrderType::Iceberg,
        OrderType::Twap,
        OrderType::Vwap,
        OrderType::Other,
    ];
    for v in all {
        assert_eq!(OrderType::from_str(v.as_str()), Ok(v));
        assert_eq!(OrderType::from_str(&v.as_str().to_lowercase()), Ok(v));
    }
    assert_eq!(OrderType::StopLimit.as_str(), "STOP_LIMIT");
    assert_eq!(OrderType::MarketOnClose.as_str(), "MARKET_ON_CLOSE");
}

#[test]
fn order_type_rejects_spaced_name() {
    assert_eq!(
        OrderType::from_str("stop limit"),
        Err("Invalid order_type_enum value: stop limit".to_string())
    );
}

#[test]
fn time_in_force_names_round_trip() {
    for v in [TimeInForce::Day, TimeInForce::Gtc, TimeInForce::Ioc, TimeInForce::Fok] {
        assert_eq!(TimeInForce::from_str(v.as_str()), Ok(v));
    }
    assert_eq!(TimeInForce::from_str("gtc"), Ok(TimeInForce::Gtc));
    assert_eq!(
        TimeInForce::from_str("week"),
        Err("Invalid time_in_force_enum value: week".to_string())
    );
}

fn all_statuses() -> Vec<OrderStatus> {
    vec![
        OrderStatus::New,
        OrderStatus::PartialFill,
        OrderStatus::Fill,
        OrderStatus::DoneForDay,
        OrderStatus::Canceled,
        OrderStatus::Replaced,
        OrderStatus::PendingCancel,
        OrderStatus::Stopped,
        OrderStatus::Rejected,
        OrderStatus::Suspended,
        OrderStatus::PendingNew,
        OrderStatus::Calculated,
        OrderStatus::Expired,
        OrderStatus::Restated,
        OrderStatus::PendingReplace,
        OrderStatus::Trade,
        OrderStatus::TradeCorrect,
        OrderStatus::PendingValidation,
        OrderStatus::Accepted,
    ]
}

#[test]
fn status_names_round_trip() {
    for v in all_statuses() {
        assert_eq!(OrderStatus::from_str(v.as_str()), Ok(v));
        assert_eq!(OrderStatus::from_str(&v.as_str().to_lowercase()), Ok(v));
    }
}

#[test]
fn status_names_are_distinct() {
    let names: Vec<&str> = all_statuses().iter().map(|v| v.as_str()).collect();
    for i in 0..names.len() {
        for j in 0..names.len() {
            if i != j {
                assert_ne!(names[i], names[j]);
            }
        }
    }
}

#[test]
fn status_accepts_spaced_aliases() {
    assert_eq!(OrderStatus::from_str("partial fill"), Ok(OrderStatus::PartialFill));
    assert_eq!(OrderStatus::from_str("DONE FOR DAY"), Ok(OrderStatus::DoneForDay));
    assert_eq!(OrderStatus::from_str("Pending Cancel"), Ok(OrderStatus::PendingCancel));
    assert_eq!(OrderStatus::from_str("pending new"), Ok(OrderStatus::PendingNew));
    assert_eq!(OrderStatus::from_str("pending replace"), Ok(OrderStatus::PendingReplace));
    assert_eq!(OrderStatus::from_str("trade correct"), Ok(OrderStatus::TradeCorrect));
    assert_eq!(
        OrderStatus::from_str("pending validation"),
        Err("Invalid order_status_enum value: pending validation".to_string())
    );
}

#[test]
fn status_names_and_variant_names() {
    assert_eq!(OrderStatus::PartialFill.as_str(), "PARTIAL_FILL");
    assert_eq!(OrderStatus::PendingValidation.as_str(), "PENDING_VALIDATION");
    assert_eq!(OrderStatus::PendingValidation.variant_name(), "PendingValidation");
    for v in all_statuses() {
        assert_eq!(v.variant_name(), format!("{:?}", v));
    }
}

#[test]
fn ascii_case_does_not_change_the_reading() {
    for s in ["partial_fill", "Partial Fill", "pEnDiNg_VaLiDaTiOn", "nothing", "Trade Correct"] {
        assert_eq!(OrderStatus::from_str(s).ok(), OrderStatus::from_str(&s.to_ascii_uppercase()).ok());
        assert_eq!(OrderStatus::from_str(s).ok(), OrderStatus::from_str(&s.to_ascii_lowercase()).ok());
    }
}

#[test]
fn accepted_status_spellings() {
    for s in ["partial fill", "PARTIAL_FILL", "done for day", "accepted"] {
        let y = OrderStatus::from_str(s).unwrap();
        let u = s.to_uppercase();
        assert!(u == y.as_str() || u == y.as_str().replace('_', " "));
    }
}
