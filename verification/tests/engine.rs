use ares_trade::db::{DbError, NewOrderRequest, Order, OrderRow};
use ares_trade::engine::{
    check_confirmable, status_update_outcome, submission_status, validate_new_order_request,
    EngineError, OrderCache,
};
use ares_trade::engine::{begin_confirm, begin_get, begin_submit, ConfirmNext, GetNext, SubmitNext};
use ares_trade::{DecimalValue, OrderSide, OrderStatus, OrderType, TimeInForce};

fn dec(num: i64, scale: u32) -> DecimalValue {
    DecimalValue::new(num, scale)
}

fn request(order_type: OrderType, quantity: DecimalValue, price: Option<DecimalValue>) -> NewOrderRequest {
    NewOrderRequest {
        client_order_id: "ORD".to_string(),
        account_id: 1,
        instrument_id: 2,
        side: OrderSide::Sell,
        order_type,
        order_quantity: quantity,
        price,
        currency_code: "USD".to_string(),
        time_in_force: Some(TimeInForce::Day),
        execution_destination: None,
        text: None,
    }
}

fn validation_message(r: Result<(), EngineError>) -> String {
    match r {
        Err(EngineError::Validation(m)) => m,
        _ => panic!("expected a validation error"),
    }
}

#[test]
fn validation_rejects_non_positive_quantity() {
    let r = validate_new_order_request(&request(OrderType::Market, DecimalValue::zero(), None));
    assert_eq!(validation_message(r), "Order quantity must be positive.");
    let r = validate_new_order_request(&request(OrderType::Limit, dec(-1, 2), Some(dec(1, 0))));
    assert_eq!(validation_message(r), "Order quantity must be positive.");
}

#[test]
fn validation_of_limit_prices() {
    let r = validate_new_order_request(&request(OrderType::Limit, dec(100, 0), None));
    assert_eq!(validation_message(r), "Price must be set and positive for a Limit order.");
    let r = validate_new_order_request(&request(OrderType::Limit, dec(100, 0), Some(dec(0, 4))));
    assert_eq!(validation_message(r), "Price must be set and positive for a Limit order.");
    let r = validate_new_order_request(&request(OrderType::Limit, dec(100, 0), Some(dec(-150, 2))));
    assert_eq!(validation_message(r), "Price must be set and positive for a Limit order.");
    assert!(validate_new_order_request(&request(OrderType::Limit, dec(100, 0), Some(dec(15050, 2)))).is_ok());
}

#[test]
fn validation_ignores_price_of_other_types() {
    assert!(validate_new_order_request(&request(OrderType::Market, dec(1, 3), None)).is_ok());
    assert!(validate_new_order_request(&request(OrderType::Stop, dec(7, 0), Some(dec(-1, 0)))).is_ok());
}

#[test]
fn submitted_orders_await_validation() {
    let r = submission_status(&request(OrderType::Limit, dec(100, 0), Some(dec(15050, 2))));
    assert!(matches!(r, Ok(OrderStatus::PendingValidation)));
    let r = submission_status(&request(OrderType::Market, DecimalValue::zero(), None));
    assert!(matches!(r, Err(EngineError::Validation(_))));
}

#[test]
fn missing_order_becomes_nil_not_found() {
    let e = EngineError::from(DbError::NotFound);
    assert!(matches!(e, EngineError::OrderNotFound(0)));
    assert_eq!(e.message(), "Order not found: 00000000-0000-0000-0000-000000000000");
    let e = EngineError::from(DbError::Mapping("bad".to_string()));
    assert!(matches!(e, EngineError::Database(DbError::Mapping(ref m)) if m == "bad"));
    assert_eq!(e.message(), "Database Error: Mapping(\"bad\")");
}

#[test]
fn messages_of_engine_errors() {
    let id: u128 = 0x67e55044_10b1_426f_9247_bb680e5fe0c8;
    assert_eq!(
        EngineError::OrderNotFound(id).message(),
        "Order not found: 67e55044-10b1-426f-9247-bb680e5fe0c8"
    );
    assert_eq!(EngineError::Validation("x".to_string()).message(), "Validation Error: x");
    assert_eq!(EngineError::UpdateConflict("y".to_string()).message(), "Update Conflict: y");
    assert_eq!(EngineError::CacheError("z".to_string()).message(), "Cache Error: z");
}

fn stored_order(id: u128, status: &str) -> Order {
    Order::from_row(OrderRow {
        order_id: Ok(id),
        client_order_id: Ok("C".to_string()),
        original_client_order_id: None,
        exchange_order_id: None,
        account_id: Ok(1),
        instrument_id: Ok(2),
        side: Ok("BUY".to_string()),
        order_type: Ok("MARKET".to_string()),
        order_quantity: Ok(dec(10, 0)),
        leaves_quantity: Ok(dec(10, 0)),
        cum_quantity: Ok(DecimalValue::zero()),
        price: None,
        stop_price: None,
        currency_code: Ok("USD".to_string()),
        time_in_force: Ok("DAY".to_string()),
        transact_time: Ok(1),
        effective_time: None,
        expire_time: None,
        order_status: Ok(status.to_string()),
        execution_destination: None,
        handling_instructions: None,
        text: None,
        last_updated_by: None,
        created_at: Ok(1),
        updated_at: Ok(1),
    })
    .unwrap()
}

#[test]
fn confirm_of_a_missing_order() {
    assert!(matches!(check_confirmable(9, None, OrderStatus::New), Err(EngineError::OrderNotFound(9))));
}

#[test]
fn confirm_to_new_needs_pending_validation() {
    let id: u128 = 0x1;
    let o = stored_order(id, "PENDING_VALIDATION");
    let ok = check_confirmable(id, Some(o), OrderStatus::New).unwrap();
    assert_eq!(ok.order_status, OrderStatus::PendingValidation);

    let o = stored_order(id, "NEW");
    match check_confirmable(id, Some(o), OrderStatus::New) {
        Err(EngineError::UpdateConflict(m)) => assert_eq!(
            m,
            "Order 00000000-0000-0000-0000-000000000001 cannot be moved to New from status New. Expected PendingValidation."
        ),
        _ => panic!("expected a conflict"),
    }
}

#[test]
fn confirm_to_other_statuses_is_free() {
    let o = stored_order(3, "FILL");
    assert!(check_confirmable(3, Some(o), OrderStatus::Canceled).is_ok());
    let o = stored_order(3, "accepted");
    match check_confirmable(3, Some(o), OrderStatus::New) {
        Err(EngineError::UpdateConflict(m)) => assert!(m.contains("from status Accepted.")),
        _ => panic!("expected a conflict"),
    }
}

#[test]
fn status_update_outcomes() {
    assert!(matches!(status_update_outcome(4, Ok(0)), Err(EngineError::OrderNotFound(4))));
    assert!(status_update_outcome(4, Ok(1)).is_ok());
    assert!(matches!(status_update_outcome(4, Err(DbError::NotFound)), Err(EngineError::OrderNotFound(0))));
}

fn cached_status(cache: &OrderCache, id: u128) -> Option<OrderStatus> {
    match begin_get(cache, id) {
        GetNext::Done(Ok(Some(o))) => Some(o.order_status),
        GetNext::FetchOrder(w) => {
            assert_eq!(w.order_id(), id);
            None
        }
        _ => panic!("a cache read ends with the cached order or asks for a fetch"),
    }
}

#[test]
fn cache_read_after_record() {
    let mut cache = OrderCache::new();
    assert_eq!(cached_status(&cache, 5), None);
    let r = cache.record_fetched(5, Ok(Some(stored_order(5, "NEW"))));
    assert_eq!(r.unwrap().unwrap().order_id, 5);
    assert_eq!(cached_status(&cache, 5), Some(OrderStatus::New));
    assert_eq!(cached_status(&cache, 6), None);

    let r = cache.record_stored(5, Ok(Some(stored_order(5, "FILL"))));
    assert_eq!(r.unwrap().order_status, OrderStatus::Fill);
    assert_eq!(cached_status(&cache, 5), Some(OrderStatus::Fill));
}

#[test]
fn cache_keeps_state_on_missing_or_failed_reads() {
    let mut cache = OrderCache::new();
    assert!(matches!(cache.record_fetched(7, Ok(None)), Ok(None)));
    assert_eq!(cached_status(&cache, 7), None);
    assert!(matches!(cache.record_stored(7, Ok(None)), Err(EngineError::OrderNotFound(7))));
    assert!(matches!(
        cache.record_stored(7, Err(DbError::Mapping("m".to_string()))),
        Err(EngineError::Database(DbError::Mapping(_)))
    ));
    assert!(matches!(cache.record_fetched(7, Err(DbError::NotFound)), Err(EngineError::OrderNotFound(0))));
    assert_eq!(cached_status(&cache, 7), None);
}

#[test]
fn confirm_then_reconfirm_through_the_cache() {
    let mut cache = OrderCache::new();
    let submitted = cache.record_stored(8, Ok(Some(stored_order(8, "PENDING_VALIDATION")))).unwrap();
    assert_eq!(submitted.order_status, OrderStatus::PendingValidation);
    match begin_confirm(&cache, 8, OrderStatus::New) {
        ConfirmNext::UpdateStatus(w) => {
            assert_eq!(w.order_id(), 8);
            assert_eq!(w.new_status(), OrderStatus::New);
        }
        _ => panic!("expected the update to be issued"),
    }
    let confirmed = cache.record_stored(8, Ok(Some(stored_order(8, "NEW")))).unwrap();
    assert_eq!(confirmed.order_status, OrderStatus::New);
    assert!(matches!(
        begin_confirm(&cache, 8, OrderStatus::New),
        ConfirmNext::Done(Err(EngineError::UpdateConflict(_)))
    ));
}

#[test]
fn rejected_submission_inserts_nothing() {
    match begin_submit(&request(OrderType::Market, DecimalValue::zero(), None)) {
        SubmitNext::Done(Err(EngineError::Validation(m))) => assert_eq!(m, "Order quantity must be positive."),
        _ => panic!("expected a validation error"),
    }
}

#[test]
fn accepted_submission_inserts_then_reads_back() {
    let mut cache = OrderCache::new();
    let waiting = match begin_submit(&request(OrderType::Limit, dec(100, 0), Some(dec(15050, 2)))) {
        SubmitNext::InsertOrder(w) => w,
        _ => panic!("expected an insert"),
    };
    assert_eq!(waiting.initial_status(), OrderStatus::PendingValidation);
    let waiting = match waiting.order_inserted(Ok(42)) {
        SubmitNext::ReadBack(w) => w,
        _ => panic!("expected a read-back"),
    };
    assert_eq!(waiting.order_id(), 42);
    let order = waiting.order_read_back(&mut cache, Ok(Some(stored_order(42, "PENDING_VALIDATION")))).unwrap();
    assert_eq!(order.order_status, OrderStatus::PendingValidation);
    assert_eq!(cached_status(&cache, 42), Some(OrderStatus::PendingValidation));
}

#[test]
fn failed_insert_ends_the_submission() {
    let waiting = match begin_submit(&request(OrderType::Market, dec(1, 0), None)) {
        SubmitNext::InsertOrder(w) => w,
        _ => panic!("expected an insert"),
    };
    assert!(matches!(
        waiting.order_inserted(Err(DbError::NotFound)),
        SubmitNext::Done(Err(EngineError::OrderNotFound(0)))
    ));
}

#[test]
fn confirm_of_an_uncached_order_fetches_it_first() {
    let mut cache = OrderCache::new();
    let waiting = match begin_confirm(&cache, 12, OrderStatus::New) {
        ConfirmNext::FetchOrder(w) => w,
        _ => panic!("expected a fetch"),
    };
    assert_eq!(waiting.order_id(), 12);
    let waiting = match waiting.order_fetched(&mut cache, Ok(Some(stored_order(12, "PENDING_VALIDATION")))) {
        ConfirmNext::UpdateStatus(w) => w,
        _ => panic!("expected the update"),
    };
    assert_eq!(cached_status(&cache, 12), Some(OrderStatus::PendingValidation));
    let waiting = match waiting.status_updated(Ok(1)) {
        ConfirmNext::RereadOrder(w) => w,
        _ => panic!("expected a re-read"),
    };
    let order = waiting.order_reread(&mut cache, Ok(Some(stored_order(12, "NEW")))).unwrap();
    assert_eq!(order.order_status, OrderStatus::New);
    assert_eq!(cached_status(&cache, 12), Some(OrderStatus::New));
}

#[test]
fn refused_confirm_issues_no_update() {
    let mut cache = OrderCache::new();
    let waiting = match begin_confirm(&cache, 13, OrderStatus::New) {
        ConfirmNext::FetchOrder(w) => w,
        _ => panic!("expected a fetch"),
    };
    assert!(matches!(
        waiting.order_fetched(&mut cache, Ok(Some(stored_order(13, "FILL")))),
        ConfirmNext::Done(Err(EngineError::UpdateConflict(_)))
    ));
    let waiting = match begin_confirm(&OrderCache::new(), 14, OrderStatus::Canceled) {
        ConfirmNext::FetchOrder(w) => w,
        _ => panic!("expected a fetch"),
    };
    assert!(matches!(
        waiting.order_fetched(&mut cache, Ok(None)),
        ConfirmNext::Done(Err(EngineError::OrderNotFound(14)))
    ));
}

#[test]
fn update_touching_no_row_ends_the_confirm() {
    let mut cache = OrderCache::new();
    cache.record_stored(15, Ok(Some(stored_order(15, "PENDING_VALIDATION")))).unwrap();
    let waiting = match begin_confirm(&cache, 15, OrderStatus::Accepted) {
        ConfirmNext::UpdateStatus(w) => w,
        _ => panic!("expected the update"),
    };
    assert!(matches!(waiting.status_updated(Ok(0)), ConfirmNext::Done(Err(EngineError::OrderNotFound(15)))));
}

#[test]
fn database_error_messages() {
    assert_eq!(EngineError::Database(DbError::NotFound).message(), "Database Error: NotFound");
    assert_eq!(
        EngineError::Database(DbError::UpdateFailed("no \"row\"".to_string())).message(),
        "Database Error: UpdateFailed(\"no \\\"row\\\"\")"
    );
    assert_eq!(DbError::Mapping("x".to_string()).debug_text(), format!("{:?}", DbError::Mapping("x".to_string())));
}
