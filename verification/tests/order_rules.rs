//! The order-submission and decrease rules, and the idempotency key.

use kalshi::{Action, HttpMethod, Kalshi, KalshiError, OrderType, Side, TradingEnvironment};

fn logged_in_demo() -> Kalshi {
    let mut k = Kalshi::new(TradingEnvironment::DemoMode);
    k.apply_login("m1".to_string(), "t1".to_string());
    k
}

fn expect_user_input(e: KalshiError) -> String {
    match e {
        KalshiError::UserInputError(m) => m,
        other => panic!("expected a user input error, got {:?}", other),
    }
}

#[test]
fn limit_order_with_one_price_succeeds() {
    let k = logged_in_demo();
    let yes = k.create_order_request(
        Action::Buy,
        None,
        1,
        Side::Yes,
        "TICK-1".to_string(),
        OrderType::Limit,
        None,
        None,
        None,
        None,
        Some(5),
    );
    assert!(yes.is_ok());
    let no = k.create_order_request(
        Action::Sell,
        None,
        2,
        Side::No,
        "TICK-1".to_string(),
        OrderType::Limit,
        None,
        None,
        Some(40),
        None,
        None,
    );
    assert!(no.is_ok());
}

#[test]
fn limit_order_with_both_prices_is_rejected() {
    let k = logged_in_demo();
    let r = k.create_order_request(
        Action::Buy,
        None,
        1,
        Side::Yes,
        "TICK-1".to_string(),
        OrderType::Limit,
        None,
        None,
        Some(40),
        None,
        Some(5),
    );
    let m = expect_user_input(r.err().unwrap());
    assert_eq!(m, "Can only provide no_price exclusive or yes_price, can't provide both");
}

#[test]
fn limit_order_with_neither_price_is_rejected() {
    let k = logged_in_demo();
    let r = k.create_order_request(
        Action::Buy,
        None,
        1,
        Side::Yes,
        "TICK-1".to_string(),
        OrderType::Limit,
        None,
        None,
        None,
        None,
        None,
    );
    let m = expect_user_input(r.err().unwrap());
    assert_eq!(m, "Must provide either no_price exclusive or yes_price, can't provide neither");
}

#[test]
fn market_order_needs_no_price() {
    let k = logged_in_demo();
    let r = k.create_order_request(
        Action::Buy,
        None,
        1,
        Side::Yes,
        "TICK-1".to_string(),
        OrderType::Market,
        None,
        None,
        None,
        None,
        None,
    );
    assert!(r.is_ok());
}

#[test]
fn create_order_body_carries_only_supplied_price() {
    let k = logged_in_demo();
    let (request, payload) = k
        .create_order_request(
            Action::Buy,
            None,
            1,
            Side::Yes,
            "TICK-1".to_string(),
            OrderType::Limit,
            None,
            None,
            None,
            None,
            Some(5),
        )
        .unwrap();
    assert!(matches!(request.method, HttpMethod::Post));
    assert_eq!(request.url, "https://demo-api.kalshi.co/trade-api/v2/portfolio/orders");
    assert_eq!(request.bearer, Some("Bearer t1".to_string()));
    assert_eq!(payload.yes_price, Some(5));
    assert_eq!(payload.no_price, None);
    assert_eq!(payload.count, 1);
    assert_eq!(payload.ticker, "TICK-1");
    assert!(matches!(payload.action, Action::Buy));
    assert!(matches!(payload.side, Side::Yes));
    assert!(matches!(payload.order_type, OrderType::Limit));
}

#[test]
fn generated_client_order_ids_are_fresh_and_distinct() {
    let k = logged_in_demo();
    let (_, first) = k
        .create_order_request(
            Action::Buy,
            None,
            1,
            Side::Yes,
            "TICK-1".to_string(),
            OrderType::Limit,
            None,
            None,
            None,
            None,
            Some(5),
        )
        .unwrap();
    let (_, second) = k
        .create_order_request(
            Action::Buy,
            None,
            1,
            Side::Yes,
            "TICK-1".to_string(),
            OrderType::Limit,
            None,
            None,
            None,
            None,
            Some(5),
        )
        .unwrap();
    assert_eq!(first.client_order_id.len(), 36);
    assert_eq!(second.client_order_id.len(), 36);
    let bytes = first.client_order_id.as_bytes();
    assert_eq!(bytes[8], b'-');
    assert_eq!(bytes[13], b'-');
    assert_eq!(bytes[18], b'-');
    assert_eq!(bytes[23], b'-');
    assert_ne!(first.client_order_id, second.client_order_id);
}

#[test]
fn supplied_client_order_id_is_kept() {
    let k = logged_in_demo();
    let (_, payload) = k
        .create_order_request(
            Action::Buy,
            Some("my-key".to_string()),
            1,
            Side::Yes,
            "TICK-1".to_string(),
            OrderType::Limit,
            None,
            None,
            None,
            None,
            Some(5),
        )
        .unwrap();
    assert_eq!(payload.client_order_id, "my-key");
}

#[test]
fn decrease_with_exactly_one_amount_succeeds() {
    let k = logged_in_demo();
    let by = k.decrease_order_request("oid-1", Some(5), None);
    assert!(by.is_ok());
    let (request, payload) = by.unwrap();
    assert!(matches!(request.method, HttpMethod::Post));
    assert_eq!(request.url, "https://demo-api.kalshi.co/trade-api/v2/portfolio/orders/oid-1");
    assert_eq!(payload.reduce_by, Some(5));
    assert_eq!(payload.reduce_to, None);
    let to = k.decrease_order_request("oid-1", None, Some(2));
    assert!(to.is_ok());
}

#[test]
fn decrease_with_both_amounts_is_rejected() {
    let k = logged_in_demo();
    let r = k.decrease_order_request("oid-1", Some(5), Some(2));
    let m = expect_user_input(r.err().unwrap());
    assert_eq!(m, "Can only provide reduce_by strict exclusive or reduce_to, can't provide both");
}

#[test]
fn decrease_with_neither_amount_is_rejected() {
    let k = logged_in_demo();
    let r = k.decrease_order_request("oid-1", None, None);
    let m = expect_user_input(r.err().unwrap());
    assert_eq!(m, "Must provide either reduce_by exclusive or reduce_to, can't provide neither");
}

#[test]
fn cancel_order_request_is_delete() {
    let k = logged_in_demo();
    let request = k.cancel_order_request("oid-9").unwrap();
    assert!(matches!(request.method, HttpMethod::Delete));
    assert_eq!(request.url, "https://demo-api.kalshi.co/trade-api/v2/portfolio/orders/oid-9");
    assert_eq!(request.bearer, Some("Bearer t1".to_string()));
}

#[test]
fn get_params_unbundles_in_call_order() {
    let field = kalshi::OrderCreationField {
        action: Action::Sell,
        client_order_id: Some("k1".to_string()),
        count: 3,
        side: Side::No,
        ticker: "T-2".to_string(),
        input_type: OrderType::Market,
        buy_max_cost: Some(7),
        expiration_ts: Some(99),
        no_price: None,
        sell_position_floor: Some(1),
        yes_price: None,
    };
    let (action, id, count, side, ticker, input_type, cost, ts, no_p, floor, yes_p) =
        field.get_params();
    assert!(matches!(action, Action::Sell));
    assert_eq!(id, Some("k1".to_string()));
    assert_eq!(count, 3);
    assert!(matches!(side, Side::No));
    assert_eq!(ticker, "T-2");
    assert!(matches!(input_type, OrderType::Market));
    assert_eq!(cost, Some(7));
    assert_eq!(ts, Some(99));
    assert_eq!(no_p, None);
    assert_eq!(floor, Some(1));
    assert_eq!(yes_p, None);
}
