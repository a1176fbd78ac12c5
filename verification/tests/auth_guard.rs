//! Every authenticated-only operation, called before login, returns the
//! not-logged-in user error without any request being built.

use kalshi::{Action, Kalshi, KalshiError, OrderType, Side, TradingEnvironment};

const GUARD: &str =
    "Not logged in, a valid token is required for requests that require authentication";

fn assert_guarded(e: KalshiError) {
    match e {
        KalshiError::UserInputError(m) => assert_eq!(m, GUARD),
        other => panic!("expected the not-logged-in error, got {:?}", other),
    }
}

#[test]
fn portfolio_operations_need_a_token() {
    let k = Kalshi::new(TradingEnvironment::DemoMode);
    assert_guarded(k.balance_request().err().unwrap());
    assert_guarded(
        k.multiple_orders_request(None, None, None, None, None, None, None).err().unwrap(),
    );
    assert_guarded(k.single_order_request(&"o1".to_string()).err().unwrap());
    assert_guarded(k.cancel_order_request("o1").err().unwrap());
    assert_guarded(k.decrease_order_request("o1", Some(1), None).err().unwrap());
    assert_guarded(
        k.create_order_request(
            Action::Buy,
            None,
            1,
            Side::Yes,
            "T".to_string(),
            OrderType::Limit,
            None,
            None,
            None,
            None,
            Some(5),
        )
        .err()
        .unwrap(),
    );
    assert_guarded(
        k.multiple_fills_request(None, None, None, None, None, None).err().unwrap(),
    );
    assert_guarded(k.portfolio_settlements_request(None, None).err().unwrap());
    assert_guarded(k.user_positions_request(None, None, None, None, None).err().unwrap());
}

#[test]
fn authenticated_market_reads_need_a_token() {
    let k = Kalshi::new(TradingEnvironment::DemoMode);
    assert_guarded(
        k.multiple_markets_request(None, None, None, None, None, None, None, None)
            .err()
            .unwrap(),
    );
    assert_guarded(k.market_orderbook_request(&"T".to_string(), Some(1)).err().unwrap());
    assert_guarded(
        k.market_history_request(&"T".to_string(), None, None, None, None).err().unwrap(),
    );
    assert_guarded(k.logout_request().err().unwrap());
}

#[test]
fn public_reads_need_no_token() {
    let k = Kalshi::new(TradingEnvironment::DemoMode);
    assert!(k.exchange_status_request().bearer.is_none());
    assert!(k.exchange_schedule_request().bearer.is_none());
    assert!(k.single_market_request(&"T".to_string()).bearer.is_none());
    assert!(k.series_request(&"S".to_string()).bearer.is_none());
    assert!(k.single_event_request(&"E".to_string(), None).unwrap().bearer.is_none());
    assert!(k.multiple_events_request(None, None, None, None, None).unwrap().bearer.is_none());
    assert!(k.trades_request(None, None, None, None, None).unwrap().bearer.is_none());
}
