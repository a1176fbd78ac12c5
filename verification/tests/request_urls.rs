//! Built URLs: path segments, and query parameters appended only when
//! supplied, in their rendered text form.

use kalshi::{HttpMethod, Kalshi, TradingEnvironment};
use kalshi::textfmt::{bool_to_dec_string, i32_to_dec_string, i64_to_dec_string, u64_to_dec_string};

const DEMO: &str = "https://demo-api.kalshi.co/trade-api/v2";

fn logged_in_demo() -> Kalshi {
    let mut k = Kalshi::new(TradingEnvironment::DemoMode);
    k.apply_login("m1".to_string(), "t1".to_string());
    k
}

#[test]
fn decimal_rendering_matches_standard_notation() {
    assert_eq!(u64_to_dec_string(0), "0");
    assert_eq!(u64_to_dec_string(7), "7");
    assert_eq!(u64_to_dec_string(120), "120");
    assert_eq!(u64_to_dec_string(u64::MAX), "18446744073709551615");
    assert_eq!(i64_to_dec_string(-5), "-5");
    assert_eq!(i64_to_dec_string(i64::MIN), "-9223372036854775808");
    assert_eq!(i64_to_dec_string(i64::MAX), "9223372036854775807");
    assert_eq!(i32_to_dec_string(-42), "-42");
    assert_eq!(bool_to_dec_string(true), "true");
    assert_eq!(bool_to_dec_string(false), "false");
}

#[test]
fn exchange_requests_hit_fixed_paths() {
    let k = Kalshi::new(TradingEnvironment::LiveMarketMode);
    assert_eq!(
        k.exchange_status_request().url,
        "https://trading-api.kalshi.com/trade-api/v2/exchange/status"
    );
    assert_eq!(
        k.exchange_schedule_request().url,
        "https://trading-api.kalshi.com/trade-api/v2/exchange/schedule"
    );
}

#[test]
fn path_segments_carry_the_ticker() {
    let k = Kalshi::new(TradingEnvironment::DemoMode);
    assert_eq!(
        k.single_market_request(&"HIGHNY-23NOV13-T51".to_string()).url,
        format!("{}/markets/HIGHNY-23NOV13-T51", DEMO)
    );
    assert_eq!(k.series_request(&"S-1".to_string()).url, format!("{}/series/S-1", DEMO));
}

#[test]
fn absent_parameters_are_omitted_entirely() {
    let k = logged_in_demo();
    let request = k.multiple_orders_request(None, None, None, None, None, None, None).unwrap();
    // With no parameters supplied, none is appended; only the bare query
    // separator remains.
    assert_eq!(request.url, format!("{}/portfolio/orders?", DEMO));
}

#[test]
fn supplied_parameters_are_appended_in_order() {
    let k = logged_in_demo();
    let request = k
        .multiple_orders_request(
            Some("T-1".to_string()),
            None,
            Some(100),
            None,
            None,
            Some(5),
            Some("cur".to_string()),
        )
        .unwrap();
    assert_eq!(
        request.url,
        format!("{}/portfolio/orders?ticker=T-1&limit=5&cursor=cur&min_ts=100", DEMO)
    );
    assert!(matches!(request.method, HttpMethod::Get));
    assert_eq!(request.bearer, Some("Bearer t1".to_string()));
}

#[test]
fn boolean_parameters_render_as_true_or_false() {
    let k = Kalshi::new(TradingEnvironment::DemoMode);
    let request = k.single_event_request(&"EV-1".to_string(), Some(true)).unwrap();
    assert_eq!(request.url, format!("{}/events/EV-1?with_nested_markets=true", DEMO));
    let bare = k.single_event_request(&"EV-1".to_string(), None).unwrap();
    assert_eq!(bare.url, format!("{}/events/EV-1?", DEMO));
}

#[test]
fn negative_timestamps_render_with_sign() {
    let k = logged_in_demo();
    let request = k
        .market_history_request(&"T-1".to_string(), Some(10), None, Some(-3), None)
        .unwrap();
    assert_eq!(request.url, format!("{}/markets/T-1/history?limit=10&min_ts=-3", DEMO));
}

#[test]
fn orderbook_depth_is_appended_when_supplied() {
    let k = logged_in_demo();
    let request = k.market_orderbook_request(&"T-1".to_string(), Some(10)).unwrap();
    assert_eq!(request.url, format!("{}/markets/T-1/orderbook?depth=10", DEMO));
}

#[test]
fn balance_and_fills_and_positions_paths() {
    let k = logged_in_demo();
    assert_eq!(k.balance_request().unwrap().url, format!("{}/portfolio/balance", DEMO));
    let fills = k
        .multiple_fills_request(None, Some("oid".to_string()), None, None, None, None)
        .unwrap();
    assert_eq!(fills.url, format!("{}/portfolio/fills?order_id=oid", DEMO));
    let settlements = k.portfolio_settlements_request(Some(20), None).unwrap();
    assert_eq!(settlements.url, format!("{}/portfolio/settlements?limit=20", DEMO));
    let positions = k
        .user_positions_request(None, None, Some("settled".to_string()), None, None)
        .unwrap();
    assert_eq!(positions.url, format!("{}/portfolio/positions?settlement_status=settled", DEMO));
}

#[test]
fn markets_events_trades_filters() {
    let k = logged_in_demo();
    let markets = k
        .multiple_markets_request(
            Some(10),
            None,
            Some("EV".to_string()),
            None,
            None,
            None,
            None,
            None,
        )
        .unwrap();
    assert_eq!(markets.url, format!("{}/markets?limit=10&event_ticker=EV", DEMO));
    let events = k
        .multiple_events_request(Some(2), None, Some("open".to_string()), None, Some(false))
        .unwrap();
    assert_eq!(
        events.url,
        format!("{}/events?limit=2&status=open&with_nested_markets=false", DEMO)
    );
    let trades = k
        .trades_request(None, Some(10), Some("T-9".to_string()), None, None)
        .unwrap();
    assert_eq!(trades.url, format!("{}/markets/trades?limit=10&ticker=T-9", DEMO));
    assert!(trades.bearer.is_none());
}

#[test]
fn query_values_are_percent_encoded() {
    let k = logged_in_demo();
    let request = k
        .multiple_orders_request(
            Some("a b&c".to_string()),
            None,
            None,
            None,
            None,
            None,
            None,
        )
        .unwrap();
    assert_eq!(request.url, format!("{}/portfolio/orders?ticker=a+b%26c", DEMO));
}
