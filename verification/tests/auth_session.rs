//! Session and authentication behaviour.

use kalshi::{HttpMethod, Kalshi, KalshiError, TradingEnvironment, build_base_url};

fn logged_in_demo() -> Kalshi {
    let mut k = Kalshi::new(TradingEnvironment::DemoMode);
    k.apply_login("m1".to_string(), "t1".to_string());
    k
}

#[test]
fn base_urls_per_environment() {
    assert_eq!(
        build_base_url(TradingEnvironment::LiveMarketMode),
        "https://trading-api.kalshi.com/trade-api/v2"
    );
    assert_eq!(
        build_base_url(TradingEnvironment::DemoMode),
        "https://demo-api.kalshi.co/trade-api/v2"
    );
}

#[test]
fn new_session_holds_no_token() {
    let k = Kalshi::new(TradingEnvironment::DemoMode);
    assert!(k.get_user_token().is_none());
}

#[test]
fn login_request_posts_credentials() {
    let k = Kalshi::new(TradingEnvironment::DemoMode);
    let (request, payload) = k.login_request("demo@example.com", "pw");
    assert!(matches!(request.method, HttpMethod::Post));
    assert_eq!(request.url, "https://demo-api.kalshi.co/trade-api/v2/login");
    assert!(request.bearer.is_none());
    assert_eq!(payload.email, "demo@example.com");
    assert_eq!(payload.password, "pw");
}

#[test]
fn login_stub_yields_bearer_token() {
    // A stub server answers the login request with this body.
    let stub = "{\"member_id\":\"m1\",\"token\":\"t1\"}";
    let body: serde_json::Value = serde_json::from_str(stub).unwrap();
    let member_id = body["member_id"].as_str().unwrap().to_string();
    let token = body["token"].as_str().unwrap().to_string();

    let mut k = Kalshi::new(TradingEnvironment::DemoMode);
    k.apply_login(member_id, token);
    assert_eq!(k.get_user_token(), Some("Bearer t1".to_string()));
}

#[test]
fn logout_before_login_is_user_input_error() {
    let k = Kalshi::new(TradingEnvironment::DemoMode);
    match k.logout_request() {
        Err(KalshiError::UserInputError(m)) => {
            assert_eq!(
                m,
                "Not logged in, a valid token is required for requests that require authentication"
            );
        }
        _ => panic!("expected a user input error"),
    }
}

#[test]
fn logout_clears_the_session() {
    let mut k = logged_in_demo();
    k.apply_logout();
    assert!(k.get_user_token().is_none());
    assert!(k.balance_request().is_err());
}

#[test]
fn logout_after_login_carries_bearer() {
    let k = logged_in_demo();
    let request = k.logout_request().unwrap();
    assert!(matches!(request.method, HttpMethod::Post));
    assert_eq!(request.url, "https://demo-api.kalshi.co/trade-api/v2/logout");
    assert_eq!(request.bearer, Some("Bearer t1".to_string()));
}
