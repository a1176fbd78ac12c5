//! Classification of transport failures, submission outcomes, and error
//! messages.

use kalshi::{
    Action, KalshiError, Order, OrderStatus, RequestError, Side, SubmitOutcome, TransportFailure,
    classify_transport_failure, create_order_outcome, http_status_is_success,
};

fn failure(is_decode: bool, is_status: bool, status: Option<u16>) -> TransportFailure {
    TransportFailure { is_decode, is_status, status, message: "boom".to_string() }
}

fn sample_order() -> Order {
    Order {
        order_id: "oid-1".to_string(),
        user_id: None,
        ticker: "TICK-1".to_string(),
        status: OrderStatus::Resting,
        yes_price: 5,
        no_price: 95,
        created_time: None,
        taker_fill_count: None,
        taker_fill_cost: None,
        place_count: None,
        decrease_count: None,
        maker_fill_count: None,
        fcc_cancel_count: None,
        close_cancel_count: None,
        remaining_count: Some(1),
        queue_position: None,
        expiration_time: None,
        taker_fees: None,
        action: Action::Buy,
        side: Side::Yes,
        order_type: "limit".to_string(),
        last_update_time: None,
        client_order_id: "cid-1".to_string(),
        order_group_id: "".to_string(),
    }
}

#[test]
fn decode_failures_are_serialization_errors() {
    match classify_transport_failure(failure(true, false, None)) {
        KalshiError::RequestError(RequestError::SerializationError(m)) => assert_eq!(m, "boom"),
        other => panic!("expected a serialization error, got {:?}", other),
    }
}

#[test]
fn status_4xx_is_a_client_error() {
    match classify_transport_failure(failure(false, true, Some(404))) {
        KalshiError::RequestError(RequestError::ClientError(c, m)) => {
            assert_eq!(c, 404);
            assert_eq!(m, "boom");
        }
        other => panic!("expected a client error, got {:?}", other),
    }
}

#[test]
fn status_5xx_is_a_server_error() {
    match classify_transport_failure(failure(false, true, Some(503))) {
        KalshiError::RequestError(RequestError::ServerError(c, _)) => assert_eq!(c, Some(503)),
        other => panic!("expected a server error, got {:?}", other),
    }
}

#[test]
fn status_outside_error_ranges_is_internal() {
    match classify_transport_failure(failure(false, true, Some(302))) {
        KalshiError::InternalError(m) => {
            assert_eq!(m, "Theoretically Impossible Error. Internal code 1");
        }
        other => panic!("expected an internal error, got {:?}", other),
    }
}

#[test]
fn connection_failure_is_a_server_error() {
    // A timeout, a broken body, or a refused connection: no status was
    // reported, and the failure stays a request error, never an internal
    // one.
    match classify_transport_failure(failure(false, false, None)) {
        KalshiError::RequestError(RequestError::ServerError(c, m)) => {
            assert_eq!(c, None);
            assert_eq!(m, "boom");
        }
        other => panic!("expected a server error, got {:?}", other),
    }
}

#[test]
fn success_statuses_are_the_2xx_range() {
    assert!(http_status_is_success(200));
    assert!(http_status_is_success(299));
    assert!(!http_status_is_success(199));
    assert!(!http_status_is_success(300));
    assert!(!http_status_is_success(404));
}

#[test]
fn accepted_submission_returns_the_order() {
    let order = create_order_outcome(SubmitOutcome::Accepted(sample_order())).unwrap();
    assert_eq!(order.order_id, "oid-1");
    assert_eq!(order.yes_price, 5);
}

#[test]
fn failed_submissions_are_classified_by_kind() {
    match create_order_outcome(SubmitOutcome::HttpError(404)) {
        Err(KalshiError::RequestError(RequestError::ClientError(c, m))) => {
            assert_eq!(c, 404);
            assert_eq!(m, "HTTP Error: 404");
        }
        other => panic!("expected a client error, got {:?}", other),
    }
    match create_order_outcome(SubmitOutcome::HttpError(503)) {
        Err(KalshiError::RequestError(RequestError::ServerError(c, m))) => {
            assert_eq!(c, Some(503));
            assert_eq!(m, "HTTP Error: 503");
        }
        other => panic!("expected a server error, got {:?}", other),
    }
    match create_order_outcome(SubmitOutcome::HttpError(302)) {
        Err(KalshiError::InternalError(m)) => {
            assert_eq!(m, "Theoretically Impossible Error. Internal code 1");
        }
        other => panic!("expected an internal error, got {:?}", other),
    }
    match create_order_outcome(SubmitOutcome::DecodeFailed("bad json".to_string())) {
        Err(KalshiError::RequestError(RequestError::SerializationError(m))) => {
            assert_eq!(m, "Failed to decode JSON response: bad json");
        }
        other => panic!("expected a serialization error, got {:?}", other),
    }
    match create_order_outcome(SubmitOutcome::SendFailed("no route".to_string())) {
        Err(KalshiError::RequestError(RequestError::ServerError(c, m))) => {
            assert_eq!(c, None);
            assert_eq!(m, "Failed to send request: no route");
        }
        other => panic!("expected a server error, got {:?}", other),
    }
}

#[test]
fn error_messages_read_as_documented() {
    let e = KalshiError::UserInputError("bad input".to_string());
    assert_eq!(e.message(), "User Input Error: bad input");
    let e = KalshiError::RequestError(RequestError::ClientError(404, "x".to_string()));
    assert_eq!(e.message(), "HTTP Error: Client Request Error, Status code: 404");
    let e = RequestError::ServerError(Some(500), "x".to_string());
    assert_eq!(e.message(), "Server Request Error: Status code: 500");
    let e = RequestError::ServerError(None, "conn reset".to_string());
    assert_eq!(e.message(), "Server Request Error: conn reset");
}

#[test]
fn enums_render_lowercase() {
    assert_eq!(Action::Buy.as_str(), "buy");
    assert_eq!(Action::Sell.as_str(), "sell");
    assert_eq!(OrderStatus::Resting.as_str(), "resting");
    assert_eq!(OrderStatus::Canceled.as_str(), "cancelled");
    assert_eq!(OrderStatus::Executed.as_str(), "executed");
    assert_eq!(OrderStatus::Pending.as_str(), "pending");
}
