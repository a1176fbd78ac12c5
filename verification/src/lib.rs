//! A typed client library for a prediction-market exchange's REST API.
//!
//! The library models the client session (base URL, bearer token, member id)
//! and everything the client computes locally: request URLs and query
//! parameters, order-placement validation, idempotency-key handling, error
//! classification, pagination-cursor normalization, and the positional
//! re-alignment of batch results.  The HTTP transport itself is left to the
//! caller, who feeds responses back in as plain values.

use vstd::prelude::*;

pub mod auth;
pub mod batch;
pub mod exchange;
pub mod kalshi_error;
pub mod market;
pub mod portfolio;
pub mod request;
pub mod textfmt;
pub mod utils;

pub use auth::LoginPayload;
pub use batch::align_by_index;
pub use exchange::{DaySchedule, ExchangeScheduleStandard, ExchangeStatus, StandardHours};
pub use kalshi_error::{KalshiError, RequestError, TransportFailure, classify_transport_failure};
pub use market::{
    Event, Market, MarketStatus, Orderbook, Series, SettlementResult, SettlementSource, Snapshot,
    Trade,
};
pub use portfolio::{
    Action, CreateOrderPayload, DecreaseOrderPayload, EventPosition, Fill, MarketPosition, Order,
    OrderCreationField, OrderStatus, OrderType, Settlement, Side, SubmitOutcome,
    create_order_outcome, empty_string_is_none, http_status_is_success, normalize_cursor,
    orders_page, page_with_cursor,
};
pub use request::{ApiRequest, HttpMethod};
pub use utils::build_base_url;

verus! {

/// Which deployment of the exchange a session talks to.
pub enum TradingEnvironment {
    /// Paper trading against the demo deployment; no real money moves.
    DemoMode,
    /// Real trading against the live deployment.
    LiveMarketMode,
}

/// A client session: the base URL chosen at construction, and the
/// bearer token and member id that a successful login stores.
#[derive(Debug, Clone)]
pub struct Kalshi {
    /// Base URL for the API, fixed by the trading environment.
    pub base_url: String,
    /// The current authentication token, absent until login.
    pub curr_token: Option<String>,
    /// The member id reported by login, absent until login.
    pub member_id: Option<String>,
}

impl Kalshi {
    /// A session is authenticated exactly when it holds a token.
    pub open spec fn spec_authenticated(&self) -> bool {
        self.curr_token is Some
    }

    /// The characters of the stored bearer token.
    pub open spec fn spec_token(&self) -> Seq<char>
        recommends
            self.spec_authenticated(),
    {
        self.curr_token->Some_0@
    }

    /// Creates a fresh, unauthenticated session for the given environment.
    pub fn new(trading_env: TradingEnvironment) -> (k: Kalshi)
        ensures
            k.base_url@ == utils::spec_base_url(trading_env),
            k.curr_token is None,
            k.member_id is None,
            !k.spec_authenticated(),
    {
        Kalshi {
            base_url: utils::base_url_string(trading_env),
            curr_token: None,
            member_id: None,
        }
    }

    /// Returns a copy of the stored token when the session is
    /// authenticated, and the local not-logged-in rejection otherwise.
    pub fn require_token(&self) -> (r: Result<String, KalshiError>)
        ensures
            r is Ok <==> self.spec_authenticated(),
            r matches Ok(t) ==> t@ == self.spec_token(),
            r matches Err(e) ==> kalshi_error::is_auth_error(&e),
    {
        match &self.curr_token {
            Some(t) => Ok(t.clone()),
            None => Err(kalshi_error::auth_error()),
        }
    }

    /// Returns a copy of the stored token, or `None` before login.
    pub fn get_user_token(&self) -> (r: Option<String>)
        ensures
            r is Some <==> self.curr_token is Some,
            r matches Some(t) ==> t@ == self.spec_token(),
    {
        match &self.curr_token {
            Some(val) => Some(val.clone()),
            _ => None,
        }
    }
}

} // verus!
