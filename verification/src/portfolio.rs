//! Portfolio operations: balance, orders, fills, settlements and positions.
//!
//! The order-submission rules live here: the mutual exclusivity of the two
//! limit prices, the mutual exclusivity of the two decrease amounts, the
//! generation of a client order id when the caller supplies none, and the
//! classification of a submission outcome.  Every operation that needs a
//! token is rejected locally, before any network call, when the session
//! holds none.

use vstd::prelude::*;
use vstd::string::StringExecFns;
use crate::Kalshi;
use crate::kalshi_error::{
    KalshiError, RequestError, impossible_status_text, is_auth_error, is_client_error_status,
    is_server_error_status,
};
use crate::request::{
    ApiRequest, HttpMethod, add_i32_param, add_i64_param, add_string_param, build_url_with_params,
    i32_param, i64_param, internal_parse_error_text, params_view, str_param, url_parse_ok,
    url_with_params,
};
use crate::textfmt::{dec_nat, u16_to_dec_string};

verus! {

/// The side of a market position: the yes or the no outcome.
#[derive(Debug, Clone, Copy, PartialEq, Eq, Structural)]
pub enum Side {
    /// The 'Yes' outcome of a market event.
    Yes,
    /// The 'No' outcome of a market event.
    No,
}

/// Whether an order buys or sells.
#[derive(Debug, Clone, Copy, PartialEq, Eq, Structural)]
pub enum Action {
    /// A buy order.
    Buy,
    /// A sell order.
    Sell,
}

/// The lifecycle state of an order.
#[derive(Debug, Clone, Copy, PartialEq, Eq, Structural)]
pub enum OrderStatus {
    /// Active in the order book, not yet fully filled.
    Resting,
    /// Canceled and no longer active.
    Canceled,
    /// Fully executed.
    Executed,
    /// Created and awaiting further processing.
    Pending,
}

/// How an order interacts with the market.
#[derive(Debug, Clone, Copy, PartialEq, Eq, Structural)]
pub enum OrderType {
    /// Executed immediately at the current market price.
    Market,
    /// Executed only at a specific price or better.
    Limit,
}

impl Action {
    /// The lowercase text of the action.
    pub open spec fn display_text(&self) -> Seq<char> {
        match self {
            Action::Buy => "buy"@,
            Action::Sell => "sell"@,
        }
    }

    /// Renders the action in lowercase.
    pub fn as_str(&self) -> (r: &'static str)
        ensures
            r@ == self.display_text(),
    {
        match self {
            Action::Buy => "buy",
            Action::Sell => "sell",
        }
    }
}

impl OrderStatus {
    /// The lowercase text of the status.
    pub open spec fn display_text(&self) -> Seq<char> {
        match self {
            OrderStatus::Resting => "resting"@,
            OrderStatus::Canceled => "cancelled"@,
            OrderStatus::Executed => "executed"@,
            OrderStatus::Pending => "pending"@,
        }
    }

    /// Renders the status in lowercase.
    pub fn as_str(&self) -> (r: &'static str)
        ensures
            r@ == self.display_text(),
    {
        match self {
            OrderStatus::Resting => "resting",
            OrderStatus::Canceled => "cancelled",
            OrderStatus::Executed => "executed",
            OrderStatus::Pending => "pending",
        }
    }
}

/// An order as reported by the exchange: an immutable snapshot of its
/// identity, prices and lifecycle counters.
#[derive(Debug)]
pub struct Order {
    /// Unique identifier for the order.
    pub order_id: String,
    /// Identifier of the user who placed the order.
    pub user_id: Option<String>,
    /// Ticker of the market associated with the order.
    pub ticker: String,
    /// Current lifecycle state of the order.
    pub status: OrderStatus,
    /// Price of the 'Yes' option in the order.
    pub yes_price: i32,
    /// Price of the 'No' option in the order.
    pub no_price: i32,
    /// When the order was created.
    pub created_time: Option<String>,
    /// Count of fills where the order acted as a taker.
    pub taker_fill_count: Option<i32>,
    /// Total cost of taker fills.
    pub taker_fill_cost: Option<i32>,
    /// Count of order placements.
    pub place_count: Option<i32>,
    /// Count of order decreases.
    pub decrease_count: Option<i32>,
    /// Count of fills where the order acted as a maker.
    pub maker_fill_count: Option<i32>,
    /// Count of compliance cancellations.
    pub fcc_cancel_count: Option<i32>,
    /// Count of cancellations at market close.
    pub close_cancel_count: Option<i32>,
    /// Remaining count of the order.
    pub remaining_count: Option<i32>,
    /// Position of the order in the queue.
    pub queue_position: Option<i32>,
    /// Expiration time of the order.
    pub expiration_time: Option<String>,
    /// Fees incurred as a taker.
    pub taker_fees: Option<i32>,
    /// Whether the order buys or sells.
    pub action: Action,
    /// The side (yes/no) of the order.
    pub side: Side,
    /// The type of the order, as reported by the exchange.
    pub order_type: String,
    /// Last update time of the order.
    pub last_update_time: Option<String>,
    /// Client-side identifier for the order.
    pub client_order_id: String,
    /// Group identifier for the order.
    pub order_group_id: String,
}

/// A completed transaction slice tied to an order and a trade.
#[derive(Debug)]
pub struct Fill {
    /// Whether the fill bought or sold.
    pub action: Action,
    /// The number of contracts involved in the fill.
    pub count: i32,
    /// When the fill was created.
    pub created_time: String,
    /// Whether the fill was made by a taker.
    pub is_taker: bool,
    /// The price of the 'No' option in the fill.
    pub no_price: i64,
    /// The identifier of the associated order.
    pub order_id: String,
    /// The side (yes/no) of the fill.
    pub side: Side,
    /// The ticker of the market in which the fill occurred.
    pub ticker: String,
    /// The unique identifier of the trade.
    pub trade_id: String,
    /// The price of the 'Yes' option in the fill.
    pub yes_price: i64,
}

/// The settlement of a market position.
#[derive(Debug)]
pub struct Settlement {
    /// The result of the market settlement.
    pub market_result: String,
    /// The quantity involved in the 'No' position.
    pub no_count: i64,
    /// The total cost associated with the 'No' position.
    pub no_total_cost: i64,
    /// The revenue generated from the settlement, in cents.
    pub revenue: i64,
    /// When the settlement occurred.
    pub settled_time: String,
    /// The ticker of the market that was settled.
    pub ticker: String,
    /// The quantity involved in the 'Yes' position.
    pub yes_count: i64,
    /// The total cost associated with the 'Yes' position, in cents.
    pub yes_total_cost: i64,
}

/// A user's aggregate position in an event.
#[derive(Debug)]
pub struct EventPosition {
    /// The total exposure amount in the event.
    pub event_exposure: i64,
    /// The ticker of the event.
    pub event_ticker: String,
    /// The total fees paid in the event, in cents.
    pub fees_paid: i64,
    /// The realized profit or loss in the event, in cents.
    pub realized_pnl: i64,
    /// The count of resting orders in the event.
    pub resting_order_count: i32,
    /// The total cost incurred in the event, in cents.
    pub total_cost: i64,
}

/// A user's position in a single market.
#[derive(Debug)]
pub struct MarketPosition {
    /// The total fees paid in the market, in cents.
    pub fees_paid: i64,
    /// The total exposure amount in the market.
    pub market_exposure: i64,
    /// The current position of the user in the market.
    pub position: i32,
    /// The realized profit or loss in the market, in cents.
    pub realized_pnl: i64,
    /// The count of resting orders in the market.
    pub resting_orders_count: i32,
    /// The ticker of the market.
    pub ticker: String,
    /// The total traded amount in the market.
    pub total_traded: i64,
}

/// The fields needed to create one order, bundled for batch use.
#[derive(Debug)]
pub struct OrderCreationField {
    /// Whether the order buys or sells.
    pub action: Action,
    /// Client-side identifier for the order, when the caller has one.
    pub client_order_id: Option<String>,
    /// The number of contracts involved in the order.
    pub count: i32,
    /// The side (yes/no) of the order.
    pub side: Side,
    /// Ticker of the market associated with the order.
    pub ticker: String,
    /// How the order interacts with the market.
    pub input_type: OrderType,
    /// The maximum cost the buyer is willing to incur.
    pub buy_max_cost: Option<i64>,
    /// Expiration time of the order.
    pub expiration_ts: Option<i64>,
    /// Price of the 'No' option in the order.
    pub no_price: Option<i64>,
    /// The minimum position the seller is willing to hold after selling.
    pub sell_position_floor: Option<i32>,
    /// Price of the 'Yes' option in the order.
    pub yes_price: Option<i64>,
}

impl OrderCreationField {
    /// Unbundles the fields, in the order that order creation takes them.
    pub fn get_params(self) -> (r: (
        Action,
        Option<String>,
        i32,
        Side,
        String,
        OrderType,
        Option<i64>,
        Option<i64>,
        Option<i64>,
        Option<i32>,
        Option<i64>,
    ))
        ensures
            r == (
                self.action,
                self.client_order_id,
                self.count,
                self.side,
                self.ticker,
                self.input_type,
                self.buy_max_cost,
                self.expiration_ts,
                self.no_price,
                self.sell_position_floor,
                self.yes_price,
            ),
    {
        (
            self.action,
            self.client_order_id,
            self.count,
            self.side,
            self.ticker,
            self.input_type,
            self.buy_max_cost,
            self.expiration_ts,
            self.no_price,
            self.sell_position_floor,
            self.yes_price,
        )
    }
}

/// The body posted when creating an order.
#[derive(Debug)]
pub struct CreateOrderPayload {
    /// Whether the order buys or sells.
    pub action: Action,
    /// Client-side identifier for the order; always populated.
    pub client_order_id: String,
    /// The number of contracts involved in the order.
    pub count: i32,
    /// The side (yes/no) of the order.
    pub side: Side,
    /// Ticker of the market associated with the order.
    pub ticker: String,
    /// How the order interacts with the market.
    pub order_type: OrderType,
    /// The maximum cost the buyer is willing to incur.
    pub buy_max_cost: Option<i64>,
    /// Expiration time of the order.
    pub expiration_ts: Option<i64>,
    /// Price of the 'No' option in the order.
    pub no_price: Option<i64>,
    /// The minimum position the seller is willing to hold after selling.
    pub sell_position_floor: Option<i32>,
    /// Price of the 'Yes' option in the order.
    pub yes_price: Option<i64>,
}

/// The body posted when decreasing an order.
#[derive(Debug)]
pub struct DecreaseOrderPayload {
    /// How much to reduce the order by.
    pub reduce_by: Option<i32>,
    /// The new target size of the order.
    pub reduce_to: Option<i32>,
}

/// A limit order must carry exactly one of the two prices; any other order
/// type carries no such constraint.
pub open spec fn limit_prices_valid(
    input_type: OrderType,
    no_price: Option<i64>,
    yes_price: Option<i64>,
) -> bool {
    input_type is Limit ==> ((no_price is Some) != (yes_price is Some))
}

/// A decrease must name exactly one of the two amounts.
pub open spec fn exactly_one_reduce(reduce_by: Option<i32>, reduce_to: Option<i32>) -> bool {
    (reduce_by is Some) != (reduce_to is Some)
}

/// Message rejecting a limit order with both prices set.
pub open spec fn both_prices_text() -> Seq<char> {
    "Can only provide no_price exclusive or yes_price, can't provide both"@
}

/// Message rejecting a limit order with neither price set.
pub open spec fn neither_price_text() -> Seq<char> {
    "Must provide either no_price exclusive or yes_price, can't provide neither"@
}

/// Message rejecting a decrease with both amounts set.
pub open spec fn both_reduce_text() -> Seq<char> {
    "Can only provide reduce_by strict exclusive or reduce_to, can't provide both"@
}

/// Message rejecting a decrease with neither amount set.
pub open spec fn neither_reduce_text() -> Seq<char> {
    "Must provide either reduce_by exclusive or reduce_to, can't provide neither"@
}

/// Relies on uuid::Uuid::new_v4 and uuid's String conversion: a fresh random
/// version-4 identifier, rendered in the 36-character hyphenated form, with
/// its four hyphens at positions 8, 13, 18 and 23.  The result is random, so
/// nothing relates one call to another.
#[verifier::external_body]
fn new_client_order_id() -> (r: String)
    ensures
        r@.len() == 36,
        r@[8] == '-' && r@[13] == '-' && r@[18] == '-' && r@[23] == '-',
{
    String::from(uuid::Uuid::new_v4())
}

/// Normalizes a wire-level pagination cursor: an empty string means there is
/// no next page, and anything else is the opaque token itself.
pub fn empty_string_is_none(s: String) -> (r: Option<String>)
    ensures
        r is None <==> s@.len() == 0,
        r matches Some(t) ==> t == s,
{
    if s.as_str().is_empty() {
        None
    } else {
        Some(s)
    }
}

/// Assembles a page of orders from the decoded response: the cursor is
/// normalized (an empty string becomes "no next page") and the orders are
/// passed through unchanged.
pub fn orders_page(orders: Vec<Order>, cursor: String) -> (r: (Option<String>, Vec<Order>))
    ensures
        r.0 is None <==> cursor@.len() == 0,
        r.0 matches Some(t) ==> t == cursor,
        r.1 == orders,
{
    (empty_string_is_none(cursor), orders)
}

/// Normalizes an optional wire cursor: an absent cursor and an empty-string
/// cursor both mean there is no next page.
pub fn normalize_cursor(cursor: Option<String>) -> (r: Option<String>)
    ensures
        r is None <==> (cursor is None || cursor->Some_0@.len() == 0),
        r matches Some(t) ==> (cursor matches Some(c) && t == c),
{
    match cursor {
        Some(c) => empty_string_is_none(c),
        None => None,
    }
}

/// Assembles one page of results: the cursor is normalized (an empty string
/// becomes "no next page") and the items pass through unchanged, in the
/// order the server returned them.
pub fn page_with_cursor<T>(items: Vec<T>, cursor: Option<String>) -> (r: (Option<String>, Vec<T>))
    ensures
        r.0 is None <==> (cursor is None || cursor->Some_0@.len() == 0),
        r.0 matches Some(t) ==> (cursor matches Some(c) && t == c),
        r.1 == items,
{
    (normalize_cursor(cursor), items)
}

/// What the transport reports of one order-submission attempt.
#[derive(Debug)]
pub enum SubmitOutcome {
    /// The request was delivered, answered with a success status, and the
    /// body decoded into an order.
    Accepted(Order),
    /// The request was answered with a success status, but the body did not
    /// decode; carries the decoder's message.
    DecodeFailed(String),
    /// The request was answered with the given non-success status.
    HttpError(u16),
    /// The request could not be sent at all; carries the transport's
    /// message.
    SendFailed(String),
}

/// An HTTP status is a success exactly when it lies in 200..=299.
pub fn http_status_is_success(status: u16) -> (r: bool)
    ensures
        r == (200 <= status <= 299),
{
    200 <= status && status <= 299
}

/// Turns the outcome of an order submission into the caller's result.
/// An accepted order is returned as it is; every failure is classified into
/// the request-error taxonomy: a non-success status by its range (4xx
/// client-side, 5xx server-side), a decode failure as a serialization
/// error, and a send failure as a server-side failure without a status.
/// Only a reported status in none of those ranges, which the design asserts
/// cannot happen, becomes a defensive internal error.
pub fn create_order_outcome(outcome: SubmitOutcome) -> (r: Result<Order, KalshiError>)
    ensures
        outcome matches SubmitOutcome::Accepted(o) ==> (r matches Ok(res) && res == o),
        outcome matches SubmitOutcome::DecodeFailed(msg) ==> (r matches Err(
            KalshiError::RequestError(RequestError::SerializationError(m)),
        ) && m@ == "Failed to decode JSON response: "@ + msg@),
        outcome matches SubmitOutcome::HttpError(status) ==> ({
            &&& is_client_error_status(status) ==> (r matches Err(
                KalshiError::RequestError(RequestError::ClientError(c, m)),
            ) && c == status && m@ == "HTTP Error: "@ + dec_nat(status as nat))
            &&& is_server_error_status(status) ==> (r matches Err(
                KalshiError::RequestError(RequestError::ServerError(c, m)),
            ) && c == Some(status) && m@ == "HTTP Error: "@ + dec_nat(status as nat))
            &&& !is_client_error_status(status) && !is_server_error_status(status) ==> (r matches
                Err(KalshiError::InternalError(m)) && m@ == impossible_status_text())
        }),
        outcome matches SubmitOutcome::SendFailed(msg) ==> (r matches Err(
            KalshiError::RequestError(RequestError::ServerError(c, m)),
        ) && c is None && m@ == "Failed to send request: "@ + msg@),
{
    match outcome {
        SubmitOutcome::Accepted(order) => Ok(order),
        SubmitOutcome::DecodeFailed(msg) => Err(
            KalshiError::RequestError(
                RequestError::SerializationError(
                    String::from_str("Failed to decode JSON response: ").concat(msg.as_str()),
                ),
            ),
        ),
        SubmitOutcome::HttpError(status) => {
            let text = String::from_str("HTTP Error: ").concat(
                u16_to_dec_string(status).as_str(),
            );
            if 400 <= status && status <= 499 {
                Err(KalshiError::RequestError(RequestError::ClientError(status, text)))
            } else if 500 <= status && status <= 599 {
                Err(KalshiError::RequestError(RequestError::ServerError(Some(status), text)))
            } else {
                Err(
                    KalshiError::InternalError(
                        String::from_str("Theoretically Impossible Error. Internal code 1"),
                    ),
                )
            }
        },
        SubmitOutcome::SendFailed(msg) => Err(
            KalshiError::RequestError(
                RequestError::ServerError(
                    None,
                    String::from_str("Failed to send request: ").concat(msg.as_str()),
                ),
            ),
        ),
    }
}

/// The query parameters of the orders listing, in the order they are sent.
pub open spec fn orders_query(
    ticker: Option<Seq<char>>,
    event_ticker: Option<Seq<char>>,
    min_ts: Option<i64>,
    max_ts: Option<i64>,
    status: Option<Seq<char>>,
    limit: Option<i32>,
    cursor: Option<Seq<char>>,
) -> Seq<(Seq<char>, Seq<char>)> {
    str_param("ticker"@, ticker) + i32_param("limit"@, limit) + str_param("cursor"@, cursor)
        + i64_param("min_ts"@, min_ts) + i64_param("max_ts"@, max_ts) + str_param(
        "event_ticker"@,
        event_ticker,
    ) + str_param("status"@, status)
}

/// The query parameters of the fills listing, in the order they are sent.
pub open spec fn fills_query(
    ticker: Option<Seq<char>>,
    order_id: Option<Seq<char>>,
    min_ts: Option<i64>,
    max_ts: Option<i64>,
    limit: Option<i32>,
    cursor: Option<Seq<char>>,
) -> Seq<(Seq<char>, Seq<char>)> {
    str_param("ticker"@, ticker) + i32_param("limit"@, limit) + str_param("cursor"@, cursor)
        + i64_param("min_ts"@, min_ts) + i64_param("max_ts"@, max_ts) + str_param(
        "order_id"@,
        order_id,
    )
}

/// The query parameters of the settlements listing, in the order they are
/// sent.
pub open spec fn settlements_query(limit: Option<i64>, cursor: Option<Seq<char>>) -> Seq<
    (Seq<char>, Seq<char>),
> {
    i64_param("limit"@, limit) + str_param("cursor"@, cursor)
}

/// The query parameters of the positions listing, in the order they are
/// sent.
pub open spec fn positions_query(
    limit: Option<i64>,
    cursor: Option<Seq<char>>,
    settlement_status: Option<Seq<char>>,
    ticker: Option<Seq<char>>,
    event_ticker: Option<Seq<char>>,
) -> Seq<(Seq<char>, Seq<char>)> {
    i64_param("limit"@, limit) + str_param("cursor"@, cursor) + str_param(
        "settlement_status"@,
        settlement_status,
    ) + str_param("ticker"@, ticker) + str_param("event_ticker"@, event_ticker)
}

impl Kalshi {
    /// Builds the request for the user's balance: an authenticated GET of
    /// `/portfolio/balance`.  Before login it is rejected locally.
    pub fn balance_request(&self) -> (r: Result<ApiRequest, KalshiError>)
        ensures
            r is Ok <==> self.spec_authenticated(),
            r matches Ok(req) ==> req.method == HttpMethod::Get && req.url@ == self.base_url@
                + "/portfolio/balance"@ && (req.bearer matches Some(t) && t@ == self.spec_token()),
            r matches Err(e) ==> is_auth_error(&e),
    {
        let token = self.require_token()?;
        Ok(
            ApiRequest {
                method: HttpMethod::Get,
                url: self.base_url.clone().concat("/portfolio/balance"),
                bearer: Some(token),
            },
        )
    }

    /// Builds the request for a page of the user's orders: an authenticated
    /// GET of `/portfolio/orders`, with only the supplied filters appended.
    /// Before login it is rejected locally.
    pub fn multiple_orders_request(
        &self,
        ticker: Option<String>,
        event_ticker: Option<String>,
        min_ts: Option<i64>,
        max_ts: Option<i64>,
        status: Option<String>,
        limit: Option<i32>,
        cursor: Option<String>,
    ) -> (r: Result<ApiRequest, KalshiError>)
        ensures
            r is Ok <==> self.spec_authenticated() && url_parse_ok(self.base_url@ + "/portfolio/orders"@),
            !self.spec_authenticated() ==> (r matches Err(e) && is_auth_error(&e)),
            r matches Ok(req) ==> self.spec_authenticated() && req.method == HttpMethod::Get && (
            req.bearer matches Some(t) && t@ == self.spec_token()) && req.url@ == url_with_params(
                self.base_url@ + "/portfolio/orders"@,
                orders_query(
                    ticker.deep_view(),
                    event_ticker.deep_view(),
                    min_ts,
                    max_ts,
                    status.deep_view(),
                    limit,
                    cursor.deep_view(),
                ),
            ),
            self.spec_authenticated() ==> (r matches Err(e) ==> (e matches
                KalshiError::InternalError(m) && m@ == internal_parse_error_text())),
    {
        let token = self.require_token()?;
        let base = self.base_url.clone().concat("/portfolio/orders");
        let mut params: Vec<(String, String)> = Vec::new();
        add_string_param(&mut params, "ticker", ticker);
        add_i32_param(&mut params, "limit", limit);
        add_string_param(&mut params, "cursor", cursor);
        add_i64_param(&mut params, "min_ts", min_ts);
        add_i64_param(&mut params, "max_ts", max_ts);
        add_string_param(&mut params, "event_ticker", event_ticker);
        add_string_param(&mut params, "status", status);
        proof {
            assert(params_view(params@) =~= orders_query(
                ticker.deep_view(),
                event_ticker.deep_view(),
                min_ts,
                max_ts,
                status.deep_view(),
                limit,
                cursor.deep_view(),
            ));
        }
        let url = build_url_with_params(base.as_str(), &params)?;
        Ok(ApiRequest { method: HttpMethod::Get, url, bearer: Some(token) })
    }

    /// Builds the request for a single order: an authenticated GET of
    /// `/portfolio/orders/{id}`.  Before login it is rejected locally.
    pub fn single_order_request(&self, order_id: &String) -> (r: Result<ApiRequest, KalshiError>)
        ensures
            r is Ok <==> self.spec_authenticated(),
            r matches Ok(req) ==> req.method == HttpMethod::Get && req.url@ == self.base_url@
                + "/portfolio/orders/"@ + order_id@ && (req.bearer matches Some(t) && t@
                == self.spec_token()),
            r matches Err(e) ==> is_auth_error(&e),
    {
        let token = self.require_token()?;
        Ok(
            ApiRequest {
                method: HttpMethod::Get,
                url: self.base_url.clone().concat("/portfolio/orders/").concat(order_id.as_str()),
                bearer: Some(token),
            },
        )
    }

    /// Builds the request that cancels an order: an authenticated DELETE of
    /// `/portfolio/orders/{id}`.  Before login it is rejected locally.
    pub fn cancel_order_request(&self, order_id: &str) -> (r: Result<ApiRequest, KalshiError>)
        ensures
            r is Ok <==> self.spec_authenticated(),
            r matches Ok(req) ==> req.method == HttpMethod::Delete && req.url@ == self.base_url@
                + "/portfolio/orders/"@ + order_id@ && (req.bearer matches Some(t) && t@
                == self.spec_token()),
            r matches Err(e) ==> is_auth_error(&e),
    {
        let token = self.require_token()?;
        Ok(
            ApiRequest {
                method: HttpMethod::Delete,
                url: self.base_url.clone().concat("/portfolio/orders/").concat(order_id),
                bearer: Some(token),
            },
        )
    }

    /// Builds the request that decreases an order: an authenticated POST of
    /// `/portfolio/orders/{id}` naming exactly one of `reduce_by` and
    /// `reduce_to`.  Naming both, or neither, is rejected locally, as is any
    /// call before login.
    pub fn decrease_order_request(
        &self,
        order_id: &str,
        reduce_by: Option<i32>,
        reduce_to: Option<i32>,
    ) -> (r: Result<(ApiRequest, DecreaseOrderPayload), KalshiError>)
        ensures
            r is Ok <==> self.spec_authenticated() && exactly_one_reduce(reduce_by, reduce_to),
            !self.spec_authenticated() ==> (r matches Err(e) && is_auth_error(&e)),
            self.spec_authenticated() && reduce_by is Some && reduce_to is Some ==> (r matches Err(
                KalshiError::UserInputError(m),
            ) && m@ == both_reduce_text()),
            self.spec_authenticated() && reduce_by is None && reduce_to is None ==> (r matches Err(
                KalshiError::UserInputError(m),
            ) && m@ == neither_reduce_text()),
            r matches Ok((req, payload)) ==> req.method == HttpMethod::Post && req.url@
                == self.base_url@ + "/portfolio/orders/"@ + order_id@ && (req.bearer matches Some(
                t,
            ) && t@ == self.spec_token()) && payload.reduce_by == reduce_by && payload.reduce_to
                == reduce_to,
    {
        let token = self.require_token()?;
        match (reduce_by, reduce_to) {
            (Some(_), Some(_)) => {
                return Err(
                    KalshiError::UserInputError(
                        String::from_str(
                            "Can only provide reduce_by strict exclusive or reduce_to, can't provide both",
                        ),
                    ),
                );
            },
            (None, None) => {
                return Err(
                    KalshiError::UserInputError(
                        String::from_str(
                            "Must provide either reduce_by exclusive or reduce_to, can't provide neither",
                        ),
                    ),
                );
            },
            _ => {},
        }
        let payload = DecreaseOrderPayload { reduce_by, reduce_to };
        let request = ApiRequest {
            method: HttpMethod::Post,
            url: self.base_url.clone().concat("/portfolio/orders/").concat(order_id),
            bearer: Some(token),
        };
        Ok((request, payload))
    }

    /// Builds the request that submits an order: an authenticated POST of
    /// `/portfolio/orders`.  A limit order must name exactly one of the two
    /// prices; naming both, or neither, is rejected locally, as is any call
    /// before login.  When the caller supplies no client order id, a fresh
    /// 36-character identifier is generated, so the idempotency key is
    /// always populated.
    pub fn create_order_request(
        &self,
        action: Action,
        client_order_id: Option<String>,
        count: i32,
        side: Side,
        ticker: String,
        input_type: OrderType,
        buy_max_cost: Option<i64>,
        expiration_ts: Option<i64>,
        no_price: Option<i64>,
        sell_position_floor: Option<i32>,
        yes_price: Option<i64>,
    ) -> (r: Result<(ApiRequest, CreateOrderPayload), KalshiError>)
        ensures
            r is Ok <==> self.spec_authenticated() && limit_prices_valid(
                input_type,
                no_price,
                yes_price,
            ),
            !self.spec_authenticated() ==> (r matches Err(e) && is_auth_error(&e)),
            self.spec_authenticated() && input_type is Limit && no_price is Some && yes_price
                is Some ==> (r matches Err(KalshiError::UserInputError(m)) && m@
                == both_prices_text()),
            self.spec_authenticated() && input_type is Limit && no_price is None && yes_price
                is None ==> (r matches Err(KalshiError::UserInputError(m)) && m@
                == neither_price_text()),
            r matches Ok((req, payload)) ==> req.method == HttpMethod::Post && req.url@
                == self.base_url@ + "/portfolio/orders"@ && (req.bearer matches Some(t) && t@
                == self.spec_token()) && payload.action == action && payload.count == count
                && payload.side == side && payload.ticker == ticker && payload.order_type
                == input_type && payload.buy_max_cost == buy_max_cost && payload.expiration_ts
                == expiration_ts && payload.no_price == no_price && payload.sell_position_floor
                == sell_position_floor && payload.yes_price == yes_price && (
            client_order_id matches Some(id) ==> payload.client_order_id == id) && (client_order_id
                is None ==> payload.client_order_id@.len() == 36),
    {
        let token = self.require_token()?;
        match input_type {
            OrderType::Limit => match (no_price, yes_price) {
                (Some(_), Some(_)) => {
                    return Err(
                        KalshiError::UserInputError(
                            String::from_str(
                                "Can only provide no_price exclusive or yes_price, can't provide both",
                            ),
                        ),
                    );
                },
                (None, None) => {
                    return Err(
                        KalshiError::UserInputError(
                            String::from_str(
                                "Must provide either no_price exclusive or yes_price, can't provide neither",
                            ),
                        ),
                    );
                },
                _ => {},
            },
            _ => {},
        }
        let unwrapped_id = match client_order_id {
            Some(id) => id,
            None => new_client_order_id(),
        };
        let payload = CreateOrderPayload {
            action,
            client_order_id: unwrapped_id,
            count,
            side,
            ticker,
            order_type: input_type,
            buy_max_cost,
            expiration_ts,
            no_price,
            sell_position_floor,
            yes_price,
        };
        let request = ApiRequest {
            method: HttpMethod::Post,
            url: self.base_url.clone().concat("/portfolio/orders"),
            bearer: Some(token),
        };
        Ok((request, payload))
    }

    /// Builds the request for a page of the user's fills: an authenticated
    /// GET of `/portfolio/fills`, with only the supplied filters appended.
    /// Before login it is rejected locally.
    pub fn multiple_fills_request(
        &self,
        ticker: Option<String>,
        order_id: Option<String>,
        min_ts: Option<i64>,
        max_ts: Option<i64>,
        limit: Option<i32>,
        cursor: Option<String>,
    ) -> (r: Result<ApiRequest, KalshiError>)
        ensures
            r is Ok <==> self.spec_authenticated() && url_parse_ok(self.base_url@ + "/portfolio/fills"@),
            !self.spec_authenticated() ==> (r matches Err(e) && is_auth_error(&e)),
            r matches Ok(req) ==> self.spec_authenticated() && req.method == HttpMethod::Get && (
            req.bearer matches Some(t) && t@ == self.spec_token()) && req.url@ == url_with_params(
                self.base_url@ + "/portfolio/fills"@,
                fills_query(
                    ticker.deep_view(),
                    order_id.deep_view(),
                    min_ts,
                    max_ts,
                    limit,
                    cursor.deep_view(),
                ),
            ),
            self.spec_authenticated() ==> (r matches Err(e) ==> (e matches
                KalshiError::InternalError(m) && m@ == internal_parse_error_text())),
    {
        let token = self.require_token()?;
        let base = self.base_url.clone().concat("/portfolio/fills");
        let mut params: Vec<(String, String)> = Vec::new();
        add_string_param(&mut params, "ticker", ticker);
        add_i32_param(&mut params, "limit", limit);
        add_string_param(&mut params, "cursor", cursor);
        add_i64_param(&mut params, "min_ts", min_ts);
        add_i64_param(&mut params, "max_ts", max_ts);
        add_string_param(&mut params, "order_id", order_id);
        proof {
            assert(params_view(params@) =~= fills_query(
                ticker.deep_view(),
                order_id.deep_view(),
                min_ts,
                max_ts,
                limit,
                cursor.deep_view(),
            ));
        }
        let url = build_url_with_params(base.as_str(), &params)?;
        Ok(ApiRequest { method: HttpMethod::Get, url, bearer: Some(token) })
    }

    /// Builds the request for a page of the user's settlements: an
    /// authenticated GET of `/portfolio/settlements`.  Before login it is
    /// rejected locally.
    pub fn portfolio_settlements_request(&self, limit: Option<i64>, cursor: Option<String>) -> (r:
        Result<ApiRequest, KalshiError>)
        ensures
            r is Ok <==> self.spec_authenticated() && url_parse_ok(self.base_url@ + "/portfolio/settlements"@),
            !self.spec_authenticated() ==> (r matches Err(e) && is_auth_error(&e)),
            r matches Ok(req) ==> self.spec_authenticated() && req.method == HttpMethod::Get && (
            req.bearer matches Some(t) && t@ == self.spec_token()) && req.url@ == url_with_params(
                self.base_url@ + "/portfolio/settlements"@,
                settlements_query(limit, cursor.deep_view()),
            ),
            self.spec_authenticated() ==> (r matches Err(e) ==> (e matches
                KalshiError::InternalError(m) && m@ == internal_parse_error_text())),
    {
        let token = self.require_token()?;
        let base = self.base_url.clone().concat("/portfolio/settlements");
        let mut params: Vec<(String, String)> = Vec::new();
        add_i64_param(&mut params, "limit", limit);
        add_string_param(&mut params, "cursor", cursor);
        proof {
            assert(params_view(params@) =~= settlements_query(limit, cursor.deep_view()));
        }
        let url = build_url_with_params(base.as_str(), &params)?;
        Ok(ApiRequest { method: HttpMethod::Get, url, bearer: Some(token) })
    }

    /// Builds the request for the user's positions: an authenticated GET of
    /// `/portfolio/positions`, with only the supplied filters appended.
    /// Before login it is rejected locally.
    pub fn user_positions_request(
        &self,
        limit: Option<i64>,
        cursor: Option<String>,
        settlement_status: Option<String>,
        ticker: Option<String>,
        event_ticker: Option<String>,
    ) -> (r: Result<ApiRequest, KalshiError>)
        ensures
            r is Ok <==> self.spec_authenticated() && url_parse_ok(self.base_url@ + "/portfolio/positions"@),
            !self.spec_authenticated() ==> (r matches Err(e) && is_auth_error(&e)),
            r matches Ok(req) ==> self.spec_authenticated() && req.method == HttpMethod::Get && (
            req.bearer matches Some(t) && t@ == self.spec_token()) && req.url@ == url_with_params(
                self.base_url@ + "/portfolio/positions"@,
                positions_query(
                    limit,
                    cursor.deep_view(),
                    settlement_status.deep_view(),
                    ticker.deep_view(),
                    event_ticker.deep_view(),
                ),
            ),
            self.spec_authenticated() ==> (r matches Err(e) ==> (e matches
                KalshiError::InternalError(m) && m@ == internal_parse_error_text())),
    {
        let token = self.require_token()?;
        let base = self.base_url.clone().concat("/portfolio/positions");
        let mut params: Vec<(String, String)> = Vec::new();
        add_i64_param(&mut params, "limit", limit);
        add_string_param(&mut params, "cursor", cursor);
        add_string_param(&mut params, "settlement_status", settlement_status);
        add_string_param(&mut params, "ticker", ticker);
        add_string_param(&mut params, "event_ticker", event_ticker);
        proof {
            assert(params_view(params@) =~= positions_query(
                limit,
                cursor.deep_view(),
                settlement_status.deep_view(),
                ticker.deep_view(),
                event_ticker.deep_view(),
            ));
        }
        let url = build_url_with_params(base.as_str(), &params)?;
        Ok(ApiRequest { method: HttpMethod::Get, url, bearer: Some(token) })
    }
}

} // verus!
