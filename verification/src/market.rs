//! Market, event, series, order book, history and trade discovery:
//! result types and request builders.

use vstd::prelude::*;
use vstd::string::StringExecFns;
use crate::Kalshi;
use crate::kalshi_error::{KalshiError, is_auth_error};
use crate::request::{
    ApiRequest, HttpMethod, add_bool_param, add_i32_param, add_i64_param, add_string_param,
    bool_param, build_url_with_params, i32_param, i64_param, internal_parse_error_text,
    params_view, str_param, url_parse_ok, url_with_params,
};

verus! {

/// Possible outcomes of a market settlement.
#[derive(Debug, Clone, Copy, PartialEq, Eq, Structural)]
pub enum SettlementResult {
    /// The outcome of the market is affirmative.
    Yes,
    /// The outcome of the market is negative.
    No,
    /// The market is voided.
    Void,
    /// All options in the market are settled as 'No'.
    AllNo,
    /// All options in the market are settled as 'Yes'.
    AllYes,
}

/// The operational state of a market.
#[derive(Debug, Clone, Copy, PartialEq, Eq, Structural)]
pub enum MarketStatus {
    /// The market is open for trading.
    Open,
    /// The market is closed and not currently available for trading.
    Closed,
    /// The market has been settled, and the outcome is determined.
    Settled,
}

/// A market: a read-only descriptive and pricing snapshot keyed by ticker.
/// The strike prices are carried as the decimal text the wire reports.
#[derive(Debug)]
pub struct Market {
    /// Unique identifier for the market.
    pub ticker: String,
    /// Ticker of the associated event.
    pub event_ticker: String,
    /// Type of the market.
    pub market_type: String,
    /// Title of the market.
    pub title: String,
    /// Subtitle of the market.
    pub subtitle: String,
    /// Subtitle for the 'Yes' option in the market.
    pub yes_sub_title: String,
    /// Subtitle for the 'No' option in the market.
    pub no_sub_title: String,
    /// Opening time of the market.
    pub open_time: String,
    /// Closing time of the market.
    pub close_time: String,
    /// Expected expiration time of the market.
    pub expected_expiration_time: Option<String>,
    /// Actual expiration time of the market.
    pub expiration_time: Option<String>,
    /// Latest possible expiration time of the market.
    pub latest_expiration_time: String,
    /// Countdown in seconds to the settlement.
    pub settlement_timer_seconds: i64,
    /// Current status of the market.
    pub status: String,
    /// Units used for pricing responses.
    pub response_price_units: String,
    /// Notional value of the market.
    pub notional_value: i64,
    /// Minimum price movement in the market.
    pub tick_size: i64,
    /// Current bid price for the 'Yes' option.
    pub yes_bid: i64,
    /// Current ask price for the 'Yes' option.
    pub yes_ask: i64,
    /// Current bid price for the 'No' option.
    pub no_bid: i64,
    /// Current ask price for the 'No' option.
    pub no_ask: i64,
    /// Last traded price in the market.
    pub last_price: i64,
    /// Previous bid price for the 'Yes' option.
    pub previous_yes_bid: i64,
    /// Previous ask price for the 'Yes' option.
    pub previous_yes_ask: i64,
    /// Previous traded price in the market.
    pub previous_price: i64,
    /// Total trading volume in the market.
    pub volume: i64,
    /// Trading volume in the last 24 hours.
    pub volume_24h: i64,
    /// Liquidity available in the market.
    pub liquidity: i64,
    /// Open interest in the market.
    pub open_interest: i64,
    /// Result of the market settlement.
    pub result: SettlementResult,
    /// Cap strike price as decimal text, if applicable.
    pub cap_strike: Option<String>,
    /// Indicator if the market can close early.
    pub can_close_early: bool,
    /// Value at expiration.
    pub expiration_value: String,
    /// Category of the market.
    pub category: String,
    /// Risk limit in cents.
    pub risk_limit_cents: i64,
    /// Type of strike, if applicable.
    pub strike_type: Option<String>,
    /// Floor strike price as decimal text, if applicable.
    pub floor_strike: Option<String>,
    /// Primary rules for the market.
    pub rules_primary: String,
    /// Secondary rules for the market.
    pub rules_secondary: String,
    /// Settlement value for the market.
    pub settlement_value: Option<String>,
    /// Functional strike information, if applicable.
    pub functional_strike: Option<String>,
}

/// An event: a read-only snapshot, possibly with its nested markets.
#[derive(Debug)]
pub struct Event {
    /// Unique identifier for the event.
    pub event_ticker: String,
    /// Ticker of the associated series.
    pub series_ticker: String,
    /// Subtitle of the event.
    pub sub_title: String,
    /// Title of the event.
    pub title: String,
    /// Indicates if the event's outcomes are mutually exclusive.
    pub mutually_exclusive: bool,
    /// Category of the event.
    pub category: String,
    /// The markets associated with this event, when requested.
    pub markets: Option<Vec<Market>>,
    /// Date of the event's occurrence, if any.
    pub strike_date: Option<String>,
    /// Period of the event, if any.
    pub strike_period: Option<String>,
}

/// A series: frequency, title, category, settlement sources and contract
/// URL.
#[derive(Debug)]
pub struct Series {
    /// Unique ticker identifying the series.
    pub ticker: String,
    /// Frequency of the series.
    pub frequency: String,
    /// Title of the series.
    pub title: String,
    /// Category of the series.
    pub category: String,
    /// Tags associated with the series.
    pub tags: Vec<String>,
    /// Sources used for settling the series.
    pub settlement_sources: Vec<SettlementSource>,
    /// URL of the contract related to the series.
    pub contract_url: String,
}

/// A source used for settling a series.
#[derive(Debug)]
pub struct SettlementSource {
    /// URL of the settlement source.
    pub url: String,
    /// Name of the settlement source.
    pub name: String,
}

/// The order book of a market: two level lists, one per side, each level a
/// price/quantity pair.
#[derive(Debug)]
pub struct Orderbook {
    /// Levels for the 'Yes' option; each inner list carries price and
    /// quantity.
    pub yes: Option<Vec<Vec<i32>>>,
    /// Levels for the 'No' option; each inner list carries price and
    /// quantity.
    pub no: Option<Vec<Vec<i32>>>,
}

/// A snapshot of market data at one time.
#[derive(Debug)]
pub struct Snapshot {
    /// Last traded price for the 'Yes' option.
    pub yes_price: i32,
    /// Current highest bid price for the 'Yes' option.
    pub yes_bid: i32,
    /// Current lowest ask price for the 'Yes' option.
    pub yes_ask: i32,
    /// Current highest bid price for the 'No' option.
    pub no_bid: i32,
    /// Current lowest ask price for the 'No' option.
    pub no_ask: i32,
    /// Total trading volume at the snapshot time.
    pub volume: i32,
    /// Open interest at the snapshot time.
    pub open_interest: i32,
    /// Timestamp of the snapshot.
    pub ts: i64,
}

/// A single trade: identity, taker side, ticker and executed prices.
#[derive(Debug)]
pub struct Trade {
    /// Unique identifier of the trade.
    pub trade_id: String,
    /// Side of the taker in the trade.
    pub taker_side: String,
    /// Ticker of the market in which the trade occurred.
    pub ticker: String,
    /// Number of contracts traded.
    pub count: i32,
    /// Executed price for the 'Yes' option.
    pub yes_price: i32,
    /// Executed price for the 'No' option.
    pub no_price: i32,
    /// Time when the trade was created.
    pub created_time: String,
}

/// The query parameters of the markets listing, in the order they are sent.
pub open spec fn markets_query(
    limit: Option<i64>,
    cursor: Option<Seq<char>>,
    event_ticker: Option<Seq<char>>,
    series_ticker: Option<Seq<char>>,
    max_close_ts: Option<i64>,
    min_close_ts: Option<i64>,
    status: Option<Seq<char>>,
    tickers: Option<Seq<char>>,
) -> Seq<(Seq<char>, Seq<char>)> {
    i64_param("limit"@, limit) + str_param("event_ticker"@, event_ticker) + str_param(
        "series_ticker"@,
        series_ticker,
    ) + str_param("status"@, status) + str_param("cursor"@, cursor) + i64_param(
        "min_close_ts"@,
        min_close_ts,
    ) + i64_param("max_close_ts"@, max_close_ts) + str_param("tickers"@, tickers)
}

/// The query parameters of the events listing, in the order they are sent.
pub open spec fn events_query(
    limit: Option<i64>,
    cursor: Option<Seq<char>>,
    status: Option<Seq<char>>,
    series_ticker: Option<Seq<char>>,
    with_nested_markets: Option<bool>,
) -> Seq<(Seq<char>, Seq<char>)> {
    i64_param("limit"@, limit) + str_param("status"@, status) + str_param("cursor"@, cursor)
        + str_param("series_ticker"@, series_ticker) + bool_param(
        "with_nested_markets"@,
        with_nested_markets,
    )
}

/// The query parameters of the market-history listing, in the order they
/// are sent.
pub open spec fn history_query(
    limit: Option<i32>,
    cursor: Option<Seq<char>>,
    min_ts: Option<i64>,
    max_ts: Option<i64>,
) -> Seq<(Seq<char>, Seq<char>)> {
    i32_param("limit"@, limit) + str_param("cursor"@, cursor) + i64_param("min_ts"@, min_ts)
        + i64_param("max_ts"@, max_ts)
}

/// The query parameters of the trades listing, in the order they are sent.
pub open spec fn trades_query(
    cursor: Option<Seq<char>>,
    limit: Option<i32>,
    ticker: Option<Seq<char>>,
    min_ts: Option<i64>,
    max_ts: Option<i64>,
) -> Seq<(Seq<char>, Seq<char>)> {
    i32_param("limit"@, limit) + str_param("cursor"@, cursor) + i64_param("min_ts"@, min_ts)
        + i64_param("max_ts"@, max_ts) + str_param("ticker"@, ticker)
}

impl Kalshi {
    /// Builds the request for one event: a public GET of
    /// `/events/{ticker}`, with the nested-markets flag appended only when
    /// supplied.
    pub fn single_event_request(
        &self,
        event_ticker: &String,
        with_nested_markets: Option<bool>,
    ) -> (r: Result<ApiRequest, KalshiError>)
        ensures
            r is Ok <==> url_parse_ok(self.base_url@ + "/events/"@ + event_ticker@),
            r matches Ok(req) ==> req.method == HttpMethod::Get && req.bearer is None && req.url@
                == url_with_params(
                self.base_url@ + "/events/"@ + event_ticker@,
                bool_param("with_nested_markets"@, with_nested_markets),
            ),
            r matches Err(e) ==> (e matches KalshiError::InternalError(m) && m@
                == internal_parse_error_text()),
    {
        let base = self.base_url.clone().concat("/events/").concat(event_ticker.as_str());
        let mut params: Vec<(String, String)> = Vec::new();
        add_bool_param(&mut params, "with_nested_markets", with_nested_markets);
        proof {
            assert(params_view(params@) =~= bool_param(
                "with_nested_markets"@,
                with_nested_markets,
            ));
        }
        let url = build_url_with_params(base.as_str(), &params)?;
        Ok(ApiRequest { method: HttpMethod::Get, url, bearer: None })
    }

    /// Builds the request for one market: a public GET of
    /// `/markets/{ticker}`.
    pub fn single_market_request(&self, ticker: &String) -> (r: ApiRequest)
        ensures
            r.method == HttpMethod::Get,
            r.url@ == self.base_url@ + "/markets/"@ + ticker@,
            r.bearer is None,
    {
        ApiRequest {
            method: HttpMethod::Get,
            url: self.base_url.clone().concat("/markets/").concat(ticker.as_str()),
            bearer: None,
        }
    }

    /// Builds the request for a page of markets: an authenticated GET of
    /// `/markets`, with only the supplied filters appended.  Before login
    /// it is rejected locally.
    pub fn multiple_markets_request(
        &self,
        limit: Option<i64>,
        cursor: Option<String>,
        event_ticker: Option<String>,
        series_ticker: Option<String>,
        max_close_ts: Option<i64>,
        min_close_ts: Option<i64>,
        status: Option<String>,
        tickers: Option<String>,
    ) -> (r: Result<ApiRequest, KalshiError>)
        ensures
            r is Ok <==> self.spec_authenticated() && url_parse_ok(self.base_url@ + "/markets"@),
            !self.spec_authenticated() ==> (r matches Err(e) && is_auth_error(&e)),
            r matches Ok(req) ==> self.spec_authenticated() && req.method == HttpMethod::Get && (
            req.bearer matches Some(t) && t@ == self.spec_token()) && req.url@ == url_with_params(
                self.base_url@ + "/markets"@,
                markets_query(
                    limit,
                    cursor.deep_view(),
                    event_ticker.deep_view(),
                    series_ticker.deep_view(),
                    max_close_ts,
                    min_close_ts,
                    status.deep_view(),
                    tickers.deep_view(),
                ),
            ),
            self.spec_authenticated() ==> (r matches Err(e) ==> (e matches
                KalshiError::InternalError(m) && m@ == internal_parse_error_text())),
    {
        let token = self.require_token()?;
        let base = self.base_url.clone().concat("/markets");
        let mut params: Vec<(String, String)> = Vec::new();
        add_i64_param(&mut params, "limit", limit);
        add_string_param(&mut params, "event_ticker", event_ticker);
        add_string_param(&mut params, "series_ticker", series_ticker);
        add_string_param(&mut params, "status", status);
        add_string_param(&mut params, "cursor", cursor);
        add_i64_param(&mut params, "min_close_ts", min_close_ts);
        add_i64_param(&mut params, "max_close_ts", max_close_ts);
        add_string_param(&mut params, "tickers", tickers);
        proof {
            assert(params_view(params@) =~= markets_query(
                limit,
                cursor.deep_view(),
                event_ticker.deep_view(),
                series_ticker.deep_view(),
                max_close_ts,
                min_close_ts,
                status.deep_view(),
                tickers.deep_view(),
            ));
        }
        let url = build_url_with_params(base.as_str(), &params)?;
        Ok(ApiRequest { method: HttpMethod::Get, url, bearer: Some(token) })
    }

    /// Builds the request for a page of events: a public GET of `/events`,
    /// with only the supplied filters appended.
    pub fn multiple_events_request(
        &self,
        limit: Option<i64>,
        cursor: Option<String>,
        status: Option<String>,
        series_ticker: Option<String>,
        with_nested_markets: Option<bool>,
    ) -> (r: Result<ApiRequest, KalshiError>)
        ensures
            r is Ok <==> url_parse_ok(self.base_url@ + "/events"@),
            r matches Ok(req) ==> req.method == HttpMethod::Get && req.bearer is None && req.url@
                == url_with_params(
                self.base_url@ + "/events"@,
                events_query(
                    limit,
                    cursor.deep_view(),
                    status.deep_view(),
                    series_ticker.deep_view(),
                    with_nested_markets,
                ),
            ),
            r matches Err(e) ==> (e matches KalshiError::InternalError(m) && m@
                == internal_parse_error_text()),
    {
        let base = self.base_url.clone().concat("/events");
        let mut params: Vec<(String, String)> = Vec::new();
        add_i64_param(&mut params, "limit", limit);
        add_string_param(&mut params, "status", status);
        add_string_param(&mut params, "cursor", cursor);
        add_string_param(&mut params, "series_ticker", series_ticker);
        add_bool_param(&mut params, "with_nested_markets", with_nested_markets);
        proof {
            assert(params_view(params@) =~= events_query(
                limit,
                cursor.deep_view(),
                status.deep_view(),
                series_ticker.deep_view(),
                with_nested_markets,
            ));
        }
        let url = build_url_with_params(base.as_str(), &params)?;
        Ok(ApiRequest { method: HttpMethod::Get, url, bearer: None })
    }

    /// Builds the request for one series: a public GET of
    /// `/series/{ticker}`.
    pub fn series_request(&self, ticker: &String) -> (r: ApiRequest)
        ensures
            r.method == HttpMethod::Get,
            r.url@ == self.base_url@ + "/series/"@ + ticker@,
            r.bearer is None,
    {
        ApiRequest {
            method: HttpMethod::Get,
            url: self.base_url.clone().concat("/series/").concat(ticker.as_str()),
            bearer: None,
        }
    }

    /// Builds the request for a market's order book: an authenticated GET
    /// of `/markets/{ticker}/orderbook`, with the depth appended only when
    /// supplied.  Before login it is rejected locally.
    pub fn market_orderbook_request(&self, ticker: &String, depth: Option<i32>) -> (r: Result<
        ApiRequest,
        KalshiError,
    >)
        ensures
            r is Ok <==> self.spec_authenticated() && url_parse_ok(self.base_url@ + "/markets/"@ + ticker@ + "/orderbook"@),
            !self.spec_authenticated() ==> (r matches Err(e) && is_auth_error(&e)),
            r matches Ok(req) ==> self.spec_authenticated() && req.method == HttpMethod::Get && (
            req.bearer matches Some(t) && t@ == self.spec_token()) && req.url@ == url_with_params(
                self.base_url@ + "/markets/"@ + ticker@ + "/orderbook"@,
                i32_param("depth"@, depth),
            ),
            self.spec_authenticated() ==> (r matches Err(e) ==> (e matches
                KalshiError::InternalError(m) && m@ == internal_parse_error_text())),
    {
        let token = self.require_token()?;
        let base = self.base_url.clone().concat("/markets/").concat(ticker.as_str()).concat(
            "/orderbook",
        );
        let mut params: Vec<(String, String)> = Vec::new();
        add_i32_param(&mut params, "depth", depth);
        proof {
            assert(params_view(params@) =~= i32_param("depth"@, depth));
        }
        let url = build_url_with_params(base.as_str(), &params)?;
        Ok(ApiRequest { method: HttpMethod::Get, url, bearer: Some(token) })
    }

    /// Builds the request for a market's history: an authenticated GET of
    /// `/markets/{ticker}/history`, with only the supplied filters
    /// appended.  Before login it is rejected locally.
    pub fn market_history_request(
        &self,
        ticker: &String,
        limit: Option<i32>,
        cursor: Option<String>,
        min_ts: Option<i64>,
        max_ts: Option<i64>,
    ) -> (r: Result<ApiRequest, KalshiError>)
        ensures
            r is Ok <==> self.spec_authenticated() && url_parse_ok(self.base_url@ + "/markets/"@ + ticker@ + "/history"@),
            !self.spec_authenticated() ==> (r matches Err(e) && is_auth_error(&e)),
            r matches Ok(req) ==> self.spec_authenticated() && req.method == HttpMethod::Get && (
            req.bearer matches Some(t) && t@ == self.spec_token()) && req.url@ == url_with_params(
                self.base_url@ + "/markets/"@ + ticker@ + "/history"@,
                history_query(limit, cursor.deep_view(), min_ts, max_ts),
            ),
            self.spec_authenticated() ==> (r matches Err(e) ==> (e matches
                KalshiError::InternalError(m) && m@ == internal_parse_error_text())),
    {
        let token = self.require_token()?;
        let base = self.base_url.clone().concat("/markets/").concat(ticker.as_str()).concat(
            "/history",
        );
        let mut params: Vec<(String, String)> = Vec::new();
        add_i32_param(&mut params, "limit", limit);
        add_string_param(&mut params, "cursor", cursor);
        add_i64_param(&mut params, "min_ts", min_ts);
        add_i64_param(&mut params, "max_ts", max_ts);
        proof {
            assert(params_view(params@) =~= history_query(
                limit,
                cursor.deep_view(),
                min_ts,
                max_ts,
            ));
        }
        let url = build_url_with_params(base.as_str(), &params)?;
        Ok(ApiRequest { method: HttpMethod::Get, url, bearer: Some(token) })
    }

    /// Builds the request for a page of trades: a public GET of
    /// `/markets/trades`, with only the supplied filters appended.
    pub fn trades_request(
        &self,
        cursor: Option<String>,
        limit: Option<i32>,
        ticker: Option<String>,
        min_ts: Option<i64>,
        max_ts: Option<i64>,
    ) -> (r: Result<ApiRequest, KalshiError>)
        ensures
            r is Ok <==> url_parse_ok(self.base_url@ + "/markets/trades"@),
            r matches Ok(req) ==> req.method == HttpMethod::Get && req.bearer is None && req.url@
                == url_with_params(
                self.base_url@ + "/markets/trades"@,
                trades_query(cursor.deep_view(), limit, ticker.deep_view(), min_ts, max_ts),
            ),
            r matches Err(e) ==> (e matches KalshiError::InternalError(m) && m@
                == internal_parse_error_text()),
    {
        let base = self.base_url.clone().concat("/markets/trades");
        let mut params: Vec<(String, String)> = Vec::new();
        add_i32_param(&mut params, "limit", limit);
        add_string_param(&mut params, "cursor", cursor);
        add_i64_param(&mut params, "min_ts", min_ts);
        add_i64_param(&mut params, "max_ts", max_ts);
        add_string_param(&mut params, "ticker", ticker);
        proof {
            assert(params_view(params@) =~= trades_query(
                cursor.deep_view(),
                limit,
                ticker.deep_view(),
                min_ts,
                max_ts,
            ));
        }
        let url = build_url_with_params(base.as_str(), &params)?;
        Ok(ApiRequest { method: HttpMethod::Get, url, bearer: None })
    }
}

} // verus!
