//! The base URL of each trading environment.

use vstd::prelude::*;
use vstd::string::StringExecFns;
use crate::TradingEnvironment;

verus! {

/// The characters of the base URL that a trading environment selects.
pub open spec fn spec_base_url(trading_env: TradingEnvironment) -> Seq<char> {
    match trading_env {
        TradingEnvironment::LiveMarketMode => "https://trading-api.kalshi.com/trade-api/v2"@,
        TradingEnvironment::DemoMode => "https://demo-api.kalshi.co/trade-api/v2"@,
    }
}

/// Selects the base URL for the given trading environment.
pub fn build_base_url(trading_env: TradingEnvironment) -> (r: &'static str)
    ensures
        r@ == spec_base_url(trading_env),
{
    match trading_env {
        TradingEnvironment::LiveMarketMode => "https://trading-api.kalshi.com/trade-api/v2",
        TradingEnvironment::DemoMode => "https://demo-api.kalshi.co/trade-api/v2",
    }
}

/// The base URL for the given trading environment, as an owned string.
pub fn base_url_string(trading_env: TradingEnvironment) -> (r: String)
    ensures
        r@ == spec_base_url(trading_env),
{
    String::from_str(build_base_url(trading_env))
}

} // verus!
