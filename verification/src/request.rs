//! Assembly of API requests: query-parameter lists and fully built URLs.
//!
//! A request is described as a plain value: method, URL, and the bearer
//! header to attach, if any.  Optional query parameters are appended only
//! when the caller supplies a value, each rendered in its usual text form.

use vstd::prelude::*;
use vstd::string::StringExecFns;
use crate::kalshi_error::KalshiError;
use crate::textfmt::{bool_text, bool_to_dec_string, dec_int, i32_to_dec_string, i64_to_dec_string};

verus! {

/// The HTTP method of a request.
#[derive(Debug, Clone, Copy, PartialEq, Eq, Structural)]
pub enum HttpMethod {
    Get,
    Post,
    Delete,
}

/// A fully assembled request, ready for a transport to send.
#[derive(Debug)]
pub struct ApiRequest {
    /// The HTTP method to use.
    pub method: HttpMethod,
    /// The complete URL, query string included.
    pub url: String,
    /// The value of the `Authorization` header, when the endpoint needs one.
    pub bearer: Option<String>,
}

/// The characters of a list of name/value query-parameter pairs.
pub open spec fn params_view(ps: Seq<(String, String)>) -> Seq<(Seq<char>, Seq<char>)> {
    ps.map_values(|p: (String, String)| (p.0@, p.1@))
}

/// The pairs contributed by an optional string parameter: one pair when the
/// value is present, none otherwise.
pub open spec fn str_param(name: Seq<char>, v: Option<Seq<char>>) -> Seq<(Seq<char>, Seq<char>)> {
    match v {
        Some(s) => seq![(name, s)],
        None => Seq::empty(),
    }
}

/// The pairs contributed by an optional 64-bit integer parameter.
pub open spec fn i64_param(name: Seq<char>, v: Option<i64>) -> Seq<(Seq<char>, Seq<char>)> {
    match v {
        Some(n) => seq![(name, dec_int(n as int))],
        None => Seq::empty(),
    }
}

/// The pairs contributed by an optional 32-bit integer parameter.
pub open spec fn i32_param(name: Seq<char>, v: Option<i32>) -> Seq<(Seq<char>, Seq<char>)> {
    match v {
        Some(n) => seq![(name, dec_int(n as int))],
        None => Seq::empty(),
    }
}

/// The pairs contributed by an optional boolean parameter.
pub open spec fn bool_param(name: Seq<char>, v: Option<bool>) -> Seq<(Seq<char>, Seq<char>)> {
    match v {
        Some(b) => seq![(name, bool_text(b))],
        None => Seq::empty(),
    }
}

/// Appends an optional string parameter to a parameter list.
pub fn add_string_param(params: &mut Vec<(String, String)>, name: &str, value: Option<String>)
    ensures
        params_view(final(params)@) == params_view(old(params)@) + str_param(
            name@,
            value.deep_view(),
        ),
{
    match value {
        Some(s) => {
            let ghost before = params@;
            let ghost entry = (name@, s@);
            params.push((String::from_str(name), s));
            proof {
                assert(params_view(params@) =~= params_view(before) + seq![entry]);
            }
        },
        None => {
            proof {
                assert(params_view(params@) =~= params_view(params@) + Seq::empty());
            }
        },
    }
}

/// Appends an optional 64-bit integer parameter to a parameter list.
pub fn add_i64_param(params: &mut Vec<(String, String)>, name: &str, value: Option<i64>)
    ensures
        params_view(final(params)@) == params_view(old(params)@) + i64_param(name@, value),
{
    match value {
        Some(n) => {
            let ghost before = params@;
            let rendered = i64_to_dec_string(n);
            let ghost entry = (name@, rendered@);
            params.push((String::from_str(name), rendered));
            proof {
                assert(params_view(params@) =~= params_view(before) + seq![entry]);
            }
        },
        None => {
            proof {
                assert(params_view(params@) =~= params_view(params@) + Seq::empty());
            }
        },
    }
}

/// Appends an optional 32-bit integer parameter to a parameter list.
pub fn add_i32_param(params: &mut Vec<(String, String)>, name: &str, value: Option<i32>)
    ensures
        params_view(final(params)@) == params_view(old(params)@) + i32_param(name@, value),
{
    match value {
        Some(n) => {
            let ghost before = params@;
            let rendered = i32_to_dec_string(n);
            let ghost entry = (name@, rendered@);
            params.push((String::from_str(name), rendered));
            proof {
                assert(params_view(params@) =~= params_view(before) + seq![entry]);
            }
        },
        None => {
            proof {
                assert(params_view(params@) =~= params_view(params@) + Seq::empty());
            }
        },
    }
}

/// Appends an optional boolean parameter to a parameter list.
pub fn add_bool_param(params: &mut Vec<(String, String)>, name: &str, value: Option<bool>)
    ensures
        params_view(final(params)@) == params_view(old(params)@) + bool_param(name@, value),
{
    match value {
        Some(b) => {
            let ghost before = params@;
            let rendered = bool_to_dec_string(b);
            let ghost entry = (name@, rendered@);
            params.push((String::from_str(name), rendered));
            proof {
                assert(params_view(params@) =~= params_view(before) + seq![entry]);
            }
        },
        None => {
            proof {
                assert(params_view(params@) =~= params_view(params@) + Seq::empty());
            }
        },
    }
}

/// The URL obtained by parsing a base URL and appending each pair as an
/// encoded query parameter.  Named after the outside routine that computes
/// it; the result depends on the arguments alone.
pub uninterp spec fn url_with_params(base: Seq<char>, params: Seq<(Seq<char>, Seq<char>)>) -> Seq<
    char,
>;

/// Whether the outside URL parser accepts a base string as an absolute URL.
/// Appending query pairs cannot fail, so success depends on the base alone.
pub uninterp spec fn url_parse_ok(base: Seq<char>) -> bool;

/// Relies on reqwest::Url::parse_with_params (url::Url): parses `base` as an
/// absolute URL, appends each pair to its query string, and serializes the
/// result; fails exactly when `base` is not a parseable absolute URL.
#[verifier::external_body]
fn parse_url_with_params(base: &str, params: &Vec<(String, String)>) -> (r: Option<String>)
    ensures
        r is Some <==> url_parse_ok(base@),
        r matches Some(u) ==> u@ == url_with_params(base@, params_view(params@)),
{
    match reqwest::Url::parse_with_params(base, params) {
        Ok(u) => Some(String::from(u)),
        Err(_) => None,
    }
}

/// Message of the internal error raised when a URL fails to parse.
pub open spec fn internal_parse_error_text() -> Seq<char> {
    "Internal Parse Error, please contact developer!"@
}

/// Builds the full URL for a base and a parameter list, surfacing a parse
/// failure as a typed internal error instead of aborting.
pub fn build_url_with_params(base: &str, params: &Vec<(String, String)>) -> (r: Result<
    String,
    KalshiError,
>)
    ensures
        r is Ok <==> url_parse_ok(base@),
        r matches Ok(u) ==> u@ == url_with_params(base@, params_view(params@)),
        r matches Err(e) ==> (e matches KalshiError::InternalError(m) && m@
            == internal_parse_error_text()),
{
    match parse_url_with_params(base, params) {
        Some(u) => Ok(u),
        None => Err(
            KalshiError::InternalError(
                String::from_str("Internal Parse Error, please contact developer!"),
            ),
        ),
    }
}

} // verus!
