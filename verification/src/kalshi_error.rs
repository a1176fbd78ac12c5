//! Error taxonomy of the client, and the classification of transport
//! failures into it.
//!
//! The transport layer reports a failed round trip as a plain
//! [`TransportFailure`] record (which kind of failure, the HTTP status if one
//! was seen, and a message).  [`classify_transport_failure`] turns that record
//! into the typed error that callers receive, by the status-code range.

use vstd::prelude::*;
use vstd::string::StringExecFns;
use crate::textfmt::{dec_nat, u16_to_dec_string};

verus! {

/// An error returned by any client operation.
#[derive(Debug)]
pub enum KalshiError {
    /// A failure of the HTTP round trip itself: connectivity, status, or
    /// response decoding.
    RequestError(RequestError),
    /// The caller violated a precondition; detected locally, before any
    /// network call.
    UserInputError(String),
    /// A state the design treats as unreachable; indicates a logic defect.
    InternalError(String),
}

/// The kinds of HTTP round-trip failure.
#[derive(Debug)]
pub enum RequestError {
    /// The body of a response could not be decoded.
    SerializationError(String),
    /// The server answered with a client-side status (4xx).
    ClientError(u16, String),
    /// The server answered with a server-side status (5xx), or the
    /// connection itself failed.
    ServerError(Option<u16>, String),
}

/// What the transport reports of a failed round trip, as plain values.
#[derive(Debug)]
pub struct TransportFailure {
    /// The response body could not be decoded into the expected shape.
    pub is_decode: bool,
    /// The failure was produced by an error status of a response.
    pub is_status: bool,
    /// The status code of the response, where one was received.
    pub status: Option<u16>,
    /// The transport's own description of the failure.
    pub message: String,
}

/// The message of the error that every authenticated operation returns when
/// the session holds no token.
pub open spec fn not_logged_in_text() -> Seq<char> {
    "Not logged in, a valid token is required for requests that require authentication"@
}

/// Whether an error is the local not-logged-in rejection.
pub open spec fn is_auth_error(e: &KalshiError) -> bool {
    e matches KalshiError::UserInputError(m) && m@ == not_logged_in_text()
}

/// The not-logged-in rejection itself.
pub fn auth_error() -> (e: KalshiError)
    ensures
        is_auth_error(&e),
{
    KalshiError::UserInputError(
        String::from_str(
            "Not logged in, a valid token is required for requests that require authentication",
        ),
    )
}

/// A status code is a client-side error exactly when it lies in 400..=499.
pub open spec fn is_client_error_status(c: u16) -> bool {
    400 <= c <= 499
}

/// A status code is a server-side error exactly when it lies in 500..=599.
pub open spec fn is_server_error_status(c: u16) -> bool {
    500 <= c <= 599
}

/// Message of the defensive error for a reported error status outside both
/// error ranges.
pub open spec fn impossible_status_text() -> Seq<char> {
    "Theoretically Impossible Error. Internal code 1"@
}

/// Classifies a failed round trip into the error taxonomy:
/// decode failures first, then reported error statuses by range (4xx client,
/// 5xx server); every other failure of the round trip itself (a timeout, a
/// broken body, a refused connection) is server-side.  Only a reported error
/// status outside both error ranges, which the design asserts cannot happen,
/// becomes a defensive internal error.
pub fn classify_transport_failure(f: TransportFailure) -> (r: KalshiError)
    ensures
        f.is_decode ==> (r matches KalshiError::RequestError(RequestError::SerializationError(m))
            && m == f.message),
        !f.is_decode && f.is_status && f.status is Some && is_client_error_status(f.status->Some_0)
            ==> (r matches KalshiError::RequestError(RequestError::ClientError(c, m)) && c
            == f.status->Some_0 && m == f.message),
        !f.is_decode && f.is_status && f.status is Some && is_server_error_status(f.status->Some_0)
            ==> (r matches KalshiError::RequestError(RequestError::ServerError(c, m)) && c
            == f.status && m == f.message),
        !f.is_decode && f.is_status && f.status is Some && !is_client_error_status(
            f.status->Some_0,
        ) && !is_server_error_status(f.status->Some_0) ==> (r matches KalshiError::InternalError(m)
            && m@ == impossible_status_text()),
        !f.is_decode && f.is_status && f.status is None ==> (r matches KalshiError::RequestError(
            RequestError::ServerError(c, m),
        ) && c is None && m == f.message),
        !f.is_decode && !f.is_status ==> (r matches KalshiError::RequestError(
            RequestError::ServerError(c, m),
        ) && c is None && m == f.message),
{
    if f.is_decode {
        KalshiError::RequestError(RequestError::SerializationError(f.message))
    } else if f.is_status {
        match f.status {
            Some(status) => {
                if 400 <= status && status <= 499 {
                    KalshiError::RequestError(RequestError::ClientError(status, f.message))
                } else if 500 <= status && status <= 599 {
                    KalshiError::RequestError(RequestError::ServerError(Some(status), f.message))
                } else {
                    KalshiError::InternalError(
                        String::from_str("Theoretically Impossible Error. Internal code 1"),
                    )
                }
            },
            None => KalshiError::RequestError(RequestError::ServerError(None, f.message)),
        }
    } else {
        KalshiError::RequestError(RequestError::ServerError(None, f.message))
    }
}

impl RequestError {
    /// The characters that [`RequestError::message`] produces.
    pub open spec fn message_text(&self) -> Seq<char> {
        match self {
            RequestError::SerializationError(m) =>
                "Serialization Error. You connected successfully but either: Your inputs to a request were incorrect or the exchange is closed! "@
                + m@,
            RequestError::ClientError(c, _) => "Client Request Error, Status code: "@ + dec_nat(
                *c as nat,
            ),
            RequestError::ServerError(c, m) => {
                if c is Some {
                    "Server Request Error: Status code: "@ + dec_nat(c->Some_0 as nat)
                } else {
                    "Server Request Error: "@ + m@
                }
            },
        }
    }

    /// The human-readable description of a round-trip failure.
    pub fn message(&self) -> (r: String)
        ensures
            r@ == self.message_text(),
    {
        match self {
            RequestError::SerializationError(m) => String::from_str(
                "Serialization Error. You connected successfully but either: Your inputs to a request were incorrect or the exchange is closed! ",
            ).concat(m.as_str()),
            RequestError::ClientError(c, _) => String::from_str(
                "Client Request Error, Status code: ",
            ).concat(u16_to_dec_string(*c).as_str()),
            RequestError::ServerError(c, m) => {
                match c {
                    Some(status) => String::from_str(
                        "Server Request Error: Status code: ",
                    ).concat(u16_to_dec_string(*status).as_str()),
                    None => String::from_str("Server Request Error: ").concat(m.as_str()),
                }
            },
        }
    }
}

impl KalshiError {
    /// The characters that [`KalshiError::message`] produces.
    pub open spec fn message_text(&self) -> Seq<char> {
        match self {
            KalshiError::RequestError(e) => "HTTP Error: "@ + e.message_text(),
            KalshiError::UserInputError(m) => "User Input Error: "@ + m@,
            KalshiError::InternalError(m) =>
                "INTERNAL ERROR, PLEASE EMAIL DEVELOPER OR MAKE A NEW ISSUE ON THE CRATE'S REPOSITORY: https://github.com/dpeachpeach/kalshi-rust. Specific Error: "@
                + m@,
        }
    }

    /// The human-readable description of an error.
    pub fn message(&self) -> (r: String)
        ensures
            r@ == self.message_text(),
    {
        match self {
            KalshiError::RequestError(e) => String::from_str("HTTP Error: ").concat(
                e.message().as_str(),
            ),
            KalshiError::UserInputError(m) => String::from_str("User Input Error: ").concat(
                m.as_str(),
            ),
            KalshiError::InternalError(m) => String::from_str(
                "INTERNAL ERROR, PLEASE EMAIL DEVELOPER OR MAKE A NEW ISSUE ON THE CRATE'S REPOSITORY: https://github.com/dpeachpeach/kalshi-rust. Specific Error: ",
            ).concat(m.as_str()),
        }
    }
}

} // verus!
