//! Login and logout: building the requests and applying a successful login
//! to the session.

use vstd::prelude::*;
use vstd::string::StringExecFns;
use crate::Kalshi;
use crate::kalshi_error::{KalshiError, is_auth_error};
use crate::request::{ApiRequest, HttpMethod};

verus! {

/// The credentials posted to the login endpoint.
#[derive(Debug)]
pub struct LoginPayload {
    /// The user's email address.
    pub email: String,
    /// The user's password.
    pub password: String,
}

impl Kalshi {
    /// Builds the login request: a POST of the credentials to `/login`,
    /// with no authentication attached.
    pub fn login_request(&self, user: &str, password: &str) -> (r: (ApiRequest, LoginPayload))
        ensures
            r.0.method == HttpMethod::Post,
            r.0.url@ == self.base_url@ + "/login"@,
            r.0.bearer is None,
            r.1.email@ == user@,
            r.1.password@ == password@,
    {
        let request = ApiRequest {
            method: HttpMethod::Post,
            url: self.base_url.clone().concat("/login"),
            bearer: None,
        };
        let payload = LoginPayload {
            email: String::from_str(user),
            password: String::from_str(password),
        };
        (request, payload)
    }

    /// Stores the outcome of a successful login: the bearer-prefixed token
    /// and the member id.  The base URL is untouched.
    pub fn apply_login(&mut self, member_id: String, token: String)
        ensures
            final(self).base_url == old(self).base_url,
            final(self).curr_token matches Some(t) && t@ == "Bearer "@ + token@,
            final(self).member_id matches Some(m) && m == member_id,
            final(self).spec_authenticated(),
    {
        self.curr_token = Some(String::from_str("Bearer ").concat(token.as_str()));
        self.member_id = Some(member_id);
    }

    /// Clears the stored token and member id after a successful remote
    /// sign-out, so the session no longer passes the authentication guard.
    /// The base URL is untouched.
    pub fn apply_logout(&mut self)
        ensures
            final(self).base_url == old(self).base_url,
            final(self).curr_token is None,
            final(self).member_id is None,
            !final(self).spec_authenticated(),
    {
        self.curr_token = None;
        self.member_id = None;
    }

    /// Builds the logout request: an authenticated POST to `/logout`.
    /// Before login it is rejected locally, without any network call.
    pub fn logout_request(&self) -> (r: Result<ApiRequest, KalshiError>)
        ensures
            r is Ok <==> self.spec_authenticated(),
            r matches Ok(req) ==> req.method == HttpMethod::Post && req.url@ == self.base_url@
                + "/logout"@ && (req.bearer matches Some(t) && t@ == self.spec_token()),
            r matches Err(e) ==> is_auth_error(&e),
    {
        let token = self.require_token()?;
        Ok(
            ApiRequest {
                method: HttpMethod::Post,
                url: self.base_url.clone().concat("/logout"),
                bearer: Some(token),
            },
        )
    }
}

} // verus!
