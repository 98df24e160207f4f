//! OAuth token exchange: the request the exchanger sends to the
//! provider's token endpoint.
//!
//! The outbound POST itself is performed by the transport layer outside
//! the library; this module builds, with an exact contract, the
//! form-encoded parameter list that one exchange attempt carries, and the
//! bearer header value derived from the returned access token.

use vstd::prelude::*;
use vstd::string::StringExecFns;

use crate::config::AppConfig;

verus! {

/// Why a token exchange failed: the single outbound request did not
/// complete (or returned a non-success status), or its response body did
/// not match the expected shape. No retry is performed either way.
#[derive(Debug)]
pub enum TokenError {
    Transport,
    Parse,
}

/// The provider's fixed token endpoint.
pub fn token_endpoint() -> (r: &'static str)
    ensures
        r@ == "https://www.patreon.com/api/oauth2/token"@,
{
    "https://www.patreon.com/api/oauth2/token"
}

/// The form parameters of one token-exchange request: the authorization
/// code, the fixed grant type, and the configured client credentials, in
/// this order.
pub fn token_request_params(config: &AppConfig, code: String) -> (r: Vec<(String, String)>)
    ensures
        r@.len() == 5,
        r@[0].0@ == "code"@ && r@[0].1 == code,
        r@[1].0@ == "grant_type"@ && r@[1].1@ == "authorization_code"@,
        r@[2].0@ == "client_id"@ && r@[2].1 == config.client_id,
        r@[3].0@ == "client_secret"@ && r@[3].1 == config.client_secret,
        r@[4].0@ == "redirect_uri"@ && r@[4].1 == config.redirect_uri,
{
    let mut params: Vec<(String, String)> = Vec::new();
    params.push(("code".to_owned(), code));
    params.push(("grant_type".to_owned(), "authorization_code".to_owned()));
    params.push(("client_id".to_owned(), config.client_id.clone()));
    params.push(("client_secret".to_owned(), config.client_secret.clone()));
    params.push(("redirect_uri".to_owned(), config.redirect_uri.clone()));
    params
}

/// The `Authorization` header value carrying a bearer access token.
pub fn bearer_header_value(access_token: &str) -> (r: String)
    ensures
        r@ == "Bearer "@ + access_token@,
{
    let mut value: String = "Bearer ".to_owned();
    value.append(access_token);
    value
}

} // verus!
