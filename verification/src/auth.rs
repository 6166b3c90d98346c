//! The authenticated HTTP client.

use vstd::prelude::*;

use crate::config::Config;
use crate::error::AppError;

verus! {

/// `reqwest`'s asynchronous HTTP client.
#[verifier::external_type_specification]
#[verifier::external_body]
pub struct ExClient(reqwest::Client);

/// The user agent sent with every request.
pub const USER_AGENT: &'static str = "codecov-mcp/0.1.0";

/// `c` may stand in an HTTP header value: a tab, or any character from the
/// space up, except DEL (every byte of a multi-byte character is at least
/// 0x80, and such bytes are accepted).
pub open spec fn header_char_ok(c: char) -> bool {
    c == '\t' || (' ' <= c && c != '\u{7f}')
}

/// Every character of `s` may stand in an HTTP header value.
pub open spec fn header_text_ok(s: Seq<char>) -> bool {
    forall|i: int| 0 <= i < s.len() ==> header_char_ok(#[trigger] s[i])
}

/// The `Authorization` header value for `token`.
pub open spec fn bearer_value(token: Seq<char>) -> Seq<char> {
    "bearer "@ + token
}

/// The `Authorization` header value for `token`: `bearer {token}`.
pub fn authorization_text(token: &str) -> (r: String)
    ensures
        r@ == bearer_value(token@),
{
    let mut r = String::from_str("bearer ");
    r.append(token);
    r
}

/// Builds an `AuthenticatedClient` around a `reqwest::Client` whose default
/// `Authorization` header is `authorization`, marked sensitive when
/// `sensitive` is set, and whose user agent is `user_agent`; the three
/// values are kept in the client's fields as they were handed to `reqwest`.
///
/// The header value goes through `http::HeaderValue::from_str`, which
/// accepts exactly the strings whose every byte is a tab or at least 32 and
/// not 127 (stated here per character); when it refuses, no client is built
/// and the answer is `Ok(None)`.  Otherwise the answer is what
/// `reqwest::ClientBuilder::build` gives, which fails when the resolver or a
/// TLS backend cannot be set up; nothing more is stated of the client.
#[verifier::external_body]
fn build_http_client(
    authorization: String,
    sensitive: bool,
    user_agent: String,
) -> (r: Result<Option<AuthenticatedClient>, reqwest::Error>)
    ensures
        r matches Ok(c) ==> (c is Some <==> header_text_ok(authorization@)),
        r is Err ==> header_text_ok(authorization@),
        r matches Ok(Some(a)) ==> {
            &&& a.sent_authorization() == authorization@
            &&& a.authorization_sensitive() == sensitive
            &&& a.sent_user_agent() == user_agent@
        },
{
    let mut value = match reqwest::header::HeaderValue::from_str(authorization.as_str()) {
        Ok(v) => v,
        Err(_) => return Ok(None),
    };
    value.set_sensitive(sensitive);
    let mut headers = reqwest::header::HeaderMap::new();
    headers.insert(reqwest::header::AUTHORIZATION, value);
    let builder = reqwest::Client::builder().default_headers(headers);
    let client = builder.user_agent(user_agent.as_str()).build()?;
    Ok(Some(AuthenticatedClient { client, authorization, sensitive, user_agent }))
}

/// An HTTP client that sends the bearer token as a sensitive default
/// `Authorization` header, so it never appears in logs, and the library's
/// user agent.  Its fields hold the values the HTTP client was built with.
pub struct AuthenticatedClient {
    client: reqwest::Client,
    authorization: String,
    sensitive: bool,
    user_agent: String,
}

impl AuthenticatedClient {
    /// The underlying HTTP client, in specifications.
    pub closed spec fn inner(&self) -> reqwest::Client {
        self.client
    }

    /// The `Authorization` header value the client sends.
    pub closed spec fn sent_authorization(&self) -> Seq<char> {
        self.authorization@
    }

    /// Whether that header value is marked sensitive.
    pub closed spec fn authorization_sensitive(&self) -> bool {
        self.sensitive
    }

    /// The user agent the client sends.
    pub closed spec fn sent_user_agent(&self) -> Seq<char> {
        self.user_agent@
    }

    /// Builds the client for `config.token`: it sends `bearer {token}` as a
    /// sensitive `Authorization` header and `codecov-mcp/0.1.0` as its user
    /// agent.  A token that cannot stand in an HTTP header is a
    /// configuration error.
    pub fn new(config: &Config) -> (r: Result<Self, AppError>)
        ensures
            !header_text_ok(bearer_value(config.token@)) <==> (r matches Err(AppError::Config(m))
                && m@ == "CODECOV_TOKEN contains characters invalid for HTTP headers"@),
            header_text_ok(bearer_value(config.token@)) ==> (r is Ok || r matches Err(AppError::Http(_))),
            r matches Ok(a) ==> {
                &&& a.sent_authorization() == bearer_value(config.token@)
                &&& a.authorization_sensitive()
                &&& a.sent_user_agent() == USER_AGENT@
            },
    {
        let authorization = authorization_text(config.token.as_str());
        match build_http_client(authorization, true, String::from_str(USER_AGENT)) {
            Ok(Some(client)) => Ok(client),
            Ok(None) => Err(
                AppError::Config(
                    String::from_str("CODECOV_TOKEN contains characters invalid for HTTP headers"),
                ),
            ),
            Err(e) => Err(AppError::Http(e)),
        }
    }

    /// The underlying HTTP client.
    pub fn client(&self) -> (r: &reqwest::Client)
        ensures
            *r == self.inner(),
    {
        &self.client
    }

    /// The `Authorization` header value the client sends.
    pub fn authorization(&self) -> (r: &str)
        ensures
            r@ == self.sent_authorization(),
    {
        self.authorization.as_str()
    }

    /// Whether the `Authorization` header value is marked sensitive.
    pub fn authorization_is_sensitive(&self) -> (r: bool)
        ensures
            r == self.authorization_sensitive(),
    {
        self.sensitive
    }

    /// The user agent the client sends.
    pub fn user_agent(&self) -> (r: &str)
        ensures
            r@ == self.sent_user_agent(),
    {
        self.user_agent.as_str()
    }
}

} // verus!
