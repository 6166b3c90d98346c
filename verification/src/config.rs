//! The server's configuration.

use vstd::prelude::*;

use crate::error::AppError;
use crate::text;

verus! {

/// The server's configuration.
#[derive(Debug)]
pub struct Config {
    pub token: String,
    pub service: String,
    pub owner: String,
    pub repo: String,
    pub base_url: String,
    pub max_retries: u32,
    pub poll_delay_ms: u64,
}

/// The raw settings a configuration is made from, one per environment
/// variable (`CODECOV_TOKEN`, `CODECOV_OWNER`, `CODECOV_REPO`,
/// `CODECOV_SERVICE`, `CODECOV_BASE_URL`, `CODECOV_MAX_RETRIES`,
/// `CODECOV_POLL_DELAY_MS`); `None` where the variable is not set.
#[derive(Debug)]
pub struct ConfigSettings {
    pub token: Option<String>,
    pub owner: Option<String>,
    pub repo: Option<String>,
    pub service: Option<String>,
    pub base_url: Option<String>,
    pub max_retries: Option<String>,
    pub poll_delay_ms: Option<String>,
}

/// `r` is a configuration error with the message `m`.
pub open spec fn fails_with_config_error<T>(r: Result<T, AppError>, m: Seq<char>) -> bool {
    r matches Err(AppError::Config(msg)) && msg@ == m
}

/// A numeric setting: its parsed value, or `default` when it is absent or
/// does not parse as a number up to `max`.
pub open spec fn numeric_setting(v: Option<String>, max: nat, default: nat) -> nat {
    match v {
        Some(s) => match text::parse_unsigned_spec(s@, max) {
            Some(n) => n,
            None => default,
        },
        None => default,
    }
}

/// A text setting: its value, or `default` when it is absent.
pub open spec fn text_setting(v: Option<String>, default: Seq<char>) -> Seq<char> {
    match v {
        Some(s) => s@,
        None => default,
    }
}

/// Reads a numeric setting, falling back to `default`.
fn numeric_or(v: Option<String>, max: u64, default: u64) -> (r: u64)
    requires
        default <= max,
    ensures
        r as nat == numeric_setting(v, max as nat, default as nat),
        r <= max,
{
    match v {
        Some(s) => match text::parse_unsigned(s.as_str(), max) {
            Some(n) => n,
            None => default,
        },
        None => default,
    }
}

/// Reads a text setting, falling back to `default`.
fn text_or(v: Option<String>, default: &str) -> (r: String)
    ensures
        r@ == text_setting(v, default@),
{
    match v {
        Some(s) => s,
        None => String::from_str(default),
    }
}

impl Config {
    /// Builds the configuration from its raw settings.  The token, owner
    /// and repo are required, and the token must not be blank; the service
    /// defaults to `github`, the base URL to `https://api.codecov.io`, the
    /// retry count to 5 and the poll delay to 2000 ms.
    pub fn from_settings(settings: ConfigSettings) -> (r: Result<Config, AppError>)
        ensures
            settings.token is None ==> fails_with_config_error(r, "CODECOV_TOKEN is required"@),
            settings.token matches Some(t) && text::is_blank_spec(t@) ==> fails_with_config_error(r, "CODECOV_TOKEN cannot be empty"@),
            settings.token matches Some(t) && !text::is_blank_spec(t@) && settings.owner is None ==> fails_with_config_error(r, "CODECOV_OWNER is required"@),
            settings.token matches Some(t) && !text::is_blank_spec(t@) && settings.owner is Some
                && settings.repo is None ==> fails_with_config_error(r, "CODECOV_REPO is required"@),
            r is Ok <==> (settings.token matches Some(t) && !text::is_blank_spec(t@) && settings.owner is Some
                && settings.repo is Some),
            r matches Ok(c) ==> {
                &&& c.token@ == settings.token->0@
                &&& c.owner@ == settings.owner->0@
                &&& c.repo@ == settings.repo->0@
                &&& c.service@ == text_setting(settings.service, "github"@)
                &&& c.base_url@ == text_setting(settings.base_url, "https://api.codecov.io"@)
                &&& c.max_retries as nat == numeric_setting(settings.max_retries, u32::MAX as nat, 5)
                &&& c.poll_delay_ms as nat == numeric_setting(settings.poll_delay_ms, u64::MAX as nat, 2000)
            },
    {
        let token = match settings.token {
            Some(t) => t,
            None => {
                return Err(AppError::Config(String::from_str("CODECOV_TOKEN is required")));
            },
        };
        if text::is_blank(token.as_str()) {
            return Err(AppError::Config(String::from_str("CODECOV_TOKEN cannot be empty")));
        }
        let owner = match settings.owner {
            Some(o) => o,
            None => {
                return Err(AppError::Config(String::from_str("CODECOV_OWNER is required")));
            },
        };
        let repo = match settings.repo {
            Some(r) => r,
            None => {
                return Err(AppError::Config(String::from_str("CODECOV_REPO is required")));
            },
        };
        let service = text_or(settings.service, "github");
        let base_url = text_or(settings.base_url, "https://api.codecov.io");
        let max_retries = numeric_or(settings.max_retries, 4294967295, 5) as u32;
        let poll_delay_ms = numeric_or(settings.poll_delay_ms, 18446744073709551615, 2000);
        Ok(Config { token, service, owner, repo, base_url, max_retries, poll_delay_ms })
    }
}

} // verus!
