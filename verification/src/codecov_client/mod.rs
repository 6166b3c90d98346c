//! The Codecov API client: where requests go and how answers are read.

pub mod commits;
pub mod compare;

use vstd::prelude::*;

use crate::auth::AuthenticatedClient;
use crate::config::Config;
use crate::error::AppError;
use crate::text;

verus! {

/// High-level Codecov API client.  Holds a single authenticated `reqwest::Client`
/// together with the repo coordinates and polling settings from `Config`.
pub struct CodecovClient {
    pub http: AuthenticatedClient,
    pub base_url: String,
    pub service: String,
    pub owner: String,
    pub repo: String,
    pub max_retries: u32,
    pub poll_delay_ms: u64,
}

/// The short name that app.codecov.io uses for a git hosting service.
pub open spec fn service_slug(service: Seq<char>) -> Seq<char> {
    if service == "github"@ {
        "gh"@
    } else if service == "bitbucket"@ {
        "bb"@
    } else if service == "gitlab"@ {
        "gl"@
    } else {
        service
    }
}

impl CodecovClient {
    /// The web page prefix of the repository: `https://app.codecov.io/{slug}/{owner}/{repo}`.
    pub open spec fn app_repo_spec(&self) -> Seq<char> {
        "https://app.codecov.io/"@ + service_slug(self.service@) + "/"@ + self.owner@ + "/"@
            + self.repo@
    }

    /// The API prefix of the repository: `{base_url}/api/v2/{service}/{owner}/repos/{repo}`.
    pub open spec fn api_repo_spec(&self) -> Seq<char> {
        self.base_url@ + "/api/v2/"@ + self.service@ + "/"@ + self.owner@ + "/repos/"@
            + self.repo@
    }

    /// Builds the client for `config`.
    pub fn new(config: &Config) -> (r: Result<Self, AppError>)
        ensures
            r matches Ok(c) ==> {
                &&& c.base_url == config.base_url
                &&& c.service == config.service
                &&& c.owner == config.owner
                &&& c.repo == config.repo
                &&& c.max_retries == config.max_retries
                &&& c.poll_delay_ms == config.poll_delay_ms
                &&& c.http.sent_authorization() == crate::auth::bearer_value(config.token@)
                &&& c.http.authorization_sensitive()
                &&& c.http.sent_user_agent() == crate::auth::USER_AGENT@
            },
            !crate::auth::header_text_ok(crate::auth::bearer_value(config.token@)) <==> (r matches Err(
                AppError::Config(m),
            ) && m@ == "CODECOV_TOKEN contains characters invalid for HTTP headers"@),
            crate::auth::header_text_ok(crate::auth::bearer_value(config.token@)) ==> (r is Ok
                || r matches Err(AppError::Http(_))),
    {
        let http = match AuthenticatedClient::new(config) {
            Ok(h) => h,
            Err(e) => {
                return Err(e);
            },
        };
        Ok(CodecovClient {
            http,
            base_url: config.base_url.clone(),
            service: config.service.clone(),
            owner: config.owner.clone(),
            repo: config.repo.clone(),
            max_retries: config.max_retries,
            poll_delay_ms: config.poll_delay_ms,
        })
    }

    /// The short name of the service on app.codecov.io.
    fn slug(&self) -> (r: String)
        ensures
            r@ == service_slug(self.service@),
    {
        if text::same_text(self.service.as_str(), "github") {
            String::from_str("gh")
        } else if text::same_text(self.service.as_str(), "bitbucket") {
            String::from_str("bb")
        } else if text::same_text(self.service.as_str(), "gitlab") {
            String::from_str("gl")
        } else {
            self.service.clone()
        }
    }

    /// `https://app.codecov.io/{slug}/{owner}/{repo}`
    fn app_repo(&self) -> (r: String)
        ensures
            r@ == self.app_repo_spec(),
    {
        let mut r = String::from_str("https://app.codecov.io/");
        let slug = self.slug();
        r.append(slug.as_str());
        r.append("/");
        r.append(self.owner.as_str());
        r.append("/");
        r.append(self.repo.as_str());
        r
    }

    /// `{base_url}/api/v2/{service}/{owner}/repos/{repo}`
    pub fn api_repo(&self) -> (r: String)
        ensures
            r@ == self.api_repo_spec(),
    {
        let mut r = String::from_str(self.base_url.as_str());
        r.append("/api/v2/");
        r.append(self.service.as_str());
        r.append("/");
        r.append(self.owner.as_str());
        r.append("/repos/");
        r.append(self.repo.as_str());
        r
    }

    /// `https://app.codecov.io/{slug}/{owner}/{repo}/commit/{sha}`
    pub fn app_commit_url(&self, sha: &str) -> (r: String)
        ensures
            r@ == self.app_repo_spec() + "/commit/"@ + sha@,
    {
        let mut r = self.app_repo();
        r.append("/commit/");
        r.append(sha);
        r
    }

    /// `https://app.codecov.io/{slug}/{owner}/{repo}/pull/{pull_id}`
    pub fn app_pull_url(&self, pull_id: u64) -> (r: String)
        ensures
            r@ == self.app_repo_spec() + "/pull/"@ + text::decimal(pull_id as nat),
    {
        let mut r = self.app_repo();
        r.append("/pull/");
        let id = text::decimal_string(pull_id);
        r.append(id.as_str());
        r
    }
}

} // verus!
