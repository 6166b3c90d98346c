use codecov_mcp::auth::AuthenticatedClient;
use codecov_mcp::codecov_client::compare::{ImpactedFilesPoll, PollStep};
use codecov_mcp::codecov_client::CodecovClient;
use codecov_mcp::config::Config;
use codecov_mcp::error::AppError;

fn config(service: &str, token: &str, max_retries: u32) -> Config {
    Config {
        token: token.into(),
        service: service.into(),
        owner: "test-owner".into(),
        repo: "test-repo".into(),
        base_url: "http://localhost:1234".into(),
        max_retries,
        poll_delay_ms: 0,
    }
}

fn client(service: &str) -> CodecovClient {
    CodecovClient::new(&config(service, "test-token", 3)).expect("failed to build CodecovClient")
}

#[test]
fn token_with_control_characters_is_a_config_error() {
    for token in ["bad\ntoken", "bad\u{7f}token", "bad\rtoken"] {
        match AuthenticatedClient::new(&config("github", token, 3)) {
            Err(AppError::Config(m)) => {
                assert_eq!(m, "CODECOV_TOKEN contains characters invalid for HTTP headers")
            }
            Err(other) => panic!("expected a configuration error, got {other:?}"),
            Ok(_) => panic!("expected a configuration error, got a client"),
        }
    }
}

#[test]
fn ordinary_tokens_build_a_client() {
    for token in ["test-token", "tab\tinside", "ünïcode"] {
        assert!(AuthenticatedClient::new(&config("github", token, 3)).is_ok());
    }
}

#[test]
fn client_keeps_the_configuration() {
    let c = client("github");
    assert_eq!(c.base_url, "http://localhost:1234");
    assert_eq!(c.owner, "test-owner");
    assert_eq!(c.repo, "test-repo");
    assert_eq!(c.max_retries, 3);
    assert_eq!(c.poll_delay_ms, 0);
}

#[test]
fn app_commit_url_uses_the_service_slug() {
    let sha = "abc123";
    assert_eq!(
        client("github").app_commit_url(sha),
        "https://app.codecov.io/gh/test-owner/test-repo/commit/abc123"
    );
    assert_eq!(
        client("bitbucket").app_commit_url(sha),
        "https://app.codecov.io/bb/test-owner/test-repo/commit/abc123"
    );
    assert_eq!(
        client("gitlab").app_commit_url(sha),
        "https://app.codecov.io/gl/test-owner/test-repo/commit/abc123"
    );
    assert_eq!(
        client("github_enterprise").app_commit_url(sha),
        "https://app.codecov.io/github_enterprise/test-owner/test-repo/commit/abc123"
    );
}

#[test]
fn app_pull_url_names_the_pull_request() {
    let url = client("github").app_pull_url(42);
    assert_eq!(url, "https://app.codecov.io/gh/test-owner/test-repo/pull/42");
    assert!(url.contains("pull/42"));
}

#[test]
fn api_urls_follow_the_endpoint_paths() {
    let c = client("github");
    assert_eq!(
        c.commit_detail_url("abc"),
        "http://localhost:1234/api/v2/github/test-owner/repos/test-repo/commits/abc"
    );
    assert_eq!(
        c.commit_report_url(),
        "http://localhost:1234/api/v2/github/test-owner/repos/test-repo/report/"
    );
    assert_eq!(
        c.comparison_url(),
        "http://localhost:1234/api/v2/github/test-owner/repos/test-repo/compare/"
    );
    assert_eq!(
        c.impacted_files_url(),
        "http://localhost:1234/api/v2/github/test-owner/repos/test-repo/compare/impacted_files"
    );
}

fn run(max_retries: u32, states: &[&str]) -> (Vec<PollStep>, usize) {
    let mut poll = ImpactedFilesPoll { attempts: 0, max_retries };
    let mut steps = Vec::new();
    for s in states {
        let step = poll.observe(s);
        steps.push(step);
        if step != PollStep::Wait {
            break;
        }
    }
    let fetches = steps.len();
    (steps, fetches)
}

#[test]
fn poll_retries_then_succeeds() {
    let (steps, fetches) = run(3, &["pending", "pending", "processed"]);
    assert_eq!(steps, vec![PollStep::Wait, PollStep::Wait, PollStep::Done]);
    assert_eq!(fetches, 3);
}

#[test]
fn poll_gives_up_after_max_retries() {
    let (steps, fetches) = run(3, &["pending"; 10]);
    assert_eq!(steps.last(), Some(&PollStep::GiveUp));
    assert_eq!(fetches, 3);
}

#[test]
fn poll_with_no_retries_fetches_once() {
    let (steps, _) = run(0, &["pending", "processed"]);
    assert_eq!(steps, vec![PollStep::GiveUp]);
    let (steps, _) = run(1, &["pending", "processed"]);
    assert_eq!(steps, vec![PollStep::GiveUp]);
    let (steps, _) = run(0, &["processed"]);
    assert_eq!(steps, vec![PollStep::Done]);
}

#[test]
fn start_poll_uses_the_client_limit() {
    let poll = client("github").start_poll();
    assert_eq!(poll.attempts, 0);
    assert_eq!(poll.max_retries, 3);
}

#[test]
fn client_sends_sensitive_bearer_token_and_user_agent() {
    let a = AuthenticatedClient::new(&config("github", "test-token", 1)).expect("build client");
    assert_eq!(a.authorization(), "bearer test-token");
    assert!(a.authorization_is_sensitive());
    let ua = a.user_agent();
    let version = ua.strip_prefix("codecov-mcp/").expect("user agent names the server");
    let parts: Vec<&str> = version.split('.').collect();
    assert_eq!(parts.len(), 3);
    assert!(parts.iter().all(|p| !p.is_empty() && p.chars().all(|c| c.is_ascii_digit())));
    let c = client("github");
    assert_eq!(c.http.authorization(), "bearer test-token");
    assert_eq!(c.http.user_agent(), codecov_mcp::auth::USER_AGENT);
}

#[test]
fn authorization_text_prefixes_bearer() {
    assert_eq!(codecov_mcp::auth::authorization_text("abc"), "bearer abc");
    assert_eq!(codecov_mcp::auth::authorization_text(""), "bearer ");
}
