use codecov_mcp::resources::pr_summary::parse_uri;

#[test]
fn test_parse_uri_valid() {
    assert_eq!(parse_uri("codecov://pr/42/summary"), Some(42));
    assert_eq!(parse_uri("codecov://pr/1234567/summary"), Some(1234567));
}

#[test]
fn test_parse_uri_invalid() {
    assert_eq!(parse_uri("codecov://pr/abc/summary"), None);
    assert_eq!(parse_uri("codecov://pr/42/other"), None);
    assert_eq!(parse_uri("https://example.com/pr/42"), None);
    assert_eq!(parse_uri("codecov://pr/summary"), None);
}

#[test]
fn parse_uri_accepts_leading_plus_like_str_parse() {
    assert_eq!(parse_uri("codecov://pr/+42/summary"), Some(42));
}

#[test]
fn parse_uri_rejects_extra_segments_and_overflow() {
    assert_eq!(parse_uri("codecov://pr/42/summary/x"), None);
    assert_eq!(parse_uri("codecov://pr/4/2/summary"), None);
    assert_eq!(parse_uri("codecov://pr//summary"), None);
    assert_eq!(parse_uri("codecov://pr/18446744073709551616/summary"), None);
}

#[test]
fn parse_uri_round_trips_the_template() {
    for id in [0u64, 42, u64::MAX] {
        let uri = codecov_mcp::resources::pr_summary::URI_TEMPLATE
            .replace("{pull_id}", &id.to_string());
        assert_eq!(parse_uri(&uri), Some(id));
    }
}
