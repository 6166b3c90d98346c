//! The pull-request summary resource: its URI and its content.

use vstd::prelude::*;

use crate::codecov_client::CodecovClient;
use crate::models::comparison;
use crate::models::comparison::ComparisonSummary;
use crate::text;

verus! {

/// URI template advertised to MCP clients.
pub const URI_TEMPLATE: &'static str = "codecov://pr/{pull_id}/summary";

/// What a resource URI starts with.
pub open spec fn uri_head() -> Seq<char> {
    "codecov://pr/"@
}

/// What a resource URI ends with.
pub open spec fn uri_tail() -> Seq<char> {
    "/summary"@
}

/// The pull id that `uri` names: `uri` is `codecov://pr/{id}/summary`, where
/// `{id}` holds no `/` and parses as a `u64`.
pub open spec fn parse_uri_spec(uri: Seq<char>) -> Option<nat> {
    let h = uri_head();
    let t = uri_tail();
    if uri.len() >= h.len() + t.len() && h.is_prefix_of(uri) && t.is_suffix_of(uri) {
        let id = uri.subrange(h.len() as int, uri.len() - t.len());
        if id.contains('/') {
            None
        } else {
            text::parse_unsigned_spec(id, u64::MAX as nat)
        }
    } else {
        None
    }
}

/// Parse `pull_id` from a URI of the form `codecov://pr/{pull_id}/summary`.
pub fn parse_uri(uri: &str) -> (r: Option<u64>)
    ensures
        r matches Some(n) ==> parse_uri_spec(uri@) == Some(n as nat),
        r is None ==> parse_uri_spec(uri@) is None,
{
    proof {
        reveal_strlit("codecov://pr/");
        reveal_strlit("/summary");
    }
    let cs = text::chars_of(uri);
    let tail = text::chars_of("/summary");
    let head_len: usize = 13;
    let tail_len: usize = 8;
    assert(uri_head().len() == head_len);
    assert(uri_tail().len() == tail_len);
    if cs.len() < head_len + tail_len {
        return None;
    }
    if !text::starts_with(&cs, "codecov://pr/") || !text::ends_with(&cs, &tail) {
        return None;
    }
    let end = cs.len() - tail_len;
    if text::contains_char_between(&cs, '/', head_len, end) {
        return None;
    }
    let id = uri.substring_char(head_len, end);
    text::parse_unsigned(id, u64::MAX)
}


/// A URI written from the template with a pull id parses back to that id.
pub proof fn lemma_parse_uri_round_trip(pull_id: u64)
    ensures
        parse_uri_spec(uri_head() + text::decimal(pull_id as nat) + uri_tail()) == Some(pull_id as nat),
{
    reveal_strlit("codecov://pr/");
    reveal_strlit("/summary");
    let d = text::decimal(pull_id as nat);
    let uri = uri_head() + d + uri_tail();
    text::lemma_decimal_digits(pull_id as nat);
    text::lemma_parse_decimal(pull_id as nat, u64::MAX as nat);
    assert(uri_head().is_prefix_of(uri)) by {
        assert(uri.subrange(0, uri_head().len() as int) =~= uri_head());
    }
    assert(uri_tail().is_suffix_of(uri)) by {
        assert(uri.subrange(uri.len() - uri_tail().len(), uri.len() as int) =~= uri_tail());
    }
    assert(uri.subrange(uri_head().len() as int, uri.len() - uri_tail().len()) =~= d);
    assert(!d.contains('/')) by {
        if d.contains('/') {
            let k = choose|k: int| 0 <= k < d.len() && d[k] == '/';
            assert(text::is_digit(d[k]));
        }
    }
}


/// The content of the pull-request summary resource.
pub struct PrSummaryContent<P> {
    pub pull_id: u64,
    pub service: String,
    pub owner: String,
    pub repo: String,
    pub base_commit: Option<String>,
    pub head_commit: Option<String>,
    pub base_coverage_pct: Option<P>,
    pub head_coverage_pct: Option<P>,
    pub patch_coverage_pct: Option<P>,
    pub patch_lines: Option<i64>,
    pub patch_hits: Option<i64>,
    pub patch_misses: Option<i64>,
    pub codecov_url: String,
}

/// The summary resource of `pull_id`, from its comparison summary.
pub fn summary_content<P>(
    client: &CodecovClient,
    pull_id: u64,
    summary: ComparisonSummary<P>,
) -> (r: PrSummaryContent<P>)
    ensures
        r.pull_id == pull_id,
        r.service == client.service,
        r.owner == client.owner,
        r.repo == client.repo,
        r.base_commit == summary.base_commit,
        r.head_commit == summary.head_commit,
        r.base_coverage_pct == comparison::coverage_of(summary.base),
        r.head_coverage_pct == comparison::coverage_of(summary.head),
        r.patch_coverage_pct == comparison::coverage_of(summary.patch),
        r.patch_lines == comparison::lines_of(summary.patch),
        r.patch_hits == comparison::hits_of(summary.patch),
        r.patch_misses == comparison::misses_of(summary.patch),
        r.codecov_url@ == client.app_repo_spec() + "/pull/"@ + text::decimal(pull_id as nat),
{
    let (base_coverage_pct, _bl, _bh, _bm) = comparison::side_figures(summary.base);
    let (head_coverage_pct, _hl, _hh, _hm) = comparison::side_figures(summary.head);
    let (patch_coverage_pct, patch_lines, patch_hits, patch_misses) = comparison::side_figures(summary.patch);
    PrSummaryContent {
        pull_id,
        service: client.service.clone(),
        owner: client.owner.clone(),
        repo: client.repo.clone(),
        base_commit: summary.base_commit,
        head_commit: summary.head_commit,
        base_coverage_pct,
        head_coverage_pct,
        patch_coverage_pct,
        patch_lines,
        patch_hits,
        patch_misses,
        codecov_url: client.app_pull_url(pull_id),
    }
}

} // verus!
