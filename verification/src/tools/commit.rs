//! The `get_commit_coverage` tool: coverage of one commit.

use vstd::prelude::*;

use crate::codecov_client::CodecovClient;
use crate::error::AppError;
use crate::models::commit::{CommitDetail, CommitReport, ReportFile, Totals};
use crate::text;

verus! {

/// Input of the `get_commit_coverage` tool.
pub struct GetCommitCoverageInput {
    /// The commit SHA to look up coverage for
    pub sha: String,
    /// Whether to include per-file coverage breakdown
    pub include_files: Option<bool>,
}

/// Output of the `get_commit_coverage` tool.
pub struct CommitCoverageOutput<P> {
    pub commit_sha: String,
    pub branch: Option<String>,
    pub state: String,
    pub coverage_pct: Option<P>,
    pub lines: Option<i64>,
    pub hits: Option<i64>,
    pub misses: Option<i64>,
    pub partials: Option<i64>,
    pub branches: Option<i64>,
    /// Per-file coverage, when asked for.
    pub files: Option<Vec<FileCoverageOutput<P>>>,
    pub codecov_url: String,
}

/// Coverage of one file of the commit.
pub struct FileCoverageOutput<P> {
    pub name: String,
    pub coverage_pct: Option<P>,
}

/// The state of a commit whose coverage has been computed.
pub open spec fn complete_state() -> Seq<char> {
    "complete"@
}

/// The commit's coverage has been computed.
pub open spec fn is_complete<P>(detail: CommitDetail<P>) -> bool {
    detail.state matches Some(s) && s@ == complete_state()
}

/// The state reported for a commit that is not complete: its own, or
/// `unknown` when the API gives none.
pub open spec fn reported_state<P>(detail: CommitDetail<P>) -> Seq<char> {
    match detail.state {
        Some(s) => s@,
        None => "unknown"@,
    }
}

/// Whether the tool input asks for the per-file breakdown (default: no).
pub fn wants_files(input: &GetCommitCoverageInput) -> (r: bool)
    ensures
        r == (input.include_files == Some(true)),
{
    match input.include_files {
        Some(b) => b,
        None => false,
    }
}

/// Checks that the commit's coverage is computed; otherwise coverage is
/// not ready, in the commit's state.
pub fn commit_readiness<P>(detail: &CommitDetail<P>) -> (r: Result<(), AppError>)
    ensures
        r is Ok <==> is_complete(*detail),
        r matches Err(e) ==> e matches AppError::CoverageNotReady { state } && state@ == reported_state(
            *detail,
        ),
{
    match &detail.state {
        Some(s) => {
            if text::same_text(s.as_str(), "complete") {
                Ok(())
            } else {
                Err(AppError::CoverageNotReady { state: s.clone() })
            }
        },
        None => Err(AppError::CoverageNotReady { state: String::from_str("unknown") }),
    }
}

/// The output entry of one file of the commit report.
pub open spec fn file_coverage<P>(f: ReportFile<P>) -> FileCoverageOutput<P> {
    FileCoverageOutput {
        name: f.name,
        coverage_pct: match f.totals {
            Some(t) => t.coverage,
            None => None,
        },
    }
}

/// The files of a commit report; none when the report lists none.
pub open spec fn report_files_of<P>(r: CommitReport<P>) -> Seq<ReportFile<P>> {
    match r.files {
        Some(v) => v@,
        None => Seq::empty(),
    }
}

/// The output entries of the files of `report`, in order.
fn files_output<P>(report: CommitReport<P>) -> (r: Vec<FileCoverageOutput<P>>)
    ensures
        r@.len() == report_files_of(report).len(),
        forall|i: int| 0 <= i < r@.len() ==> #[trigger] r@[i] == file_coverage(report_files_of(report)[i]),
{
    let files: Vec<ReportFile<P>> = match report.files {
        Some(v) => v,
        None => Vec::new(),
    };
    let ghost all = files@;
    let mut out: Vec<FileCoverageOutput<P>> = Vec::new();
    for f in it: files
        invariant
            all == it.seq(),
            out@.len() == it.index(),
            forall|i: int| 0 <= i < out@.len() ==> #[trigger] out@[i] == file_coverage(all[i]),
    {
        let coverage_pct = match f.totals {
            Some(t) => t.coverage,
            None => None,
        };
        out.push(FileCoverageOutput { name: f.name, coverage_pct });
    }
    out
}

/// A field of the commit totals, if the totals are present.
pub open spec fn totals_field<P, T>(t: Option<Totals<P>>, f: spec_fn(Totals<P>) -> Option<T>) -> Option<T> {
    match t {
        Some(t) => f(t),
        None => None,
    }
}

/// Assembles the tool output for a complete commit, with the per-file
/// breakdown of `report` when one is given.
pub fn commit_coverage_from<P>(
    client: &CodecovClient,
    input: GetCommitCoverageInput,
    detail: CommitDetail<P>,
    report: Option<CommitReport<P>>,
) -> (r: CommitCoverageOutput<P>)
    requires
        is_complete(detail),
    ensures
        r.commit_sha == input.sha,
        r.branch == detail.branch,
        r.state@ == complete_state(),
        r.coverage_pct == totals_field(detail.totals, |t: Totals<P>| t.coverage),
        r.lines == totals_field(detail.totals, |t: Totals<P>| t.lines),
        r.hits == totals_field(detail.totals, |t: Totals<P>| t.hits),
        r.misses == totals_field(detail.totals, |t: Totals<P>| t.misses),
        r.partials == totals_field(detail.totals, |t: Totals<P>| t.partials),
        r.branches == totals_field(detail.totals, |t: Totals<P>| t.branches),
        r.files is Some <==> report is Some,
        r.files matches Some(fs) ==> {
            &&& fs@.len() == report_files_of(report->0).len()
            &&& forall|i: int| 0 <= i < fs@.len() ==> #[trigger] fs@[i] == file_coverage(report_files_of(report->0)[i])
        },
        r.codecov_url@ == client.app_repo_spec() + "/commit/"@ + input.sha@,
{
    let codecov_url = client.app_commit_url(input.sha.as_str());
    let (coverage_pct, lines, hits, misses, partials, branches) = match detail.totals {
        Some(t) => (t.coverage, t.lines, t.hits, t.misses, t.partials, t.branches),
        None => (None, None, None, None, None, None),
    };
    let files = match report {
        Some(rep) => Some(files_output(rep)),
        None => None,
    };
    CommitCoverageOutput {
        commit_sha: input.sha,
        branch: detail.branch,
        state: String::from_str("complete"),
        coverage_pct,
        lines,
        hits,
        misses,
        partials,
        branches,
        files,
        codecov_url,
    }
}


/// A file of the commit output is the report file's name with the coverage
/// of its totals, if it has totals.
pub proof fn lemma_file_coverage_fields<P>(f: ReportFile<P>)
    ensures
        file_coverage(f).name == f.name,
        file_coverage(f).coverage_pct == (match f.totals {
            Some(t) => t.coverage,
            None => None,
        }),
{
}

} // verus!
