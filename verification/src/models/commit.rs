//! What the commit endpoints answer.

use vstd::prelude::*;

verus! {

/// Coverage totals returned by the Codecov API.  `P` is the type of a
/// coverage percentage.
pub struct Totals<P> {
    pub coverage: Option<P>,
    pub lines: Option<i64>,
    pub hits: Option<i64>,
    pub misses: Option<i64>,
    pub partials: Option<i64>,
    pub branches: Option<i64>,
}

/// Top-level response from `GET /api/v2/{service}/{owner}/repos/{repo}/commits/{sha}`.
pub struct CommitDetail<P> {
    pub commitid: String,
    pub branch: Option<String>,
    pub state: Option<String>,
    pub totals: Option<Totals<P>>,
}

/// Per-file totals inside the report endpoint response.
pub struct FileTotals<P> {
    pub coverage: Option<P>,
}

/// A single file entry from the report endpoint.
pub struct ReportFile<P> {
    pub name: String,
    pub totals: Option<FileTotals<P>>,
}

/// Response from `GET /api/v2/{service}/{owner}/repos/{repo}/report/?sha={sha}`.
pub struct CommitReport<P> {
    pub files: Option<Vec<ReportFile<P>>>,
}

} // verus!
