//! What the comparison endpoints answer.

use vstd::prelude::*;

verus! {

/// Coverage totals for a single side (base, head, or patch) of a comparison.
/// `P` is the type of a coverage percentage.
pub struct ComparisonTotals<P> {
    pub coverage: Option<P>,
    pub lines: Option<i64>,
    pub hits: Option<i64>,
    pub misses: Option<i64>,
    pub partials: Option<i64>,
    pub branches: Option<i64>,
}

/// Response from `GET /api/v2/{service}/{owner}/repos/{repo}/compare/?pullid={id}`.
pub struct ComparisonSummary<P> {
    pub base_commit: Option<String>,
    pub head_commit: Option<String>,
    pub base: Option<ComparisonTotals<P>>,
    pub head: Option<ComparisonTotals<P>>,
    pub patch: Option<ComparisonTotals<P>>,
}

/// Per-file coverage entry within the impacted files response.  The raw
/// diff coverage lines of the API answer are not read by the library and
/// are not kept here.
pub struct ImpactedFile<P> {
    /// Current file name (after any rename/move). Use as canonical name.
    pub head_name: String,
    /// Previous file name. `None` for newly created files.
    pub base_name: Option<String>,
    pub base_coverage: Option<ComparisonTotals<P>>,
    pub head_coverage: Option<ComparisonTotals<P>>,
    /// Patch-level totals: lines added and their coverage.
    pub patch_totals: Option<ComparisonTotals<P>>,
}

/// Response from `GET /api/v2/{service}/{owner}/repos/{repo}/compare/impacted_files?pullid={id}`.
/// `state` drives the polling logic: `"pending"` → retry, `"processed"` → parse `files`.
pub struct ImpactedFilesResponse<P> {
    pub state: String,
    pub files: Option<Vec<ImpactedFile<P>>>,
}

/// The coverage of one side, if that side is present.
pub open spec fn coverage_of<P>(t: Option<ComparisonTotals<P>>) -> Option<P> {
    match t {
        Some(t) => t.coverage,
        None => None,
    }
}

/// The line count of one side, if that side and its count are present.
pub open spec fn lines_of<P>(t: Option<ComparisonTotals<P>>) -> Option<i64> {
    match t {
        Some(t) => t.lines,
        None => None,
    }
}

/// The covered line count of one side, if present.
pub open spec fn hits_of<P>(t: Option<ComparisonTotals<P>>) -> Option<i64> {
    match t {
        Some(t) => t.hits,
        None => None,
    }
}

/// The uncovered line count of one side, if present.
pub open spec fn misses_of<P>(t: Option<ComparisonTotals<P>>) -> Option<i64> {
    match t {
        Some(t) => t.misses,
        None => None,
    }
}

/// The coverage, line, hit and miss figures of one side.
pub fn side_figures<P>(t: Option<ComparisonTotals<P>>) -> (r: (
    Option<P>,
    Option<i64>,
    Option<i64>,
    Option<i64>,
))
    ensures
        r == (coverage_of(t), lines_of(t), hits_of(t), misses_of(t)),
        t matches Some(x) ==> r == (x.coverage, x.lines, x.hits, x.misses),
        t is None ==> r == (None::<P>, None::<i64>, None::<i64>, None::<i64>),
{
    match t {
        Some(t) => (t.coverage, t.lines, t.hits, t.misses),
        None => (None, None, None, None),
    }
}


/// Each figure of a present side is that side's own field of the same name,
/// and an absent side has no figures.
pub proof fn lemma_side_fields<P>(t: Option<ComparisonTotals<P>>)
    ensures
        t matches Some(x) ==> {
            &&& coverage_of(t) == x.coverage
            &&& lines_of(t) == x.lines
            &&& hits_of(t) == x.hits
            &&& misses_of(t) == x.misses
        },
        t is None ==> coverage_of(t) is None && lines_of(t) is None && hits_of(t) is None
            && misses_of(t) is None,
{
}

} // verus!
