//! The `get_changed_files_coverage` tool: coverage of the files a pull
//! request changes.

use vstd::prelude::*;

use crate::codecov_client::CodecovClient;
use crate::error::AppError;
use crate::models::comparison;
use crate::models::comparison::{ComparisonSummary, ImpactedFile, ImpactedFilesResponse};
use crate::text;

verus! {

/// Input of the `get_changed_files_coverage` tool.
pub struct GetChangedFilesCoverageInput {
    /// The pull request number to retrieve coverage for.
    pub pull_id: u64,
    /// When true, includes per-file patch coverage breakdown in the response.
    /// Defaults to true.
    pub include_patch_coverage: Option<bool>,
}

/// Output of the `get_changed_files_coverage` tool.
pub struct ChangedFilesCoverageOutput<P> {
    pub pull_id: u64,
    pub base_commit: Option<String>,
    pub head_commit: Option<String>,
    pub totals: PatchTotalsOutput<P>,
    pub files: Vec<FilePatchOutput<P>>,
    pub codecov_url: String,
}

/// Coverage totals of the whole pull request.
pub struct PatchTotalsOutput<P> {
    pub base_coverage_pct: Option<P>,
    pub head_coverage_pct: Option<P>,
    pub patch_coverage_pct: Option<P>,
    pub patch_lines: Option<i64>,
    pub patch_hits: Option<i64>,
    pub patch_misses: Option<i64>,
}

/// Coverage of one changed file.
pub struct FilePatchOutput<P> {
    pub name: String,
    /// `None` for newly created files.
    pub base_coverage_pct: Option<P>,
    pub head_coverage_pct: Option<P>,
    pub patch_coverage_pct: Option<P>,
    pub added_lines: Option<i64>,
    pub covered_added_lines: Option<i64>,
    pub uncovered_added_lines: Option<i64>,
}

/// The output entry of one impacted file; its patch coverage only when
/// `with_patch` asks for it.
pub open spec fn file_output<P>(f: ImpactedFile<P>, with_patch: bool) -> FilePatchOutput<P> {
    FilePatchOutput {
        name: f.head_name,
        base_coverage_pct: comparison::coverage_of(f.base_coverage),
        head_coverage_pct: comparison::coverage_of(f.head_coverage),
        patch_coverage_pct: if with_patch {
            comparison::coverage_of(f.patch_totals)
        } else {
            None
        },
        added_lines: comparison::lines_of(f.patch_totals),
        covered_added_lines: comparison::hits_of(f.patch_totals),
        uncovered_added_lines: comparison::misses_of(f.patch_totals),
    }
}

/// The totals of a comparison summary.
pub open spec fn totals_output<P>(s: ComparisonSummary<P>) -> PatchTotalsOutput<P> {
    PatchTotalsOutput {
        base_coverage_pct: comparison::coverage_of(s.base),
        head_coverage_pct: comparison::coverage_of(s.head),
        patch_coverage_pct: comparison::coverage_of(s.patch),
        patch_lines: comparison::lines_of(s.patch),
        patch_hits: comparison::hits_of(s.patch),
        patch_misses: comparison::misses_of(s.patch),
    }
}

/// The files of an impacted-files answer; none when the answer has none.
pub open spec fn impacted_files_of<P>(r: ImpactedFilesResponse<P>) -> Seq<ImpactedFile<P>> {
    match r.files {
        Some(v) => v@,
        None => Seq::empty(),
    }
}

/// The message when a pull request has no coverage data at all.
pub open spec fn no_data_message(pull_id: u64) -> Seq<char> {
    "no coverage data available for pull request "@ + text::decimal(pull_id as nat)
}

/// Assembles the tool output from the comparison summary and the processed
/// impacted files of `input.pull_id`.  Fails when there are neither impacted
/// files nor patch totals.
pub fn changed_files_coverage_from<P>(
    client: &CodecovClient,
    input: GetChangedFilesCoverageInput,
    summary: ComparisonSummary<P>,
    impacted: ImpactedFilesResponse<P>,
) -> (r: Result<ChangedFilesCoverageOutput<P>, AppError>)
    ensures
        ({
            let files = impacted_files_of(impacted);
            let with_patch = match input.include_patch_coverage {
                Some(b) => b,
                None => true,
            };
            &&& (r is Err <==> files.len() == 0 && summary.patch is None)
            &&& (r matches Err(e) ==> e matches AppError::NoCoverageData(m) && m@ == no_data_message(
                input.pull_id,
            ))
            &&& (r matches Ok(o) ==> {
                &&& o.pull_id == input.pull_id
                &&& o.base_commit == summary.base_commit
                &&& o.head_commit == summary.head_commit
                &&& o.totals == totals_output(summary)
                &&& o.files@.len() == files.len()
                &&& forall|i: int| 0 <= i < files.len() ==> #[trigger] o.files@[i] == file_output(files[i], with_patch)
                &&& o.codecov_url@ == client.app_repo_spec() + "/pull/"@ + text::decimal(input.pull_id as nat)
            })
        }),
{
    let pull_id = input.pull_id;
    let raw_files: Vec<ImpactedFile<P>> = match impacted.files {
        Some(v) => v,
        None => Vec::new(),
    };
    if raw_files.len() == 0 && summary.patch.is_none() {
        let mut m = String::from_str("no coverage data available for pull request ");
        let id = text::decimal_string(pull_id);
        m.append(id.as_str());
        return Err(AppError::NoCoverageData(m));
    }
    let (base_coverage_pct, _l1, _h1, _m1) = comparison::side_figures(summary.base);
    let (head_coverage_pct, _l2, _h2, _m2) = comparison::side_figures(summary.head);
    let (patch_coverage_pct, patch_lines, patch_hits, patch_misses) = comparison::side_figures(summary.patch);
    let totals = PatchTotalsOutput {
        base_coverage_pct,
        head_coverage_pct,
        patch_coverage_pct,
        patch_lines,
        patch_hits,
        patch_misses,
    };
    let with_patch = match input.include_patch_coverage {
        Some(b) => b,
        None => true,
    };
    let ghost all = raw_files@;
    let mut files: Vec<FilePatchOutput<P>> = Vec::new();
    for f in it: raw_files
        invariant
            all == it.seq(),
            files@.len() == it.index(),
            forall|i: int| 0 <= i < files@.len() ==> #[trigger] files@[i] == file_output(all[i], with_patch),
    {
        let (base_pct, _bl, _bh, _bm) = comparison::side_figures(f.base_coverage);
        let (head_pct, _hl, _hh, _hm) = comparison::side_figures(f.head_coverage);
        let (patch_pct, added, covered, uncovered) = comparison::side_figures(f.patch_totals);
        files.push(
            FilePatchOutput {
                name: f.head_name,
                base_coverage_pct: base_pct,
                head_coverage_pct: head_pct,
                patch_coverage_pct: if with_patch {
                    patch_pct
                } else {
                    None
                },
                added_lines: added,
                covered_added_lines: covered,
                uncovered_added_lines: uncovered,
            },
        );
    }
    Ok(
        ChangedFilesCoverageOutput {
            pull_id,
            base_commit: summary.base_commit,
            head_commit: summary.head_commit,
            totals,
            files,
            codecov_url: client.app_pull_url(pull_id),
        },
    )
}

/// Leaving the patch coverage out blanks the patch coverage of every file
/// and of no other figure.
pub proof fn lemma_exclude_patch_coverage<P>(f: ImpactedFile<P>)
    ensures
        file_output(f, false).patch_coverage_pct is None,
        file_output(f, false).added_lines == file_output(f, true).added_lines,
        file_output(f, false).covered_added_lines == file_output(f, true).covered_added_lines,
        file_output(f, false).uncovered_added_lines == file_output(f, true).uncovered_added_lines,
        file_output(f, false).base_coverage_pct == file_output(f, true).base_coverage_pct,
        file_output(f, false).head_coverage_pct == file_output(f, true).head_coverage_pct,
{
}


/// Each figure of a file's output is the API's figure for that file: its
/// name, the coverage of its base and head sides, and the coverage, line,
/// hit and miss counts of its patch as patch coverage, added, covered and
/// uncovered added lines (the patch coverage only when asked for).
pub proof fn lemma_file_output_fields<P>(f: ImpactedFile<P>, with_patch: bool)
    ensures
        file_output(f, with_patch).name == f.head_name,
        file_output(f, with_patch).base_coverage_pct == (match f.base_coverage {
            Some(t) => t.coverage,
            None => None,
        }),
        file_output(f, with_patch).head_coverage_pct == (match f.head_coverage {
            Some(t) => t.coverage,
            None => None,
        }),
        file_output(f, with_patch).patch_coverage_pct == (match f.patch_totals {
            Some(t) => if with_patch {
                t.coverage
            } else {
                None
            },
            None => None,
        }),
        file_output(f, with_patch).added_lines == (match f.patch_totals {
            Some(t) => t.lines,
            None => None,
        }),
        file_output(f, with_patch).covered_added_lines == (match f.patch_totals {
            Some(t) => t.hits,
            None => None,
        }),
        file_output(f, with_patch).uncovered_added_lines == (match f.patch_totals {
            Some(t) => t.misses,
            None => None,
        }),
{
}

/// When the API's patch counts of a file add up (hits plus misses is the
/// line count), the file's covered and uncovered added lines add up to its
/// added lines.
pub proof fn lemma_file_counts_add_up<P>(f: ImpactedFile<P>, with_patch: bool, hits: i64, misses: i64)
    requires
        f.patch_totals matches Some(t) && t.hits == Some(hits) && t.misses == Some(misses)
            && t.lines == Some((hits + misses) as i64),
        i64::MIN <= hits + misses <= i64::MAX,
    ensures
        file_output(f, with_patch).covered_added_lines == Some(hits),
        file_output(f, with_patch).uncovered_added_lines == Some(misses),
        file_output(f, with_patch).added_lines == Some((hits + misses) as i64),
{
}

/// Each total of the output is the summary's figure of the same side.
pub proof fn lemma_totals_output_fields<P>(s: ComparisonSummary<P>)
    ensures
        totals_output(s).base_coverage_pct == (match s.base {
            Some(t) => t.coverage,
            None => None,
        }),
        totals_output(s).head_coverage_pct == (match s.head {
            Some(t) => t.coverage,
            None => None,
        }),
        totals_output(s).patch_coverage_pct == (match s.patch {
            Some(t) => t.coverage,
            None => None,
        }),
        totals_output(s).patch_lines == (match s.patch {
            Some(t) => t.lines,
            None => None,
        }),
        totals_output(s).patch_hits == (match s.patch {
            Some(t) => t.hits,
            None => None,
        }),
        totals_output(s).patch_misses == (match s.patch {
            Some(t) => t.misses,
            None => None,
        }),
{
}

} // verus!
