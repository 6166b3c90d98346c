//! The `suggest_test_targets` tool: which changed files most need tests.

use vstd::prelude::*;

use crate::error::AppError;
use crate::heuristics::filters;
use crate::heuristics::ranking;
use crate::heuristics::ranking::{FileCandidate, RankedFile, ScoredCandidate};
use crate::models::comparison;
use crate::models::comparison::ImpactedFile;
use crate::text;

verus! {

/// Input of the `suggest_test_targets` tool.
pub struct SuggestTestTargetsInput {
    /// The pull request number to analyze.
    pub pull_id: u64,
    /// Maximum number of files to return. Defaults to 10.
    pub max_results: Option<usize>,
    /// Exclude files with fewer uncovered added lines than this threshold.
    /// Defaults to 1 (exclude files with no uncovered lines).
    pub min_uncovered_lines: Option<i64>,
    /// Restrict output to files with these extensions, e.g. `[".rs", ".py"]`.
    /// If omitted, all file types are considered.
    pub file_extensions: Option<Vec<String>>,
}

/// Output of the `suggest_test_targets` tool.
pub struct SuggestTestTargetsOutput<P> {
    pub pull_id: u64,
    pub ranked_files: Vec<RankedFileOutput<P>>,
    pub ranking_method: String,
    /// Number of files that passed all filters and were scored.
    pub files_analyzed: usize,
    /// Number of files excluded by filters.
    pub files_excluded: usize,
}

/// One ranked file in the tool output.
pub struct RankedFileOutput<P> {
    pub rank: usize,
    pub file_path: String,
    /// Weighted score in [0, 1] — higher means more urgent to test.
    pub score: P,
    pub patch_coverage_pct: Option<P>,
    pub uncovered_added_lines: i64,
    pub total_added_lines: i64,
    pub is_new_file: bool,
    pub reason: String,
}

/// The scoring candidate for one impacted file: its patch line and miss
/// counts default to 0 when the API leaves them out.
pub open spec fn candidate_of<P>(f: ImpactedFile<P>) -> FileCandidate<P> {
    FileCandidate {
        file_path: f.head_name,
        patch_coverage_pct: comparison::coverage_of(f.patch_totals),
        patch_lines: match comparison::lines_of(f.patch_totals) {
            Some(n) => n,
            None => 0,
        },
        patch_misses: match comparison::misses_of(f.patch_totals) {
            Some(n) => n,
            None => 0,
        },
        head_coverage_pct: comparison::coverage_of(f.head_coverage),
        base_coverage_pct: comparison::coverage_of(f.base_coverage),
    }
}

/// Convert API model → scoring candidates.
pub fn candidates_from_impacted<P>(files: Vec<ImpactedFile<P>>) -> (r: Vec<FileCandidate<P>>)
    ensures
        r@.len() == files@.len(),
        forall|i: int| 0 <= i < r@.len() ==> #[trigger] r@[i] == candidate_of(files@[i]),
{
    let ghost all = files@;
    let mut out: Vec<FileCandidate<P>> = Vec::new();
    for f in it: files
        invariant
            all == it.seq(),
            out@.len() == it.index(),
            forall|i: int| 0 <= i < out@.len() ==> #[trigger] out@[i] == candidate_of(all[i]),
    {
        let (patch_coverage_pct, lines, _hits, misses) = comparison::side_figures(f.patch_totals);
        let head_coverage_pct = comparison::side_figures(f.head_coverage).0;
        let base_coverage_pct = comparison::side_figures(f.base_coverage).0;
        let patch_lines = match lines {
            Some(n) => n,
            None => 0,
        };
        let patch_misses = match misses {
            Some(n) => n,
            None => 0,
        };
        out.push(
            FileCandidate {
                file_path: f.head_name,
                patch_coverage_pct,
                patch_lines,
                patch_misses,
                head_coverage_pct,
                base_coverage_pct,
            },
        );
    }
    out
}

/// A scored candidate passes the three filters of the pipeline: it has
/// changed lines, its path has one of `extensions` (when any are given),
/// and it has at least `min` uncovered added lines.
pub open spec fn passes_filters<P>(min: i64, extensions: Seq<String>) -> spec_fn(ScoredCandidate<P>) -> bool {
    |s: ScoredCandidate<P>|
        {
            &&& (filters::has_changes::<P>())(s.candidate)
            &&& (filters::extension_matches::<P>(extensions))(s.candidate)
            &&& (filters::enough_uncovered::<P>(min))(s.candidate)
        }
}

/// The output entry of a ranked file.
pub open spec fn output_entry<P>(r: RankedFile<P>) -> RankedFileOutput<P> {
    RankedFileOutput {
        rank: r.rank,
        file_path: r.file_path,
        score: r.score,
        patch_coverage_pct: r.patch_coverage_pct,
        uncovered_added_lines: r.uncovered_added_lines,
        total_added_lines: r.total_added_lines,
        is_new_file: r.is_new_file,
        reason: r.reason,
    }
}

/// The method the ranking follows, as reported to the client.
pub open spec fn ranking_method_name() -> Seq<char> {
    "weighted_patch_miss_rate"@
}

/// The message when no file passes the filters.
pub open spec fn no_match_message(pull_id: u64) -> Seq<char> {
    "no files matched the filters for pull request "@ + text::decimal(pull_id as nat)
}

/// The filter settings that the input asks for, with their defaults.
pub open spec fn min_uncovered_of(input: SuggestTestTargetsInput) -> i64 {
    match input.min_uncovered_lines {
        Some(m) => m,
        None => 1,
    }
}

/// The extensions that the input restricts to (none: no restriction).
pub open spec fn extensions_of(input: SuggestTestTargetsInput) -> Seq<String> {
    match input.file_extensions {
        Some(v) => v@,
        None => Seq::empty(),
    }
}

/// The most files that the input asks for.
pub open spec fn max_results_of(input: SuggestTestTargetsInput) -> nat {
    match input.max_results {
        Some(m) => m as nat,
        None => 10,
    }
}

/// The smaller of two numbers.
pub open spec fn min_nat(a: nat, b: nat) -> nat {
    if a <= b {
        a
    } else {
        b
    }
}

/// Filters the scored candidates of a pull request, ranks those that pass,
/// and keeps the best `max_results` of them.  Fails when no candidate
/// passes the filters.
pub fn suggest_from_scored<P>(
    input: SuggestTestTargetsInput,
    scored: Vec<ScoredCandidate<P>>,
) -> (r: Result<SuggestTestTargetsOutput<P>, AppError>)
    ensures
        ({
            let kept = scored@.filter(passes_filters(min_uncovered_of(input), extensions_of(input)));
            &&& (r is Err <==> kept.len() == 0)
            &&& (r matches Err(e) ==> e matches AppError::NoCoverageData(m) && m@ == no_match_message(
                input.pull_id,
            ))
            &&& (r matches Ok(o) ==> {
                &&& o.pull_id == input.pull_id
                &&& o.files_analyzed == kept.len()
                &&& o.files_excluded == scored@.len() - kept.len()
                &&& o.ranking_method@ == ranking_method_name()
                &&& o.ranked_files@.len() == min_nat(max_results_of(input), kept.len())
                &&& exists|ranked: Seq<RankedFile<P>>|
                    {
                        &&& #[trigger] ranking::is_ranking_of(kept, ranked)
                        &&& forall|k: int|
                            0 <= k < o.ranked_files@.len() ==> #[trigger] o.ranked_files@[k]
                                == output_entry(ranked[k])
                        &&& forall|k: int|
                            #![trigger o.ranked_files@[k]]
                            0 <= k < o.ranked_files@.len() ==> {
                                &&& o.ranked_files@[k].rank == ranked[k].rank
                                &&& o.ranked_files@[k].file_path == ranked[k].file_path
                                &&& o.ranked_files@[k].score == ranked[k].score
                                &&& o.ranked_files@[k].patch_coverage_pct == ranked[k].patch_coverage_pct
                                &&& o.ranked_files@[k].uncovered_added_lines == ranked[k].uncovered_added_lines
                                &&& o.ranked_files@[k].total_added_lines == ranked[k].total_added_lines
                                &&& o.ranked_files@[k].is_new_file == ranked[k].is_new_file
                                &&& o.ranked_files@[k].reason == ranked[k].reason
                            }
                    }
            })
        }),
{
    broadcast use vstd::seq_lib::group_filter_ensures;
    let pull_id = input.pull_id;
    let max_results: usize = match input.max_results {
        Some(m) => m,
        None => 10,
    };
    let min: i64 = match input.min_uncovered_lines {
        Some(m) => m,
        None => 1,
    };
    let extensions: Vec<String> = match input.file_extensions {
        Some(v) => v,
        None => Vec::new(),
    };
    let ghost exts = extensions@;
    assert(exts == extensions_of(input));
    let total = scored.len();
    let ghost all = scored@;
    let ghost pred = passes_filters::<P>(min, exts);
    let mut kept: Vec<ScoredCandidate<P>> = Vec::new();
    for s in it: scored
        invariant
            all == it.seq(),
            exts == extensions@,
            pred == passes_filters::<P>(min, exts),
            kept@ == it.seq().take(it.index() as int).filter(pred),
    {
        proof {
            reveal_with_fuel(Seq::<_>::filter, 1);
        }
        let keep = s.candidate.patch_lines > 0 && (extensions.len() == 0
            || filters::path_has_extension(&s.candidate.file_path, extensions.as_slice()))
            && s.candidate.patch_misses >= min;
        if keep {
            kept.push(s);
        }
        assert(it.seq().take(it.index() + 1).drop_last() =~= it.seq().take(it.index() as int));
    }
    assert(all.take(all.len() as int) =~= all);
    let files_analyzed = kept.len();
    if files_analyzed == 0 {
        let mut m = String::from_str("no files matched the filters for pull request ");
        let id = text::decimal_string(pull_id);
        m.append(id.as_str());
        return Err(AppError::NoCoverageData(m));
    }
    let ghost kept_all = kept@;
    let ranked = ranking::rank_scored(kept);
    let ghost ranked_all = ranked@;
    let mut ranked_files: Vec<RankedFileOutput<P>> = Vec::new();
    for f in it: ranked
        invariant
            ranked_all == it.seq(),
            ranked_files@.len() == min_nat(it.index() as nat, max_results as nat),
            forall|k: int| 0 <= k < ranked_files@.len() ==> #[trigger] ranked_files@[k] == output_entry(ranked_all[k]),
    {
        if ranked_files.len() < max_results {
            ranked_files.push(
                RankedFileOutput {
                    rank: f.rank,
                    file_path: f.file_path,
                    score: f.score,
                    patch_coverage_pct: f.patch_coverage_pct,
                    uncovered_added_lines: f.uncovered_added_lines,
                    total_added_lines: f.total_added_lines,
                    is_new_file: f.is_new_file,
                    reason: f.reason,
                },
            );
        }
    }
    proof {
        assert forall|k: int|
            #![trigger ranked_files@[k]]
            0 <= k < ranked_files@.len() implies {
                &&& ranked_files@[k].rank == ranked_all[k].rank
                &&& ranked_files@[k].file_path == ranked_all[k].file_path
                &&& ranked_files@[k].score == ranked_all[k].score
                &&& ranked_files@[k].patch_coverage_pct == ranked_all[k].patch_coverage_pct
                &&& ranked_files@[k].uncovered_added_lines == ranked_all[k].uncovered_added_lines
                &&& ranked_files@[k].total_added_lines == ranked_all[k].total_added_lines
                &&& ranked_files@[k].is_new_file == ranked_all[k].is_new_file
                &&& ranked_files@[k].reason == ranked_all[k].reason
            } by {
            assert(ranked_files@[k] == output_entry(ranked_all[k]));
        }
        assert(ranking::is_ranking_of(kept_all, ranked_all));
    }
    let out = SuggestTestTargetsOutput {
        pull_id,
        ranked_files,
        ranking_method: String::from_str("weighted_patch_miss_rate"),
        files_analyzed,
        files_excluded: total - files_analyzed,
    };
    proof {
        let kept = all.filter(passes_filters(min_uncovered_of(input), extensions_of(input)));
        assert(kept == kept_all);
        assert(exists|ranked: Seq<RankedFile<P>>|
            {
                &&& #[trigger] ranking::is_ranking_of(kept, ranked)
                &&& forall|k: int|
                    0 <= k < out.ranked_files@.len() ==> #[trigger] out.ranked_files@[k]
                        == output_entry(ranked[k])
                &&& forall|k: int|
                    #![trigger out.ranked_files@[k]]
                    0 <= k < out.ranked_files@.len() ==> {
                        &&& out.ranked_files@[k].rank == ranked[k].rank
                        &&& out.ranked_files@[k].file_path == ranked[k].file_path
                        &&& out.ranked_files@[k].score == ranked[k].score
                        &&& out.ranked_files@[k].patch_coverage_pct == ranked[k].patch_coverage_pct
                        &&& out.ranked_files@[k].uncovered_added_lines == ranked[k].uncovered_added_lines
                        &&& out.ranked_files@[k].total_added_lines == ranked[k].total_added_lines
                        &&& out.ranked_files@[k].is_new_file == ranked[k].is_new_file
                        &&& out.ranked_files@[k].reason == ranked[k].reason
                    }
            });
    }
    Ok(out)
}


/// Filtering by a condition on the candidate and then taking the candidates
/// is taking the candidates and then filtering them.
pub proof fn lemma_filter_candidates<P>(
    scored: Seq<ScoredCandidate<P>>,
    pred: spec_fn(FileCandidate<P>) -> bool,
)
    ensures
        scored.filter(|s: ScoredCandidate<P>| pred(s.candidate)).map_values(
            |s: ScoredCandidate<P>| s.candidate,
        ) == scored.map_values(|s: ScoredCandidate<P>| s.candidate).filter(pred),
    decreases scored.len(),
{
    reveal_with_fuel(Seq::<_>::filter, 1);
    let q = |s: ScoredCandidate<P>| pred(s.candidate);
    let f = |s: ScoredCandidate<P>| s.candidate;
    if scored.len() > 0 {
        lemma_filter_candidates(scored.drop_last(), pred);
        assert(scored.map_values(f).drop_last() =~= scored.drop_last().map_values(f));
        let left = scored.filter(q);
        if q(scored.last()) {
            assert(left.map_values(f) =~= scored.drop_last().filter(q).map_values(f).push(
                scored.last().candidate,
            ));
        }
    } else {
        assert(scored.filter(q).map_values(f) =~= scored.map_values(f).filter(pred));
    }
}

/// The files that `suggest_from_scored` keeps are those that the zero-change,
/// extension and minimum-uncovered filters, applied in that order, keep.
pub proof fn lemma_suggest_keeps_filtered<P>(
    scored: Seq<ScoredCandidate<P>>,
    min: i64,
    extensions: Seq<String>,
)
    ensures
        scored.filter(passes_filters(min, extensions)).map_values(|s: ScoredCandidate<P>| s.candidate)
            == scored.map_values(|s: ScoredCandidate<P>| s.candidate).filter(
            filters::has_changes(),
        ).filter(filters::extension_matches(extensions)).filter(filters::enough_uncovered(min)),
{
    let all = filters::passes_all::<P>(min, extensions);
    assert(passes_filters::<P>(min, extensions) =~= (|s: ScoredCandidate<P>| all(s.candidate)));
    lemma_filter_candidates(scored, all);
    filters::lemma_filters_compose(
        scored.map_values(|s: ScoredCandidate<P>| s.candidate),
        min,
        extensions,
    );
}


/// An output entry reports every figure of its ranked file unchanged: the
/// uncovered added lines as uncovered, the total added lines as total.
pub proof fn lemma_output_entry_fields<P>(r: RankedFile<P>)
    ensures
        output_entry(r).rank == r.rank,
        output_entry(r).file_path == r.file_path,
        output_entry(r).score == r.score,
        output_entry(r).patch_coverage_pct == r.patch_coverage_pct,
        output_entry(r).uncovered_added_lines == r.uncovered_added_lines,
        output_entry(r).total_added_lines == r.total_added_lines,
        output_entry(r).is_new_file == r.is_new_file,
        output_entry(r).reason == r.reason,
{
}

/// A suggested file built from a candidate reports the candidate's misses
/// as uncovered and its lines as total, so it never reports more uncovered
/// than total lines when the candidate does not.
pub proof fn lemma_suggested_counts<P>(s: ScoredCandidate<P>, rank: int)
    requires
        0 <= rank <= usize::MAX,
    ensures
        output_entry(ranking::ranked_entry(s, rank)).uncovered_added_lines == s.candidate.patch_misses,
        output_entry(ranking::ranked_entry(s, rank)).total_added_lines == s.candidate.patch_lines,
        s.candidate.patch_misses <= s.candidate.patch_lines ==> output_entry(
            ranking::ranked_entry(s, rank),
        ).uncovered_added_lines <= output_entry(ranking::ranked_entry(s, rank)).total_added_lines,
{
}


/// The candidate of an impacted file takes the file's current name, the
/// coverage of its patch, head and base sides, the patch's line count as its
/// added lines and the patch's miss count as its uncovered lines (0 where
/// the API leaves a count out).
pub proof fn lemma_candidate_fields<P>(f: ImpactedFile<P>)
    ensures
        candidate_of(f).file_path == f.head_name,
        candidate_of(f).patch_coverage_pct == (match f.patch_totals {
            Some(t) => t.coverage,
            None => None,
        }),
        candidate_of(f).head_coverage_pct == (match f.head_coverage {
            Some(t) => t.coverage,
            None => None,
        }),
        candidate_of(f).base_coverage_pct == (match f.base_coverage {
            Some(t) => t.coverage,
            None => None,
        }),
        candidate_of(f).patch_lines == (match f.patch_totals {
            Some(t) => match t.lines {
                Some(n) => n,
                None => 0,
            },
            None => 0,
        }),
        candidate_of(f).patch_misses == (match f.patch_totals {
            Some(t) => match t.misses {
                Some(n) => n,
                None => 0,
            },
            None => 0,
        }),
{
}

} // verus!
