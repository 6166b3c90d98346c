use codecov_mcp::codecov_client::CodecovClient;
use codecov_mcp::config::Config;
use codecov_mcp::error::AppError;
use codecov_mcp::heuristics::ranking::ScoredCandidate;
use codecov_mcp::models::commit::{CommitDetail, CommitReport, FileTotals, ReportFile, Totals};
use codecov_mcp::models::comparison::{
    ComparisonSummary, ComparisonTotals, ImpactedFile, ImpactedFilesResponse,
};
use codecov_mcp::resources::pr_summary::summary_content;
use codecov_mcp::tools::changed_files::{changed_files_coverage_from, GetChangedFilesCoverageInput};
use codecov_mcp::tools::commit::{
    commit_coverage_from, commit_readiness, wants_files, GetCommitCoverageInput,
};
use codecov_mcp::tools::suggest::{
    candidates_from_impacted, suggest_from_scored, SuggestTestTargetsInput,
};

fn client() -> CodecovClient {
    let config = Config {
        token: "test-token".into(),
        service: "github".into(),
        owner: "test-owner".into(),
        repo: "test-repo".into(),
        base_url: "http://localhost:1234".into(),
        max_retries: 3,
        poll_delay_ms: 0,
    };
    CodecovClient::new(&config).expect("failed to build test client")
}

fn totals(coverage: Option<f64>, lines: i64, hits: i64, misses: i64) -> ComparisonTotals<f64> {
    ComparisonTotals {
        coverage,
        lines: Some(lines),
        hits: Some(hits),
        misses: Some(misses),
        partials: Some(0),
        branches: Some(0),
    }
}

fn impacted() -> Vec<ImpactedFile<f64>> {
    vec![
        ImpactedFile {
            head_name: "src/main.rs".into(),
            base_name: Some("src/main.rs".into()),
            base_coverage: Some(totals(Some(70.0), 100, 70, 30)),
            head_coverage: Some(totals(Some(72.0), 110, 79, 31)),
            patch_totals: Some(totals(Some(60.0), 10, 6, 4)),
        },
        ImpactedFile {
            head_name: "src/new_module.rs".into(),
            base_name: None,
            base_coverage: None,
            head_coverage: Some(totals(Some(50.0), 20, 10, 10)),
            patch_totals: Some(totals(Some(50.0), 20, 10, 10)),
        },
    ]
}

fn summary() -> ComparisonSummary<f64> {
    ComparisonSummary {
        base_commit: Some("aaaaaaaabbbbbbbbccccccccddddddddeeeeeeee".into()),
        head_commit: Some("ffffffff".into()),
        base: Some(totals(Some(72.5), 1000, 725, 275)),
        head: Some(totals(Some(74.0), 1010, 747, 263)),
        patch: Some(totals(Some(60.0), 10, 6, 4)),
    }
}

#[test]
fn changed_files_report_totals_and_files() {
    let c = client();
    let out = changed_files_coverage_from(
        &c,
        GetChangedFilesCoverageInput { pull_id: 42, include_patch_coverage: None },
        summary(),
        ImpactedFilesResponse { state: "processed".into(), files: Some(impacted()) },
    )
    .unwrap();
    assert_eq!(out.pull_id, 42);
    assert_eq!(out.totals.base_coverage_pct, Some(72.5));
    assert_eq!(out.totals.head_coverage_pct, Some(74.0));
    assert_eq!(out.totals.patch_coverage_pct, Some(60.0));
    assert_eq!(out.totals.patch_lines, Some(10));
    assert_eq!(out.files.len(), 2);
    assert_eq!(out.files[0].name, "src/main.rs");
    assert_eq!(out.files[0].patch_coverage_pct, Some(60.0));
    assert_eq!(out.files[0].added_lines, Some(10));
    assert_eq!(out.files[0].uncovered_added_lines, Some(4));
    assert_eq!(out.files[1].name, "src/new_module.rs");
    assert!(out.files[1].base_coverage_pct.is_none());
    assert!(out.codecov_url.contains("pull/42"));
}

#[test]
fn changed_files_without_patch_coverage() {
    let c = client();
    let out = changed_files_coverage_from(
        &c,
        GetChangedFilesCoverageInput { pull_id: 42, include_patch_coverage: Some(false) },
        summary(),
        ImpactedFilesResponse { state: "processed".into(), files: Some(impacted()) },
    )
    .unwrap();
    for file in &out.files {
        assert!(file.patch_coverage_pct.is_none());
        assert!(file.added_lines.is_some());
    }
}

#[test]
fn changed_files_without_any_data_fail() {
    let c = client();
    let mut s = summary();
    s.patch = None;
    let r = changed_files_coverage_from(
        &c,
        GetChangedFilesCoverageInput { pull_id: 7, include_patch_coverage: None },
        s,
        ImpactedFilesResponse { state: "processed".into(), files: None },
    );
    match r {
        Err(AppError::NoCoverageData(m)) => {
            assert_eq!(m, "no coverage data available for pull request 7")
        }
        _ => panic!("expected NoCoverageData"),
    }
}

#[test]
fn candidates_default_missing_counts_to_zero() {
    let files = vec![ImpactedFile::<f64> {
        head_name: "src/gone.rs".into(),
        base_name: Some("src/gone.rs".into()),
        base_coverage: Some(totals(Some(10.0), 5, 1, 4)),
        head_coverage: None,
        patch_totals: None,
    }];
    let c = candidates_from_impacted(files);
    assert_eq!(c.len(), 1);
    assert_eq!(c[0].file_path, "src/gone.rs");
    assert_eq!(c[0].patch_lines, 0);
    assert_eq!(c[0].patch_misses, 0);
    assert_eq!(c[0].base_coverage_pct, Some(10.0));
    assert!(c[0].head_coverage_pct.is_none());
}

fn scored_impacted() -> Vec<ScoredCandidate<f64>> {
    candidates_from_impacted(impacted())
        .into_iter()
        .enumerate()
        .map(|(i, c)| ScoredCandidate {
            candidate: c,
            score: i as f64,
            score_key: i as u64,
            reason: "r".into(),
        })
        .collect()
}

fn input(max: Option<usize>, min: Option<i64>, exts: Option<Vec<String>>) -> SuggestTestTargetsInput {
    SuggestTestTargetsInput {
        pull_id: 42,
        max_results: max,
        min_uncovered_lines: min,
        file_extensions: exts,
    }
}

#[test]
fn suggest_ranks_all_matching_files() {
    let out = suggest_from_scored(input(None, None, None), scored_impacted()).unwrap();
    assert_eq!(out.pull_id, 42);
    assert_eq!(out.files_analyzed, 2);
    assert_eq!(out.files_excluded, 0);
    assert_eq!(out.ranking_method, "weighted_patch_miss_rate");
    assert_eq!(out.ranked_files[0].rank, 1);
    assert!(out.ranked_files[0].score >= out.ranked_files[1].score);
    let new_file = out
        .ranked_files
        .iter()
        .find(|f| f.file_path == "src/new_module.rs")
        .expect("new_module.rs should be in results");
    assert!(new_file.is_new_file);
}

#[test]
fn suggest_honours_max_results() {
    let out = suggest_from_scored(input(Some(1), None, None), scored_impacted()).unwrap();
    assert_eq!(out.ranked_files.len(), 1);
    assert_eq!(out.files_analyzed, 2);
}

#[test]
fn suggest_extension_filter() {
    let out =
        suggest_from_scored(input(None, None, Some(vec![".rs".into()])), scored_impacted()).unwrap();
    assert_eq!(out.files_analyzed, 2);
    assert_eq!(out.files_excluded, 0);
    let r = suggest_from_scored(input(None, None, Some(vec![".py".into()])), scored_impacted());
    match r {
        Err(AppError::NoCoverageData(m)) => {
            assert_eq!(m, "no files matched the filters for pull request 42")
        }
        _ => panic!("expected NoCoverageData"),
    }
}

#[test]
fn suggest_min_uncovered_counts_excluded_files() {
    let out = suggest_from_scored(input(None, Some(5), None), scored_impacted()).unwrap();
    assert_eq!(out.files_analyzed, 1);
    assert_eq!(out.files_excluded, 1);
    assert_eq!(out.ranked_files[0].file_path, "src/new_module.rs");
}

fn detail(state: Option<&str>) -> CommitDetail<f64> {
    CommitDetail {
        commitid: "abc123def456abc123def456abc123def456abc1".into(),
        branch: Some("main".into()),
        state: state.map(String::from),
        totals: Some(Totals {
            coverage: Some(75.0),
            lines: Some(100),
            hits: Some(75),
            misses: Some(20),
            partials: Some(5),
            branches: Some(0),
        }),
    }
}

#[test]
fn commit_readiness_needs_complete_state() {
    assert!(commit_readiness(&detail(Some("complete"))).is_ok());
    match commit_readiness(&detail(Some("pending"))) {
        Err(AppError::CoverageNotReady { state }) => assert_eq!(state, "pending"),
        _ => panic!("expected CoverageNotReady"),
    }
    match commit_readiness(&detail(None)) {
        Err(AppError::CoverageNotReady { state }) => assert_eq!(state, "unknown"),
        _ => panic!("expected CoverageNotReady"),
    }
}

#[test]
fn commit_output_without_files() {
    let sha = "abc123def456abc123def456abc123def456abc1";
    let inp = GetCommitCoverageInput { sha: sha.into(), include_files: None };
    assert!(!wants_files(&inp));
    let out = commit_coverage_from(&client(), inp, detail(Some("complete")), None);
    assert_eq!(out.commit_sha, sha);
    assert_eq!(out.state, "complete");
    assert_eq!(out.coverage_pct, Some(75.0));
    assert_eq!(out.lines, Some(100));
    assert_eq!(out.hits, Some(75));
    assert!(out.files.is_none());
    assert!(out.codecov_url.contains(sha));
}

#[test]
fn commit_output_with_files() {
    let sha = "abc123def456abc123def456abc123def456abc1";
    let inp = GetCommitCoverageInput { sha: sha.into(), include_files: Some(true) };
    assert!(wants_files(&inp));
    let report = CommitReport {
        files: Some(vec![
            ReportFile { name: "src/main.rs".into(), totals: Some(FileTotals { coverage: Some(80.0) }) },
            ReportFile { name: "src/lib.rs".into(), totals: None },
        ]),
    };
    let out = commit_coverage_from(&client(), inp, detail(Some("complete")), Some(report));
    let files = out.files.expect("files should be populated");
    assert_eq!(files.len(), 2);
    assert_eq!(files[0].name, "src/main.rs");
    assert_eq!(files[0].coverage_pct, Some(80.0));
    assert_eq!(files[1].coverage_pct, None);
}

#[test]
fn pr_summary_content_copies_the_summary() {
    let c = client();
    let content = summary_content(&c, 42, summary());
    assert_eq!(content.pull_id, 42);
    assert_eq!(content.owner, "test-owner");
    assert_eq!(content.repo, "test-repo");
    assert_eq!(content.service, "github");
    assert_eq!(content.base_coverage_pct, Some(72.5));
    assert_eq!(content.head_coverage_pct, Some(74.0));
    assert_eq!(content.patch_coverage_pct, Some(60.0));
    assert_eq!(content.patch_misses, Some(4));
    assert_eq!(content.codecov_url, "https://app.codecov.io/gh/test-owner/test-repo/pull/42");
}
