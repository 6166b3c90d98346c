use codecov_mcp::heuristics::ranking::{is_new_file, rank_scored, FileCandidate, ScoredCandidate};

fn candidate(path: &str, head: Option<f64>, base: Option<f64>) -> FileCandidate<f64> {
    FileCandidate {
        file_path: path.into(),
        patch_coverage_pct: Some(50.0),
        patch_lines: 10,
        patch_misses: 5,
        head_coverage_pct: head,
        base_coverage_pct: base,
    }
}

fn scored(path: &str, key: u64) -> ScoredCandidate<f64> {
    ScoredCandidate {
        candidate: candidate(path, Some(50.0), Some(50.0)),
        score: key as f64,
        score_key: key,
        reason: format!("reason {path}"),
    }
}

#[test]
fn ranks_descending_by_score_from_one() {
    let ranked = rank_scored(vec![scored("low", 1), scored("high", 9), scored("mid", 5)]);
    let paths: Vec<&str> = ranked.iter().map(|r| r.file_path.as_str()).collect();
    assert_eq!(paths, vec!["high", "mid", "low"]);
    let ranks: Vec<usize> = ranked.iter().map(|r| r.rank).collect();
    assert_eq!(ranks, vec![1, 2, 3]);
    assert_eq!(ranked[0].score, 9.0);
    assert_eq!(ranked[0].reason, "reason high");
    assert_eq!(ranked[0].uncovered_added_lines, 5);
    assert_eq!(ranked[0].total_added_lines, 10);
    assert_eq!(ranked[0].patch_coverage_pct, Some(50.0));
}

#[test]
fn equal_scores_keep_their_order() {
    let ranked = rank_scored(vec![
        scored("a", 3),
        scored("b", 7),
        scored("c", 3),
        scored("d", 7),
        scored("e", 3),
    ]);
    let paths: Vec<&str> = ranked.iter().map(|r| r.file_path.as_str()).collect();
    assert_eq!(paths, vec!["b", "d", "a", "c", "e"]);
}

#[test]
fn ranking_nothing_gives_nothing() {
    assert!(rank_scored(Vec::<ScoredCandidate<f64>>::new()).is_empty());
}

#[test]
fn new_file_flag_follows_base_and_head_coverage() {
    assert!(is_new_file(&candidate("n", Some(75.0), None)));
    assert!(!is_new_file(&candidate("o", Some(75.0), Some(75.0))));
    assert!(!is_new_file(&candidate("d", None, None)));
    let ranked = rank_scored(vec![
        ScoredCandidate {
            candidate: candidate("src/new.rs", Some(75.0), None),
            score: 0.4,
            score_key: 4,
            reason: String::new(),
        },
        ScoredCandidate {
            candidate: candidate("src/old.rs", Some(75.0), Some(75.0)),
            score: 0.3,
            score_key: 3,
            reason: String::new(),
        },
    ]);
    let new = ranked.iter().find(|r| r.file_path == "src/new.rs").unwrap();
    let old = ranked.iter().find(|r| r.file_path == "src/old.rs").unwrap();
    assert!(new.is_new_file);
    assert!(!old.is_new_file);
}

/// A candidate built as the scoring tests build theirs.
fn scoring_candidate(
    file_path: &str,
    patch_lines: i64,
    patch_misses: i64,
    head_pct: Option<f64>,
    base_pct: Option<f64>,
) -> FileCandidate<f64> {
    let patch_hits = patch_lines - patch_misses;
    let patch_coverage_pct = if patch_lines > 0 {
        Some(patch_hits as f64 / patch_lines as f64 * 100.0)
    } else {
        None
    };
    FileCandidate {
        file_path: file_path.into(),
        patch_coverage_pct,
        patch_lines,
        patch_misses,
        head_coverage_pct: head_pct,
        base_coverage_pct: base_pct,
    }
}

/// Scores in the order the weighted formula gives them, with integer keys
/// in that same order.
fn with_score(c: FileCandidate<f64>, score: f64, key: u64) -> ScoredCandidate<f64> {
    ScoredCandidate { candidate: c, score, score_key: key, reason: String::new() }
}

#[test]
fn test_rank_files_sorted_descending() {
    let high = scoring_candidate("src/high.rs", 10, 10, Some(50.0), Some(50.0));
    let low = scoring_candidate("src/low.rs", 10, 0, Some(80.0), Some(80.0));
    // Weighted scores: high = 0.56, low = 0.0.
    let ranked = rank_scored(vec![with_score(low, 0.0, 0), with_score(high, 0.56, 56)]);
    assert_eq!(ranked[0].file_path, "src/high.rs");
    assert_eq!(ranked[0].rank, 1);
    assert_eq!(ranked[1].file_path, "src/low.rs");
    assert_eq!(ranked[1].rank, 2);
}

#[test]
fn test_rank_files_is_new_file_flag() {
    let new_file = scoring_candidate("src/new.rs", 20, 5, Some(75.0), None);
    let old_file = scoring_candidate("src/old.rs", 20, 5, Some(75.0), Some(75.0));
    // Weighted scores: new = 0.305, old = 0.155.
    let ranked = rank_scored(vec![with_score(new_file, 0.305, 305), with_score(old_file, 0.155, 155)]);
    let new = ranked.iter().find(|r| r.file_path == "src/new.rs").unwrap();
    let old = ranked.iter().find(|r| r.file_path == "src/old.rs").unwrap();
    assert!(new.is_new_file);
    assert!(!old.is_new_file);
}
