use codecov_mcp::heuristics::filters::{
    apply_extension_filter, apply_min_uncovered_lines_filter, apply_zero_change_filter,
};
use codecov_mcp::heuristics::ranking::FileCandidate;

fn make(path: &str, patch_lines: i64, patch_misses: i64) -> FileCandidate<f64> {
    FileCandidate {
        file_path: path.into(),
        patch_coverage_pct: None,
        patch_lines,
        patch_misses,
        head_coverage_pct: Some(75.0),
        base_coverage_pct: Some(75.0),
    }
}

#[test]
fn test_extension_filter_keeps_matching() {
    let files = vec![make("src/main.rs", 10, 5), make("src/lib.py", 10, 5)];
    let result = apply_extension_filter(files, &[".rs".to_string()]);
    assert_eq!(result.len(), 1);
    assert_eq!(result[0].file_path, "src/main.rs");
}

#[test]
fn test_extension_filter_empty_keeps_all() {
    let files = vec![make("src/main.rs", 10, 5), make("src/lib.py", 10, 5)];
    let result = apply_extension_filter(files, &[]);
    assert_eq!(result.len(), 2);
}

#[test]
fn test_extension_filter_no_match_returns_empty() {
    let files = vec![make("src/main.rs", 10, 5)];
    let result = apply_extension_filter(files, &[".ts".to_string()]);
    assert!(result.is_empty());
}

#[test]
fn test_extension_filter_multiple_extensions() {
    let files = vec![
        make("src/main.rs", 10, 5),
        make("src/lib.py", 10, 5),
        make("src/app.ts", 10, 5),
    ];
    let result = apply_extension_filter(files, &[".rs".to_string(), ".py".to_string()]);
    assert_eq!(result.len(), 2);
}

#[test]
fn test_min_uncovered_lines_filter() {
    let files = vec![
        make("src/a.rs", 10, 0),
        make("src/b.rs", 10, 3),
        make("src/c.rs", 10, 10),
    ];
    let result = apply_min_uncovered_lines_filter(files, 3);
    assert_eq!(result.len(), 2);
    assert!(result.iter().all(|f| f.patch_misses >= 3));
}

#[test]
fn test_min_uncovered_lines_filter_excludes_zero() {
    let files = vec![make("src/a.rs", 10, 0), make("src/b.rs", 10, 1)];
    let result = apply_min_uncovered_lines_filter(files, 1);
    assert_eq!(result.len(), 1);
    assert_eq!(result[0].file_path, "src/b.rs");
}

#[test]
fn test_zero_change_filter() {
    let files = vec![make("src/deleted.rs", 0, 0), make("src/changed.rs", 5, 2)];
    let result = apply_zero_change_filter(files);
    assert_eq!(result.len(), 1);
    assert_eq!(result[0].file_path, "src/changed.rs");
}

#[test]
fn extension_filter_keeps_order_and_non_ascii_paths() {
    let files = vec![
        make("src/über.rs", 1, 1),
        make("docs/readme.md", 1, 1),
        make("src/z.rs", 1, 1),
    ];
    let result = apply_extension_filter(files, &[".rs".to_string()]);
    assert_eq!(result.len(), 2);
    assert_eq!(result[0].file_path, "src/über.rs");
    assert_eq!(result[1].file_path, "src/z.rs");
}

#[test]
fn min_uncovered_filter_with_negative_minimum_keeps_all() {
    let files = vec![make("a.rs", 1, 0), make("b.rs", 1, -2)];
    let result = apply_min_uncovered_lines_filter(files, -5);
    assert_eq!(result.len(), 2);
}
