use chrono::Datelike;
use use_case_coverage::domain::{
    Artifact, ArtifactCoverageIndex, ArtifactTestLocation, FeatureDocument, FeatureMetadata,
    Priority, UccLintIssue, UccLintResult,
};
use use_case_coverage::report::{
    build_growth_data, build_report_data, feature_row, is_bug, lint_issue_rows,
    month_short_name, month_tally, parse_year_month, tally_artifacts, year_month_from,
};
use use_case_coverage::templates::{css_template, html_template, js_template, ts_template};

fn artifact(id: &str, kind: Option<&str>, created_at: &str) -> Artifact {
    Artifact {
        id: id.to_string(),
        artifact_type: kind.map(str::to_string),
        created_at: created_at.to_string(),
        updated_at: None,
        last_modified_at: None,
        title: format!("Title of {id}"),
        priority: Priority::High,
        related: vec![],
        platforms: vec![],
        steps: vec![],
        expected: vec![],
        tags: vec![],
        coverage_gap_reason: None,
    }
}

fn feature(id: &str, created_at: &str, artifacts: Vec<Artifact>) -> FeatureDocument {
    FeatureDocument {
        source_path: format!("{id}.ucc"),
        schema_version: "1.0".to_string(),
        feature: FeatureMetadata {
            id: id.to_string(),
            title: format!("Feature {id}"),
            created_at: created_at.to_string(),
            updated_at: None,
            last_modified_at: None,
            description: "desc".to_string(),
        },
        tags: vec![],
        platforms: vec!["web".to_string()],
        related_features: vec![],
        artifacts,
    }
}

#[test]
fn is_bug_identifies_bugs_and_regressions() {
    assert!(is_bug(Some("bug")));
    assert!(is_bug(Some("BUG")));
    assert!(is_bug(Some("regression")));
    assert!(is_bug(Some("Regression")));
    assert!(!is_bug(Some("usecase")));
    assert!(!is_bug(None));
}

#[test]
fn is_bug_looks_for_the_words_anywhere() {
    assert!(is_bug(Some("ui-bug")));
    assert!(is_bug(Some("Performance Regression")));
    assert!(!is_bug(Some("feature")));
    assert!(!is_bug(Some("")));
}

#[test]
fn month_short_name_returns_correct_names() {
    assert_eq!(month_short_name(1), "Jan");
    assert_eq!(month_short_name(12), "Dec");
    assert_eq!(month_short_name(13), "??");
}

#[test]
fn month_short_name_covers_every_month() {
    let names: Vec<&str> = (1..=12).map(month_short_name).collect();
    assert_eq!(
        names,
        vec!["Jan", "Feb", "Mar", "Apr", "May", "Jun", "Jul", "Aug", "Sep", "Oct", "Nov", "Dec"]
    );
    assert_eq!(month_short_name(0), "??");
}

#[test]
fn parse_year_month_handles_valid_and_invalid_dates() {
    assert_eq!(parse_year_month("2026-05-10"), Some((2026, 5)));
    assert_eq!(parse_year_month("2026-13-10"), None);
    assert_eq!(parse_year_month("invalid"), None);
    assert_eq!(parse_year_month("2026-05"), Some((2026, 5)));
}

#[test]
fn parse_year_month_falls_back_to_the_year_and_month() {
    // Not a calendar date, but its year and month are still read.
    assert_eq!(parse_year_month("2026-02-30"), Some((2026, 2)));
    assert_eq!(parse_year_month("+2026-03"), Some((2026, 3)));
    assert_eq!(parse_year_month("2026"), None);
    assert_eq!(parse_year_month("2026-0"), None);
    assert_eq!(parse_year_month("-2026-05"), None);
    assert_eq!(parse_year_month(""), None);
}

#[test]
fn parse_year_month_reads_full_dates_with_chrono() {
    // The full-date reading accepts what the `YYYY-MM` reading does not.
    assert_eq!(parse_year_month(" 2026-05-10"), Some((2026, 5)));
    assert_eq!(parse_year_month("-2026-05-10"), Some((-2026, 5)));
    assert_eq!(parse_year_month("2026-5-9"), Some((2026, 5)));
}

#[test]
fn growth_ends_in_the_current_month() {
    let now = chrono::Local::now();
    let growth = build_growth_data(&[], &ArtifactCoverageIndex::new(), now.year(), now.month());
    assert_eq!(growth.months[11], month_short_name(now.month()));
    assert_eq!(growth.features, vec![0; 12]);
}

#[test]
fn year_month_from_prefers_the_full_date() {
    assert_eq!(year_month_from(Some((2020, 1)), "2026-05"), Some((2020, 1)));
    assert_eq!(year_month_from(None, "2026-05"), Some((2026, 5)));
    assert_eq!(year_month_from(None, "2026-13-10"), None);
    assert_eq!(year_month_from(None, "invalid"), None);
    assert_eq!(year_month_from(None, "99999999999-01"), None);
    assert_eq!(year_month_from(None, "2147483647-12-01"), Some((2147483647, 12)));
}

#[test]
fn tally_counts_use_cases_and_bugs_by_coverage() {
    let arts = vec![
        artifact("ucc-1", None, "2026-05-10"),
        artifact("ucc-2", Some("usecase"), "2026-04-01"),
        artifact("bug-1", Some("bug"), "2026-05-02"),
        artifact("bug-2", Some("Regression"), "2026-05-03"),
    ];
    let mut index = ArtifactCoverageIndex::new();
    index.insert("ucc-1".to_string(), vec![]);
    index.insert("bug-2".to_string(), vec![]);

    let all = tally_artifacts(&arts, &index, None);
    assert_eq!(all.artifacts, 4);
    assert_eq!(all.use_cases, 2);
    assert_eq!(all.covered_use_cases, 1);
    assert_eq!(all.bugs, 2);
    assert_eq!(all.covered_bugs, 1);

    let may = tally_artifacts(&arts, &index, Some((2026, 5)));
    assert_eq!(may.artifacts, 3);
    assert_eq!(may.use_cases, 1);
    assert_eq!(may.bugs, 2);
    assert_eq!(may.covered_bugs, 1);
}

#[test]
fn feature_row_lists_artifacts_and_counts() {
    let doc = feature(
        "feat-1",
        "2026-05-10",
        vec![artifact("ucc-1", None, "2026-05-10"), artifact("bug-1", Some("bug"), "2026-05-10")],
    );
    let mut index = ArtifactCoverageIndex::new();
    index.insert(
        "ucc-1".to_string(),
        vec![ArtifactTestLocation { file_path: "t.rs".to_string(), line: 4 }],
    );
    let row = feature_row(&doc, &index);
    assert_eq!(row.id, "feat-1");
    assert_eq!(row.updated_at, "");
    assert_eq!((row.use_cases, row.use_cases_covered, row.bugs, row.bugs_covered), (1, 1, 1, 0));
    assert_eq!(row.artifacts.len(), 2);
    assert_eq!(row.artifacts[0].artifact_type, "usecase");
    assert!(row.artifacts[0].is_covered);
    assert_eq!(row.artifacts[0].coverage_locations.len(), 1);
    assert_eq!(row.artifacts[0].coverage_locations[0].line, 4);
    assert_eq!(row.artifacts[1].artifact_type, "bug");
    assert!(!row.artifacts[1].is_covered);
    assert!(row.artifacts[1].coverage_locations.is_empty());
}

#[test]
fn growth_data_counts_each_month() {
    let features = vec![
        feature(
            "feat-1",
            "2026-05-10",
            vec![
                artifact("ucc-1", None, "2026-05-10"),
                artifact("bug-1", Some("bug"), "2026-05-11"),
                artifact("ucc-2", None, "2025-06-01"),
                artifact("ucc-3", None, "2025-05-31"),
            ],
        ),
        feature("feat-2", "2026-01-02", vec![]),
    ];
    let mut index = ArtifactCoverageIndex::new();
    index.insert("ucc-1".to_string(), vec![]);
    index.insert("ucc-2".to_string(), vec![]);

    let growth = build_growth_data(&features, &index, 2026, 5);
    assert_eq!(
        growth.months,
        vec!["Jun", "Jul", "Aug", "Sep", "Oct", "Nov", "Dec", "Jan", "Feb", "Mar", "Apr", "May"]
    );
    assert_eq!(growth.features, vec![0, 0, 0, 0, 0, 0, 0, 1, 0, 0, 0, 1]);
    assert_eq!(growth.artifacts, vec![1, 0, 0, 0, 0, 0, 0, 0, 0, 0, 0, 2]);
    assert_eq!(growth.use_cases, vec![1, 0, 0, 0, 0, 0, 0, 0, 0, 0, 0, 1]);
    assert_eq!(growth.covered_use_cases, vec![1, 0, 0, 0, 0, 0, 0, 0, 0, 0, 0, 1]);
    assert_eq!(growth.bugs, vec![0, 0, 0, 0, 0, 0, 0, 0, 0, 0, 0, 1]);
    assert_eq!(growth.covered_bugs, vec![0; 12]);
}

#[test]
fn growth_ends_in_the_given_month_across_years() {
    let growth = build_growth_data(&[], &ArtifactCoverageIndex::new(), 2025, 12);
    assert_eq!(growth.months[0], "Jan");
    assert_eq!(growth.months[11], "Dec");
    let growth = build_growth_data(&[], &ArtifactCoverageIndex::new(), 2026, 1);
    assert_eq!(growth.months[0], "Feb");
    assert_eq!(growth.months[11], "Jan");
}

#[test]
fn month_tally_counts_features_and_artifacts_of_one_month() {
    let features = vec![
        feature("feat-1", "2026-05-10", vec![artifact("ucc-1", None, "2026-05-10")]),
        feature("feat-2", "2026-05-01", vec![artifact("bug-1", Some("bug"), "2026-04-10")]),
    ];
    let (n, t) = month_tally(&features, &ArtifactCoverageIndex::new(), 2026, 5);
    assert_eq!(n, 2);
    assert_eq!((t.artifacts, t.use_cases, t.bugs), (1, 1, 0));
}

#[test]
fn build_growth_data_handles_multiple_months() {
    let now = chrono::Local::now();
    let (now_y, now_m) = (now.year(), now.month());
    let date_str = format!("{now_y}-{now_m:02}-10");

    let features = vec![feature(
        "feat-1",
        &date_str,
        vec![artifact("ucc-1", None, &date_str), artifact("bug-1", Some("bug"), &date_str)],
    )];

    let mut index = ArtifactCoverageIndex::default();
    index.insert("ucc-1".to_string(), vec![]);
    index.insert("bug-1".to_string(), vec![]);

    let growth = build_growth_data(&features, &index, now_y, now_m);

    assert_eq!(growth.months.len(), 12);
    assert_eq!(growth.use_cases[11], 1);
    assert_eq!(growth.bugs[11], 1);
    assert_eq!(growth.covered_use_cases[11], 1);
    assert_eq!(growth.covered_bugs[11], 1);
}

#[test]
fn report_data_sums_up_features_and_lint() {
    let features = vec![feature("feat-1", "2026-05-10", vec![artifact("ucc-feat-1", None, "2026-05-10")])];
    let lint_results = vec![UccLintResult {
        file_path: "feature.ucc".to_string(),
        is_valid: true,
        issue: None,
    }];
    let data = build_report_data(&features, &lint_results, &ArtifactCoverageIndex::default(), 2026, 5);
    assert_eq!(data.summary.total_features, 1);
    assert_eq!(data.summary.total_use_cases, 1);
    assert_eq!(data.summary.covered_use_cases, 0);
    assert_eq!(data.summary.total_bugs, 0);
    assert_eq!(data.summary.valid_ucc_files, 1);
    assert_eq!(data.summary.invalid_ucc_files, 0);
    assert_eq!(data.features.len(), 1);
    assert!(data.lint_issues.is_empty());
    assert_eq!(data.growth.months.len(), 12);
}

#[test]
fn includes_lint_errors_in_output_data() {
    let lint_results = vec![
        UccLintResult {
            file_path: "/tmp/broken.ucc".to_string(),
            is_valid: false,
            issue: Some(UccLintIssue {
                message: "invalid type".to_string(),
                line: Some(12),
                column: Some(8),
                suggestion: Some("Fix schema type".to_string()),
            }),
        },
        UccLintResult { file_path: "ok.ucc".to_string(), is_valid: true, issue: None },
        UccLintResult { file_path: "odd.ucc".to_string(), is_valid: false, issue: None },
    ];
    let data = build_report_data(&[], &lint_results, &ArtifactCoverageIndex::default(), 2026, 5);
    assert_eq!(data.summary.valid_ucc_files, 1);
    assert_eq!(data.summary.invalid_ucc_files, 2);
    assert_eq!(data.lint_issues.len(), 2);
    assert!(data.lint_issues[0].file.contains("broken.ucc"));
    assert_eq!(data.lint_issues[0].suggestion.as_deref(), Some("Fix schema type"));
    assert_eq!(data.lint_issues[0].line, Some(12));
    assert_eq!(data.lint_issues[0].column, Some(8));
    assert_eq!(data.lint_issues[1].file, "odd.ucc");
    assert_eq!(data.lint_issues[1].message, "");

    let rows = lint_issue_rows(&lint_results);
    assert_eq!(rows, data.lint_issues);
}

#[test]
fn html_page_embeds_name_date_and_data() {
    let html = html_template("test-repo", "May 10, 2026", "{\"totalFeatures\": 1}");
    assert!(html.contains("UCC Report"));
    assert!(html.contains("./vendor/d3.v7.min.js"));
    assert!(html.contains("./vendor/chart.js"));
    assert!(html.contains("<title>UCC Report - May 10, 2026</title>"));
    assert!(html.contains("{\"totalFeatures\": 1}</script>"));
    assert!(html.contains("<span class=\"repo-name\">test-repo</span>"));
    assert!(html.starts_with("<!DOCTYPE html>"));
    assert!(html.ends_with("</html>"));
}

#[test]
fn stylesheet_and_scripts_are_complete() {
    assert!(css_template().starts_with(":root {"));
    assert!(ts_template().starts_with("// @ts-nocheck"));
    assert!(ts_template().contains("function bootstrap()"));
    assert!(js_template().trim_end().ends_with("void bootstrap();"));
}
