use std::collections::BTreeMap;

use use_case_coverage::domain::{
    Artifact, FeatureDocument, FeatureMetadata, Priority, UccLintResult,
};
use use_case_coverage::infrastructure::{RawArtifact, RawFeatureMetadata, RawUccDocument};
use use_case_coverage::lint::{extract_line_and_column, infer_suggestion};
use use_case_coverage::matcher::{artifact_id_patterns, id_char, ArtifactIdMatcher};
use use_case_coverage::paths::{deduplicate_roots, merge_paths};
use use_case_coverage::ports::{CoreError, TestFileRepository, UccFileRepository, UccParser};
use use_case_coverage::usecases::{
    collect_parsed, CollectFeaturesUseCase, FindArtifactCoverageUseCase, LintUccFormatsUseCase,
};

/// Files held in memory, by path.
#[derive(Default)]
struct InMemoryUccRepository {
    files: BTreeMap<String, String>,
}

impl InMemoryUccRepository {
    fn with_file(mut self, path: &str, content: String) -> Self {
        self.files.insert(path.to_string(), content);
        self
    }
}

fn parent(path: &str) -> &str {
    match path.rfind('/') {
        Some(0) => "/",
        Some(i) => &path[..i],
        None => "",
    }
}

fn under(path: &str, root: &str) -> bool {
    let root = root.trim_end_matches('/');
    path.starts_with(&format!("{root}/"))
}

impl UccFileRepository for InMemoryUccRepository {
    fn find_ucc_files(&self, root: &str, recursive: bool) -> Result<Vec<String>, CoreError> {
        Ok(self
            .files
            .keys()
            .filter(|path| {
                let placed = if recursive { under(path, root) } else { parent(path) == root };
                placed && path.ends_with(".ucc")
            })
            .cloned()
            .collect())
    }

    fn read_file(&self, path: &str) -> Result<String, CoreError> {
        self.files.get(path).cloned().ok_or_else(|| CoreError::Io {
            path: path.to_string(),
            message: "file not found in repository".to_string(),
        })
    }
}

impl TestFileRepository for InMemoryUccRepository {
    fn find_test_files(&self, root: &str) -> Result<Vec<String>, CoreError> {
        Ok(self
            .files
            .keys()
            .filter(|path| {
                under(path, root)
                    && [".swift", ".ts", ".tsx", ".kt", ".kts", ".rs"]
                        .iter()
                        .any(|ext| path.ends_with(ext))
            })
            .cloned()
            .collect())
    }

    fn read_lines(&self, path: &str) -> Result<Vec<String>, CoreError> {
        self.files
            .get(path)
            .map(|content| content.lines().map(ToOwned::to_owned).collect())
            .ok_or_else(|| CoreError::Io {
                path: path.to_string(),
                message: "file not found in repository".to_string(),
            })
    }
}

/// Reads `.ucc` YAML through `serde_yaml::Value`.
struct ValueParser;

fn text(v: &serde_yaml::Value, key: &str) -> Option<String> {
    v.get(key).and_then(|x| match x {
        serde_yaml::Value::String(s) => Some(s.clone()),
        serde_yaml::Value::Number(n) => Some(n.to_string()),
        _ => None,
    })
}

fn texts(v: &serde_yaml::Value, key: &str) -> Vec<String> {
    v.get(key)
        .and_then(serde_yaml::Value::as_sequence)
        .map(|items| items.iter().filter_map(|i| i.as_str().map(str::to_string)).collect())
        .unwrap_or_default()
}

fn raw_document(v: &serde_yaml::Value) -> Option<RawUccDocument> {
    let f = v.get("feature")?;
    let artifacts = v
        .get("artifacts")
        .and_then(serde_yaml::Value::as_sequence)
        .map(|items| {
            items
                .iter()
                .map(|a| {
                    let priority = match a.get("priority").and_then(serde_yaml::Value::as_str) {
                        Some(name) => {
                            let chars: Vec<char> = name.chars().collect();
                            Priority::from_name(&chars)?
                        },
                        None => Priority::default_priority(),
                    };
                    Some(RawArtifact {
                        id: text(a, "id")?,
                        artifact_type: text(a, "type"),
                        created_at: text(a, "created_at")?,
                        updated_at: text(a, "updated_at"),
                        title: text(a, "title")?,
                        priority,
                        related: texts(a, "related"),
                        platforms: texts(a, "platforms"),
                        steps: texts(a, "steps"),
                        expected: texts(a, "expected"),
                        tags: texts(a, "tags"),
                        coverage_gap_reason: text(a, "coverage_gap_reason"),
                    })
                })
                .collect::<Option<Vec<_>>>()
        })
        .unwrap_or(Some(vec![]))?;
    Some(RawUccDocument {
        schema_version: text(v, "schema_version")?,
        feature: RawFeatureMetadata {
            id: text(f, "id")?,
            title: text(f, "title")?,
            created_at: text(f, "created_at")?,
            updated_at: text(f, "updated_at"),
            description: text(f, "description")?,
        },
        tags: texts(v, "tags"),
        platforms: texts(v, "platforms"),
        related_features: texts(v, "related_features"),
        artifacts,
    })
}

impl UccParser for ValueParser {
    fn parse(&self, source_path: &str, content: &str) -> Result<FeatureDocument, CoreError> {
        let value: serde_yaml::Value = serde_yaml::from_str(content).map_err(|e| {
            CoreError::Parse { path: source_path.to_string(), reason: e.to_string() }
        })?;
        raw_document(&value)
            .map(|raw| raw.into_feature_document(source_path.to_string()))
            .ok_or_else(|| CoreError::Parse {
                path: source_path.to_string(),
                reason: "missing or invalid field".to_string(),
            })
    }
}

fn sample_document(feature_id: &str, priority: Priority) -> String {
    format!(
        r#"schema_version: "1.0"

feature:
  id: {feature_id}
  title: Feature {feature_id}
  created_at: "2026-05-10"
  description: >
    Feature generated for in-memory tests.

tags:
  - generated

platforms:
  - android

artifacts:
  - id: ucc-{feature_id}
    created_at: "2026-05-10"
    title: Generated use case
    priority: {}
    steps:
      - Step 1
    expected:
      - Expected 1

  - id: bug-{feature_id}
    type: regression
    created_at: "2026-05-10"
    title: Generated bug
    steps:
      - Repro
    expected:
      - Should pass
"#,
        priority.as_str()
    )
}

fn bare_artifact(id: &str, created_at: &str) -> Artifact {
    Artifact {
        id: id.to_string(),
        artifact_type: None,
        created_at: created_at.to_string(),
        updated_at: None,
        last_modified_at: None,
        title: format!("UC {id}"),
        priority: Priority::High,
        related: vec![],
        platforms: vec![],
        steps: vec![],
        expected: vec![],
        tags: vec![],
        coverage_gap_reason: None,
    }
}

fn single_feature(created_at: &str, artifacts: Vec<Artifact>) -> Vec<FeatureDocument> {
    vec![FeatureDocument {
        source_path: "feat.ucc".to_string(),
        schema_version: "1.0".to_string(),
        feature: FeatureMetadata {
            id: "feat-1".to_string(),
            title: "Feat 1".to_string(),
            created_at: created_at.to_string(),
            updated_at: None,
            last_modified_at: None,
            description: "desc".to_string(),
        },
        tags: vec![],
        platforms: vec![],
        related_features: vec![],
        artifacts,
    }]
}

fn coverage_lines(repository: InMemoryUccRepository, root: &str, id: &str) -> Vec<usize> {
    let collect = CollectFeaturesUseCase::new(repository, ValueParser);
    let features = collect.execute(&[root.to_string()], true).expect("features should parse");
    let finder = FindArtifactCoverageUseCase::new(collect.repository);
    let index = finder.execute(&[root.to_string()], &features).expect("coverage search should work");
    let mut lines: Vec<usize> = index.for_artifact(id).iter().map(|l| l.line).collect();
    lines.sort_unstable();
    lines
}

#[test]
fn deduplicate_roots_removes_exact_duplicates_and_redundant_subpaths() {
    let root = "/tmp/project".to_string();
    let sub = "/tmp/project/sub".to_string();
    let roots = vec![root.clone(), root.clone(), sub];
    let result = deduplicate_roots(&roots);
    assert_eq!(result.len(), 1);
    assert!(result.contains(&root));
}

#[test]
fn deduplicate_roots_keeps_unrelated_roots() {
    let roots = vec!["/b".to_string(), "/a/x".to_string(), "/a".to_string(), "/ab".to_string()];
    let mut result = deduplicate_roots(&roots);
    result.sort();
    assert_eq!(result, vec!["/a".to_string(), "/ab".to_string(), "/b".to_string()]);
}

#[test]
fn merge_paths_sorts_and_drops_repeats() {
    let found = vec![
        vec!["/r/b.rs".to_string(), "/r/a.rs".to_string()],
        vec!["/r/a.rs".to_string(), "/r/c.rs".to_string()],
    ];
    assert_eq!(
        merge_paths(&found),
        vec!["/r/a.rs".to_string(), "/r/b.rs".to_string(), "/r/c.rs".to_string()]
    );
}

#[test]
fn execute_returns_error_when_any_document_is_invalid() {
    let repository = InMemoryUccRepository::default()
        .with_file("/project/feature_ok.ucc", sample_document("feat-ok", Priority::High))
        .with_file("/project/feature_broken.ucc", "schema_version: [".to_string());
    let use_case = CollectFeaturesUseCase::new(repository, ValueParser);

    let result = use_case.execute(&["/project".to_string()], true);

    assert!(result.is_err());
    let message = result.expect_err("must fail").message();
    assert!(message.contains("feature_broken.ucc"));
}

#[test]
fn execute_parses_documents_in_path_order() {
    let repository = InMemoryUccRepository::default()
        .with_file("/w/nested/feat-2.ucc", sample_document("feat-2", Priority::Low))
        .with_file("/w/feat-1.ucc", sample_document("feat-1", Priority::Highest));
    let use_case = CollectFeaturesUseCase::new(repository, ValueParser);
    let docs = use_case.execute(&["/w".to_string(), "/w/nested".to_string()], true).unwrap();
    assert_eq!(docs.len(), 2);
    assert_eq!(docs[0].feature.id, "feat-1");
    assert_eq!(docs[0].source_path, "/w/feat-1.ucc");
    assert_eq!(docs[0].artifacts[0].priority, Priority::Highest);
    assert_eq!(docs[0].artifacts[1].priority, Priority::Unset);
    assert_eq!(docs[0].artifacts[1].artifact_type.as_deref(), Some("regression"));
    assert!(docs[0].artifacts[1].related.is_empty());
    assert!(docs[0].feature.updated_at.is_none());
    assert_eq!(docs[0].tags, vec!["generated".to_string()]);
    assert_eq!(docs[0].platforms, vec!["android".to_string()]);
    assert_eq!(docs[1].feature.id, "feat-2");
    assert_eq!(docs[1].artifacts[0].priority, Priority::Low);
}

#[test]
fn execute_without_recursion_stays_in_the_root() {
    let repository = InMemoryUccRepository::default()
        .with_file("/w/nested/feat-2.ucc", sample_document("feat-2", Priority::Low))
        .with_file("/w/feat-1.ucc", sample_document("feat-1", Priority::High));
    let use_case = CollectFeaturesUseCase::new(repository, ValueParser);
    let docs = use_case.execute(&["/w".to_string()], false).unwrap();
    assert_eq!(docs.len(), 1);
    assert_eq!(docs[0].feature.id, "feat-1");
}

#[test]
fn find_artifact_coverage_supports_multiple_languages_and_line_numbers() {
    let repository = InMemoryUccRepository::default()
        .with_file("/workspace/feature.ucc", sample_document("feat-1", Priority::High))
        .with_file(
            "/workspace/ios/FeatureTests.swift",
            "func test_ucc_feat_1_ucc_feat_1() {}\nfunc test_ucc-feat-1() {}\n".to_string(),
        )
        .with_file(
            "/workspace/web/feature.spec.ts",
            "test('checks ucc-feat-1 flow', () => {});\n".to_string(),
        )
        .with_file(
            "/workspace/android/FeatureTest.kt",
            "@Test\nfun `covers ucc-feat-1 scenario`() {}\n".to_string(),
        )
        .with_file("/workspace/core/tests.rs", "#[test]\nfn checks_ucc_feat_1() {}\n".to_string());

    let lines = coverage_lines(repository, "/workspace", "ucc-feat-1");
    assert_eq!(lines.len(), 5);
    assert_eq!(lines, vec![1, 1, 2, 2, 2]);
}

#[test]
fn find_artifact_coverage_supports_comments_above_tests() {
    let repository = InMemoryUccRepository::default()
        .with_file("/workspace/feature.ucc", sample_document("feat-1", Priority::High))
        .with_file(
            "/workspace/test.rs",
            r"
// ucc-feat-1
#[test]
fn test_one() {}

/* ucc-feat-1 */
@Test
fun test_two() {}

# ucc-feat-1
func test_three() {}

// ucc-feat-1
// some other comment
// another comment
#[test]
fn test_four() {}

// ucc-feat-1

#[test]
fn test_five_fails() {}
"
            .to_string(),
        );

    let lines = coverage_lines(repository, "/workspace", "ucc-feat-1");
    assert_eq!(lines.len(), 4);
    assert_eq!(lines, vec![2, 6, 10, 13]);
}

#[test]
fn find_artifact_coverage_clears_pending_on_non_comment_non_test_line() {
    let repository = InMemoryUccRepository::default()
        .with_file("/workspace/feature.ucc", sample_document("feat-1", Priority::High))
        .with_file(
            "/workspace/test.rs",
            "\n// ucc-feat-1\nSome random code that is not a test\n#[test]\nfn test_one() {}\n"
                .to_string(),
        );
    assert_eq!(coverage_lines(repository, "/workspace", "ucc-feat-1").len(), 0);
}

#[test]
fn find_artifact_coverage_respects_three_line_window() {
    let repository = InMemoryUccRepository::default()
        .with_file("/workspace/feature.ucc", sample_document("feat-1", Priority::High))
        .with_file(
            "/workspace/test.rs",
            "\n// ucc-feat-1\n// line 2\n// line 3\n// line 4\n#[test]\nfn test_one() {}\n"
                .to_string(),
        );
    assert_eq!(coverage_lines(repository, "/workspace", "ucc-feat-1").len(), 0);
}

#[test]
fn find_artifact_coverage_with_in_memory_test_files_of_each_language() {
    let cases = [(7_u16, [true, false, true, false]), (4999, [true, true, true, true]), (0, [false; 4])];
    for (suffix, [ts, swift, kotlin, rust]) in cases {
        let artifact_id = format!("ucc-{suffix}");
        let mut repository = InMemoryUccRepository::default()
            .with_file("/repo/feature.ucc", sample_document("feat-random", Priority::Medium));
        if ts {
            repository = repository.with_file(
                "/repo/web/feature.spec.ts",
                format!("test('covers {artifact_id}', () => {{}});\n"),
            );
        }
        if swift {
            repository = repository
                .with_file("/repo/ios/FeatureTests.swift", format!("func test_{artifact_id}() {{}}\n"));
        }
        if kotlin {
            repository = repository.with_file(
                "/repo/android/FeatureTest.kt",
                format!("@Test\nfun `covers {artifact_id}`() {{}}\n"),
            );
        }
        if rust {
            repository = repository
                .with_file("/repo/core/tests.rs", format!("#[test]\nfn validates_{artifact_id}() {{}}\n"));
        }
        let collect = CollectFeaturesUseCase::new(repository, ValueParser);
        let mut features = collect.execute(&["/repo".to_string()], true).unwrap();
        features[0].artifacts[0].id = artifact_id.clone();
        let finder = FindArtifactCoverageUseCase::new(collect.repository);
        let index = finder.execute(&["/repo".to_string()], &features).unwrap();
        let expected = [ts, swift, kotlin, rust].into_iter().filter(|included| *included).count();
        assert_eq!(index.for_artifact(&artifact_id).len(), expected);
    }
}

#[test]
fn find_artifact_coverage_supports_multiple_ids_per_line() {
    let repo = InMemoryUccRepository::default()
        .with_file("/workspace/test.rs", "// ucc-1, ucc-2\n#[test]\nfn test_both() {}\n".to_string());
    let features = single_feature(
        "2026-05-13",
        vec![bare_artifact("ucc-1", "2026-05-13"), bare_artifact("ucc-2", "2026-05-13")],
    );
    let use_case = FindArtifactCoverageUseCase::new(repo);
    let index = use_case.execute(&["/workspace".to_string()], &features).unwrap();

    assert!(index.is_covered("ucc-1"));
    assert!(index.is_covered("ucc-2"));
    assert_eq!(index.for_artifact("ucc-1").len(), 1);
    assert_eq!(index.for_artifact("ucc-2").len(), 1);
    assert_eq!(index.for_artifact("ucc-1")[0].file_path, "/workspace/test.rs");
    assert_eq!(index.for_artifact("ucc-1")[0].line, 1);
}

#[test]
fn find_artifact_coverage_scans_each_file_once() {
    let repo = InMemoryUccRepository::default()
        .with_file("/w/sub/a_test.rs", "#[test]\nfn checks_ucc_1() {}\n".to_string());
    let features = single_feature("2026-05-13", vec![bare_artifact("ucc-1", "2026-05-13")]);
    let use_case = FindArtifactCoverageUseCase::new(repo);
    let roots = vec!["/w".to_string(), "/w/sub".to_string(), "/w".to_string()];
    let index = use_case.execute(&roots, &features).unwrap();
    assert_eq!(index.for_artifact("ucc-1").len(), 1);
}

#[test]
fn artifact_id_matcher_returns_empty_when_no_artifacts() {
    let features = single_feature("2026-05-10", vec![]);
    let matcher = ArtifactIdMatcher::from_features(&features);
    assert!(!matcher.has_automaton());
    assert!(matcher.find_artifact_ids("ucc-feat-1").is_empty());
}

#[test]
fn artifact_id_matcher_respects_boundaries() {
    let features = single_feature("2026-05-13", vec![bare_artifact("ucc-1", "2026-05-13")]);
    let matcher = ArtifactIdMatcher::from_features(&features);

    assert_eq!(matcher.find_artifact_ids("// ucc-1").len(), 1);
    assert_eq!(matcher.find_artifact_ids("// ucc-1,ucc-2").len(), 1);
    assert_eq!(matcher.find_artifact_ids("// [ucc-1]").len(), 1);
    assert_eq!(matcher.find_artifact_ids("fn test_ucc_1()").len(), 1);

    assert_eq!(matcher.find_artifact_ids("// mucc-1").len(), 0);
    assert_eq!(matcher.find_artifact_ids("// ucc-11").len(), 0);
    assert_eq!(matcher.find_artifact_ids("// ucc-1-extra").len(), 0);
}

#[test]
fn artifact_id_matcher_reports_each_id_once_ignoring_case() {
    let features = single_feature(
        "2026-05-13",
        vec![bare_artifact("ucc-1", "2026-05-13"), bare_artifact("ucc-2", "2026-05-13")],
    );
    let matcher = ArtifactIdMatcher::from_features(&features);
    assert_eq!(
        matcher.find_artifact_ids("UCC-2 then ucc_1 and ucc-2 again"),
        vec!["ucc-2".to_string(), "ucc-1".to_string()]
    );
    assert_eq!(matcher.artifact_ids_by_pattern_index().len(), 4);
    assert!(matcher.has_automaton());
}

#[test]
fn artifact_id_patterns_returns_single_if_already_normalized() {
    let patterns = artifact_id_patterns("ucc_feat_1");
    assert_eq!(patterns.len(), 1);
    assert_eq!(patterns[0], "ucc_feat_1");
}

#[test]
fn artifact_id_patterns_adds_the_normalized_form() {
    assert_eq!(
        artifact_id_patterns("ucc-feat.1"),
        vec!["ucc-feat.1".to_string(), "ucc_feat_1".to_string()]
    );
}

#[test]
fn infer_suggestion_returns_correct_hints() {
    assert!(infer_suggestion("cannot start any token").is_some());
    assert!(infer_suggestion("did not find expected key").is_some());
    assert!(infer_suggestion("invalid type").is_some());
    assert!(infer_suggestion("unknown error").is_none());
}

#[test]
fn extract_line_and_column_parses_yaml_errors() {
    let (line, column) = extract_line_and_column("at line 10, column 5");
    assert_eq!(line, Some(10));
    assert_eq!(column, Some(5));
}

#[test]
fn extract_line_and_column_without_location() {
    assert_eq!(extract_line_and_column("something failed"), (None, None));
    assert_eq!(extract_line_and_column("line x, column 3"), (None, Some(3)));
}

fn lint(repository: InMemoryUccRepository, root: &str) -> Vec<UccLintResult> {
    LintUccFormatsUseCase::new(repository, ValueParser)
        .execute(&[root.to_string()], true)
        .expect("lint should run")
}

#[test]
fn lint_ucc_formats_reports_valid_and_invalid_files_with_hints() {
    let repository = InMemoryUccRepository::default()
        .with_file("/lint/valid.ucc", sample_document("feat-lint", Priority::High))
        .with_file("/lint/broken.ucc", "schema_version: [".to_string());
    let results = lint(repository, "/lint");

    assert_eq!(results.len(), 2);
    let valid = results
        .iter()
        .find(|result| result.file_path.ends_with("valid.ucc") && !result.file_path.ends_with("/broken.ucc"))
        .expect("valid result should be present");
    assert!(valid.is_valid);
    assert!(valid.issue.is_none());

    let invalid = results
        .iter()
        .find(|result| result.file_path.ends_with("broken.ucc"))
        .expect("invalid result should be present");
    assert!(!invalid.is_valid);
    let issue = invalid.issue.as_ref().expect("invalid file should include issue");
    assert!(!issue.message.trim().is_empty());
    assert!(issue.line.is_some() || issue.column.is_some());
}

#[test]
fn lint_ucc_formats_rejects_duplicate_ids_and_file_names_across_files() {
    let repository = InMemoryUccRepository::default()
        .with_file("/lint/feat-1.ucc", sample_document("feat-1", Priority::High))
        .with_file("/lint/feat-2.ucc", sample_document("feat-1", Priority::High));
    let results = lint(repository, "/lint");
    assert_eq!(results.len(), 2);
    for result in results {
        assert!(!result.is_valid);
        let issue = result.issue.as_ref().expect("should have issue");
        assert!(issue.message.contains("Duplicate artifact ID(s) found:"));
        assert!(issue.message.contains("Duplicate feature ID found:"));
        assert!(issue.message.contains("ucc-feat-1"));
        assert!(issue.message.contains("bug-feat-1"));
    }

    let repository = InMemoryUccRepository::default()
        .with_file("/lint/a/feat.ucc", sample_document("feat-a", Priority::High))
        .with_file("/lint/b/feat.ucc", sample_document("feat-b", Priority::High));
    let results = lint(repository, "/lint");
    assert_eq!(results.len(), 2);
    for result in results {
        assert!(!result.is_valid);
        let issue = result.issue.as_ref().expect("should have issue");
        assert!(issue.message.contains("Duplicate .ucc file name found: feat.ucc"));
    }
}

#[test]
fn lint_reports_duplicates_in_a_fixed_order() {
    let repository = InMemoryUccRepository::default()
        .with_file("/lint/x.ucc", sample_document("feat-1", Priority::High))
        .with_file("/lint/y.ucc", sample_document("feat-1", Priority::High));
    let results = lint(repository, "/lint");
    let issue = results[0].issue.as_ref().unwrap();
    assert_eq!(
        issue.message,
        "Duplicate artifact ID(s) found: bug-feat-1, ucc-feat-1. All artifact IDs must be unique across the project.\nDuplicate feature ID found: feat-1. All feature IDs must be unique across the project."
    );
    assert_eq!(
        issue.suggestion.as_deref(),
        Some("Check other .ucc files for the same IDs or names and ensure they are unique.")
    );
    assert_eq!((issue.line, issue.column), (None, None));
}

#[test]
fn lint_ucc_formats_returns_error_on_io_failure() {
    struct FailingRepository;
    impl UccFileRepository for FailingRepository {
        fn find_ucc_files(&self, _root: &str, _recursive: bool) -> Result<Vec<String>, CoreError> {
            Ok(vec!["fail.ucc".to_string()])
        }
        fn read_file(&self, path: &str) -> Result<String, CoreError> {
            Err(CoreError::Io { path: path.to_string(), message: "fail".to_string() })
        }
    }

    let use_case = LintUccFormatsUseCase::new(FailingRepository, ValueParser);
    let result = use_case.execute(&["/".to_string()], true);
    assert!(result.is_err());
}

#[test]
fn lint_ucc_formats_rejects_comma_in_ids() {
    let repo = InMemoryUccRepository::default().with_file(
        "/workspace/invalid.ucc",
        "schema_version: \"1.0\"\nfeature:\n  id: feat,1\n  title: Title\n  created_at: \"2026-05-13\"\n  description: Desc\n".to_string(),
    );
    let results = lint(repo, "/workspace");
    assert!(!results[0].is_valid);
    assert!(results[0].issue.as_ref().unwrap().message.contains("contains a comma"));
}

#[test]
fn raw_document_becomes_a_feature_document() {
    let raw = RawUccDocument {
        schema_version: "1.0".to_string(),
        feature: RawFeatureMetadata {
            id: "feat-1".to_string(),
            title: "Feature".to_string(),
            created_at: "2026-05-10".to_string(),
            updated_at: Some("2026-06-01".to_string()),
            description: "desc".to_string(),
        },
        tags: vec!["t".to_string()],
        platforms: vec!["ios".to_string()],
        related_features: vec!["feat-0".to_string()],
        artifacts: vec![RawArtifact {
            id: "ucc-1".to_string(),
            artifact_type: Some("bug".to_string()),
            created_at: "2026-05-10".to_string(),
            updated_at: None,
            title: "A bug".to_string(),
            priority: Priority::Low,
            related: vec!["ucc-0".to_string()],
            platforms: vec!["web".to_string()],
            steps: vec!["s".to_string()],
            expected: vec!["e".to_string()],
            tags: vec!["auth".to_string()],
            coverage_gap_reason: Some("manual".to_string()),
        }],
    };
    let doc = raw.into_feature_document("specs/feat.ucc".to_string());
    assert_eq!(doc.source_path, "specs/feat.ucc");
    assert_eq!(doc.feature.updated_at.as_deref(), Some("2026-06-01"));
    assert_eq!(doc.feature.last_modified_at, None);
    assert_eq!(doc.related_features, vec!["feat-0".to_string()]);
    assert_eq!(doc.artifacts.len(), 1);
    let a = &doc.artifacts[0];
    assert_eq!(a.id, "ucc-1");
    assert_eq!(a.priority, Priority::Low);
    assert_eq!(a.tags, vec!["auth".to_string()]);
    assert_eq!(a.coverage_gap_reason.as_deref(), Some("manual"));
    assert_eq!(a.last_modified_at, None);
}

#[test]
fn id_characters_are_ascii_alphanumerics_and_hyphens() {
    assert!(id_char('a') && id_char('Z') && id_char('7') && id_char('-'));
    assert!(!id_char('_') && !id_char(' ') && !id_char('é') && !id_char(','));
}

#[test]
fn use_cases_without_roots_succeed_with_nothing() {
    struct FailingRepository;
    impl UccFileRepository for FailingRepository {
        fn find_ucc_files(&self, _root: &str, _recursive: bool) -> Result<Vec<String>, CoreError> {
            Err(CoreError::Io { path: "/".to_string(), message: "fail".to_string() })
        }
        fn read_file(&self, path: &str) -> Result<String, CoreError> {
            Err(CoreError::Io { path: path.to_string(), message: "fail".to_string() })
        }
    }
    impl TestFileRepository for FailingRepository {
        fn find_test_files(&self, _root: &str) -> Result<Vec<String>, CoreError> {
            Err(CoreError::Io { path: "/".to_string(), message: "fail".to_string() })
        }
        fn read_lines(&self, path: &str) -> Result<Vec<String>, CoreError> {
            Err(CoreError::Io { path: path.to_string(), message: "fail".to_string() })
        }
    }
    let docs = CollectFeaturesUseCase::new(FailingRepository, ValueParser).execute(&[], true);
    assert_eq!(docs.map(|d| d.len()).ok(), Some(0));
    let results = LintUccFormatsUseCase::new(FailingRepository, ValueParser).execute(&[], false);
    assert_eq!(results.map(|r| r.len()).ok(), Some(0));
    let features = single_feature("2026-05-13", vec![bare_artifact("ucc-1", "2026-05-13")]);
    let index = FindArtifactCoverageUseCase::new(FailingRepository).execute(&[], &features).unwrap();
    assert!(!index.is_covered("ucc-1"));
    // With a root, the repository's failure is reported.
    assert!(CollectFeaturesUseCase::new(FailingRepository, ValueParser)
        .execute(&["/w".to_string()], true)
        .is_err());
}

#[test]
fn ids_from_matches_keeps_standalone_matches_once() {
    let features = single_feature(
        "2026-05-13",
        vec![bare_artifact("ucc-1", "2026-05-13"), bare_artifact("ucc-2", "2026-05-13")],
    );
    let matcher = ArtifactIdMatcher::from_features(&features);
    // Patterns: 0 "ucc-1", 1 "ucc_1", 2 "ucc-2", 3 "ucc_2".
    let line = "x ucc-2 mucc-1 ucc_1 ucc-2";
    let matches = vec![(2, 2, 7), (0, 9, 14), (1, 15, 20), (2, 21, 26)];
    assert_eq!(
        matcher.ids_from_matches(line, &matches),
        vec!["ucc-2".to_string(), "ucc-1".to_string()]
    );
    // A pattern id beyond the patterns finds nothing.
    assert!(matcher.ids_from_matches(line, &vec![(9, 2, 7)]).is_empty());
}

#[test]
fn comment_ids_inside_a_test_body_annotate_the_test() {
    let repository = InMemoryUccRepository::default()
        .with_file("/w/feature.ucc", sample_document("feat-1", Priority::High))
        .with_file(
            "/w/LoginTests.swift",
            "func testLoginFlow() {\n    // ucc-feat-1\n    let login = LoginView()\n}\n".to_string(),
        )
        .with_file(
            "/w/parsing.rs",
            "#[test]\nfn test_artifact_parsing() {\n    let parser = YamlUccParser;\n\n    // ucc-feat-1\n    let x = 1;\n}\n"
                .to_string(),
        )
        .with_file(
            "/w/SecurityTest.kt",
            "@Test\nfun testSecureLogin() {\n    /* ucc-feat-1 */\n    val security = SecurityManager()\n}\n"
                .to_string(),
        );
    let lines = coverage_lines(repository, "/w", "ucc-feat-1");
    assert_eq!(lines, vec![2, 3, 5]);
}

#[test]
fn comments_after_a_test_body_closes_are_not_in_it() {
    let repository = InMemoryUccRepository::default()
        .with_file("/w/feature.ucc", sample_document("feat-1", Priority::High))
        .with_file(
            "/w/tests.rs",
            "fn test_one() {\n    let a = 1;\n}\n// ucc-feat-1\nlet unrelated = 2;\n".to_string(),
        );
    assert!(coverage_lines(repository, "/w", "ucc-feat-1").is_empty());
}

#[test]
fn collect_parsed_keeps_documents_in_order_or_reports_the_first_failure() {
    let docs = single_feature("2026-05-13", vec![]);
    let parsed = vec![
        ("a.ucc".to_string(), Ok(docs[0].clone())),
        ("b.ucc".to_string(), Ok(docs[0].clone())),
    ];
    let collected = collect_parsed(parsed).unwrap();
    assert_eq!(collected.len(), 2);
    assert_eq!(collected[0], docs[0]);

    let parsed = vec![
        ("a.ucc".to_string(), Ok(docs[0].clone())),
        (
            "b.ucc".to_string(),
            Err(CoreError::Parse { path: "b.ucc".to_string(), reason: "first".to_string() }),
        ),
        (
            "c.ucc".to_string(),
            Err(CoreError::Parse { path: "c.ucc".to_string(), reason: "second".to_string() }),
        ),
    ];
    let error = collect_parsed(parsed).unwrap_err();
    assert_eq!(error.message(), "Parse error at 'b.ucc': first");
    assert!(collect_parsed(vec![]).unwrap().is_empty());
}

#[test]
fn collect_stops_at_the_first_file_that_does_not_parse() {
    let repository = InMemoryUccRepository::default()
        .with_file("/w/a.ucc", "schema_version: [".to_string())
        .with_file("/w/b.ucc", sample_document("feat-b", Priority::High));
    let error = CollectFeaturesUseCase::new(repository, ValueParser)
        .execute(&["/w".to_string()], true)
        .unwrap_err();
    assert!(error.message().starts_with("Parse error at '/w/a.ucc'"));
}
