use use_case_coverage::domain::{ArtifactCoverageIndex, ArtifactTestLocation, Priority};
use use_case_coverage::ports::CoreError;

fn location(path: &str, line: usize) -> ArtifactTestLocation {
    ArtifactTestLocation { file_path: path.to_string(), line }
}

#[test]
fn priority_names_are_lowercase() {
    assert_eq!(Priority::Unset.as_str(), "none");
    assert_eq!(Priority::Low.as_str(), "low");
    assert_eq!(Priority::Medium.as_str(), "medium");
    assert_eq!(Priority::High.as_str(), "high");
    assert_eq!(Priority::Highest.as_str(), "highest");
}

#[test]
fn priority_parse_ignores_case_and_surrounding_whitespace() {
    assert_eq!(Priority::parse("  HIGH \n"), Ok(Priority::High));
    assert_eq!(Priority::parse("Medium"), Ok(Priority::Medium));
    assert_eq!("none".parse::<Priority>(), Ok(Priority::Unset));
    assert_eq!("highest".parse::<Priority>(), Ok(Priority::Highest));
    assert_eq!(" Low ".parse::<Priority>(), Ok(Priority::Low));
    assert_eq!("nope".parse::<Priority>(), Err("Invalid priority: 'nope'".to_string()));
}

#[test]
fn priority_parse_rejects_unknown_names() {
    assert_eq!(Priority::parse("urgent"), Err("Invalid priority: 'urgent'".to_string()));
    assert_eq!(Priority::parse(" hi gh "), Err("Invalid priority: ' hi gh '".to_string()));
}

#[test]
fn priority_name_round_trips() {
    for p in [Priority::Unset, Priority::Low, Priority::Medium, Priority::High, Priority::Highest] {
        assert_eq!(Priority::parse(p.as_str()), Ok(p));
    }
}

#[test]
fn priority_from_name_is_exact() {
    let high: Vec<char> = "high".chars().collect();
    let upper: Vec<char> = "High".chars().collect();
    assert_eq!(Priority::from_name(&high), Some(Priority::High));
    assert_eq!(Priority::from_name(&upper), None);
    assert_eq!(Priority::default_priority(), Priority::Unset);
}

#[test]
fn empty_index_covers_nothing() {
    let index = ArtifactCoverageIndex::default();
    assert!(!index.is_covered("ucc-1"));
    assert!(index.for_artifact("ucc-1").is_empty());
    let index = ArtifactCoverageIndex::new();
    assert!(!index.is_covered(""));
}

#[test]
fn index_reads_back_what_was_inserted() {
    let mut index = ArtifactCoverageIndex::new();
    index.insert("ucc-1".to_string(), vec![location("a.rs", 3), location("b.rs", 1)]);
    index.insert("ucc-2".to_string(), vec![]);
    assert_eq!(index.for_artifact("ucc-1"), &[location("a.rs", 3), location("b.rs", 1)][..]);
    assert!(index.is_covered("ucc-1"));
    // An entry without locations still counts as covered.
    assert!(index.is_covered("ucc-2"));
    assert!(index.for_artifact("ucc-2").is_empty());
    assert!(!index.is_covered("ucc-3"));

    index.insert("ucc-1".to_string(), vec![location("c.rs", 9)]);
    assert_eq!(index.for_artifact("ucc-1"), &[location("c.rs", 9)][..]);
    assert!(index.is_covered("ucc-2"));
}

#[test]
fn add_location_appends_to_the_artifact() {
    let mut index = ArtifactCoverageIndex::new();
    index.add_location("ucc-1".to_string(), location("a.rs", 2));
    index.add_location("ucc-1".to_string(), location("a.rs", 1));
    index.add_location("ucc-2".to_string(), location("b.rs", 5));
    assert_eq!(index.for_artifact("ucc-1"), &[location("a.rs", 2), location("a.rs", 1)][..]);
    assert_eq!(index.for_artifact("ucc-2"), &[location("b.rs", 5)][..]);
}

#[test]
fn sort_each_orders_by_path_then_line() {
    let mut index = ArtifactCoverageIndex::new();
    index.insert(
        "ucc-1".to_string(),
        vec![location("b.rs", 1), location("a.rs", 7), location("a.rs", 2)],
    );
    index.sort_each();
    assert_eq!(
        index.for_artifact("ucc-1"),
        &[location("a.rs", 2), location("a.rs", 7), location("b.rs", 1)][..]
    );
}

#[test]
fn core_error_messages_name_the_path() {
    let io = CoreError::Io { path: "/x/a.ucc".to_string(), message: "denied".to_string() };
    assert_eq!(io.message(), "I/O error at '/x/a.ucc': denied");
    let parse = CoreError::Parse { path: "b.ucc".to_string(), reason: "bad".to_string() };
    assert_eq!(parse.message(), "Parse error at 'b.ucc': bad");
}
