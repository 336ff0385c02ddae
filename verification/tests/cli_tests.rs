use use_case_coverage::cli::{
    author_message, dispatch, format_lint_results, help_message, parse_args, require_valid_files,
    CliAction,
};
use use_case_coverage::domain::{UccLintIssue, UccLintResult};

fn args(list: &[&str]) -> Vec<String> {
    list.iter().map(|s| s.to_string()).collect()
}

fn reply(action: CliAction) -> Result<String, String> {
    match action {
        CliAction::Reply(result) => result,
        _ => panic!("expected an immediate answer"),
    }
}

#[test]
fn dispatch_handles_unknown_command() {
    let result = reply(dispatch(&[], None, Some("unknown"), true));
    assert!(result.is_err());
    assert!(result.unwrap_err().contains("Unknown command or option"));
}

#[test]
fn dispatch_answers_help_without_a_command() {
    assert_eq!(reply(dispatch(&[], None, None, true)), Ok(help_message()));
    assert_eq!(reply(dispatch(&[], None, Some("-h"), true)), Ok(help_message()));
    assert_eq!(reply(dispatch(&[], None, Some("--help"), false)), Ok(help_message()));
}

#[test]
fn dispatch_unknown_command_names_it_and_shows_help() {
    let error = reply(dispatch(&[], None, Some("deploy"), true)).unwrap_err();
    assert_eq!(error, format!("Unknown command or option: deploy\n\n{}", help_message()));
}

#[test]
fn dispatch_chooses_lint_and_report() {
    let roots = args(&["/a", "/b"]);
    match dispatch(&roots, Some("out.txt"), Some("lint"), false) {
        CliAction::Lint { roots: r, output, recursive } => {
            assert_eq!(r, roots);
            assert_eq!(output.as_deref(), Some("out.txt"));
            assert!(!recursive);
        },
        _ => panic!("expected lint"),
    }
    match dispatch(&roots, None, Some("report"), true) {
        CliAction::Report { roots: r, output, recursive } => {
            assert_eq!(r, roots);
            assert_eq!(output, None);
            assert!(recursive);
        },
        _ => panic!("expected report"),
    }
}

#[test]
fn help_message_lists_usage_and_commands() {
    let help = help_message();
    assert!(help.contains("Commands:"));
    assert!(help.contains("ucc v0.1.0"));
    assert!(help.contains("-s, --single"));
    assert!(help.ends_with("By Pedro Gomez - https://github.com/sponsors/pedrovgs\n"));
}

#[test]
fn author_message_asks_for_feedback() {
    let text = author_message();
    assert!(text.starts_with("\n"));
    assert!(text.contains("All the feedback is welcome!"));
    assert!(text.contains("pedrovicente.gomez@gmail.com"));
}

#[test]
fn parse_args_reads_options_and_command() {
    let (input, output, command, sources, recursive) = parse_args(&args(&[
        "ucc", "-i", "specs", "--output", "out.txt", "lint", "--as", "extra", "-s",
    ]));
    assert_eq!(input.as_deref(), Some("specs"));
    assert_eq!(output.as_deref(), Some("out.txt"));
    assert_eq!(command.as_deref(), Some("lint"));
    assert_eq!(sources, args(&["extra"]));
    assert!(!recursive);
}

#[test]
fn parse_args_defaults() {
    let (input, output, command, sources, recursive) = parse_args(&args(&["ucc"]));
    assert_eq!((input, output, command), (None, None, None));
    assert!(sources.is_empty());
    assert!(recursive);
    let (_, _, command, _, _) = parse_args(&[]);
    assert_eq!(command, None);
}

#[test]
fn parse_args_keeps_the_first_command() {
    let (_, _, command, _, _) = parse_args(&args(&["ucc", "report", "lint", "--help"]));
    assert_eq!(command.as_deref(), Some("report"));
    let (_, _, command, _, _) = parse_args(&args(&["ucc", "-h", "lint"]));
    assert_eq!(command.as_deref(), Some("-h"));
    let (_, _, command, _, _) = parse_args(&args(&["ucc", "--unknown", "lint"]));
    assert_eq!(command.as_deref(), Some("lint"));
}

#[test]
fn parse_args_handles_missing_values() {
    let (input, _, _, _, _) = parse_args(&args(&["ucc", "-i", "a", "-i"]));
    assert_eq!(input, None);
    let (_, output, _, _, _) = parse_args(&args(&["ucc", "-o"]));
    assert_eq!(output, None);
    let (_, _, _, sources, _) =
        parse_args(&args(&["ucc", "--as", "x", "--additional-sources", "y", "--as"]));
    assert_eq!(sources, args(&["x", "y"]));
    // A value that looks like a command is still the option's value.
    let (input, _, command, _, _) = parse_args(&args(&["ucc", "--input", "report"]));
    assert_eq!(input.as_deref(), Some("report"));
    assert_eq!(command, None);
}

#[test]
fn format_lint_results_handles_empty_list() {
    let result = format_lint_results(vec![]);
    assert!(result.is_ok());
    assert!(result.unwrap().contains("No .ucc files were found"));
}

#[test]
fn format_lint_results_handles_unknown_location() {
    let results = vec![UccLintResult {
        file_path: "feat.ucc".to_string(),
        is_valid: false,
        issue: Some(UccLintIssue {
            message: "error".to_string(),
            line: None,
            column: None,
            suggestion: None,
        }),
    }];
    let result = format_lint_results(results);
    assert!(result.is_err());
    assert!(result.unwrap_err().contains("unknown location"));
}

#[test]
fn format_lint_results_writes_every_result() {
    let results = vec![
        UccLintResult { file_path: "a.ucc".to_string(), is_valid: true, issue: None },
        UccLintResult {
            file_path: "b.ucc".to_string(),
            is_valid: false,
            issue: Some(UccLintIssue {
                message: "bad".to_string(),
                line: Some(3),
                column: Some(7),
                suggestion: Some("fix it".to_string()),
            }),
        },
        UccLintResult {
            file_path: "c.ucc".to_string(),
            is_valid: false,
            issue: Some(UccLintIssue {
                message: "worse".to_string(),
                line: None,
                column: Some(2),
                suggestion: None,
            }),
        },
    ];
    let text = format_lint_results(results).unwrap_err();
    assert_eq!(
        text,
        "Linted 3 .ucc file(s): 1 valid, 2 invalid\n[OK] a.ucc\n[ERROR] b.ucc (line 3, column 7)\n  bad\n  Suggestion: fix it\n[ERROR] c.ucc (column 2)\n  worse\n"
    );
}

#[test]
fn format_lint_results_succeeds_when_all_valid() {
    let results = vec![UccLintResult { file_path: "a.ucc".to_string(), is_valid: true, issue: None }];
    assert_eq!(
        format_lint_results(results),
        Ok("Linted 1 .ucc file(s): 1 valid, 0 invalid\n[OK] a.ucc\n".to_string())
    );
}

#[test]
fn report_is_refused_while_a_file_is_invalid() {
    let broken = UccLintResult {
        file_path: "broken.ucc".to_string(),
        is_valid: false,
        issue: Some(UccLintIssue {
            message: "oops".to_string(),
            line: Some(1),
            column: None,
            suggestion: None,
        }),
    };
    let error = require_valid_files(vec![broken]).unwrap_err();
    assert!(error.starts_with("Cannot generate report because 1 .ucc file(s) are invalid.\n\n"));
    assert!(error.contains("broken.ucc"));
    assert!(error.contains("[ERROR] broken.ucc (line 1)"));

    let ok = vec![UccLintResult { file_path: "a.ucc".to_string(), is_valid: true, issue: None }];
    assert_eq!(require_valid_files(ok.clone()), Ok(ok));
    assert_eq!(require_valid_files(vec![]), Ok(vec![]));
}
