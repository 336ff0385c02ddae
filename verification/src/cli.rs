//! The decisions of the command-line tool: reading its arguments, choosing
//! what a command does, and the texts it answers with.
use vstd::prelude::*;

use crate::domain::{chars_equal_str, UccLintIssue, UccLintResult};
use crate::lint::option_view;
use crate::matcher::strings_view;
use crate::report::valid_count;
use crate::text::{
    chars_of, decimal, owned, push_decimal, push_str, starts_with, starts_with_str,
    string_from_chars,
};

verus! {

/// The version the tool reports.
pub const VERSION: &'static str = "0.1.0";

/// The banner and the first words of the help text, up to the version.
pub const HELP_HEAD: &'static str = "\x1b[38;5;25m[\x1b[0m\x1b[38;5;25m■\x1b[0m\x1b[38;5;25m]\x1b[0m\x1b[38;5;25m[\x1b[0m\x1b[38;5;25m■\x1b[0m\x1b[38;5;25m]\x1b[0m\x1b[38;5;25m[\x1b[0m\x1b[38;5;220m✓\x1b[0m\x1b[38;5;25m]\x1b[0m\n\x1b[38;5;25m[\x1b[0m\x1b[38;5;25m■\x1b[0m\x1b[38;5;25m]\x1b[0m\x1b[38;5;25m[\x1b[0m\x1b[38;5;220m✓\x1b[0m\x1b[38;5;25m]\x1b[0m\x1b[38;5;25m[\x1b[0m\x1b[38;5;25m■\x1b[0m\x1b[38;5;25m]\x1b[0m\n\x1b[38;5;25m[\x1b[0m\x1b[38;5;220m✓\x1b[0m\x1b[38;5;25m]\x1b[0m\x1b[38;5;25m[\x1b[0m\x1b[38;5;25m■\x1b[0m\x1b[38;5;25m]\x1b[0m\x1b[38;5;25m[\x1b[0m\x1b[38;5;25m■\x1b[0m\x1b[38;5;25m]\x1b[0m\n\n\x1b[1;38;5;226mucc v";

/// The help text after the version.
pub const HELP_TAIL: &'static str = "\x1b[0m\n\n\x1b[1mUse Case Coverage CLI\x1b[0m\nGenerate use case coverage analysis reports and validate .ucc specifications\n\n\x1b[1;38;5;208mUsage:\x1b[0m\n  \x1b[38;5;159mucc [OPTIONS] [COMMAND]\x1b[0m\n\n\x1b[1;38;5;208mOptions:\x1b[0m\n  \x1b[38;5;120m-h, --help\x1b[0m           Show this help message\n  \x1b[38;5;120m-i, --input <path>\x1b[0m    Root directory to scan for .ucc files (default: current directory)\n  \x1b[38;5;120m-o, --output <path>\x1b[0m   Output file (lint) or directory (report) (default: stdout for lint, <current-dir>/.ucc/ for report)\n  \x1b[38;5;120m--as, --additional-sources <path>\x1b[0m  Additional directories to scan for .ucc and test files (repeatable)\n  \x1b[38;5;120m-s, --single\x1b[0m          Disable recursive .ucc file discovery (only scan top-level directory)\n\n\x1b[1;38;5;208mCommands:\x1b[0m\n  \x1b[38;5;117mreport\x1b[0m        Generate an HTML report with features, use cases, and bugs analysis\n  \x1b[38;5;117mlint\x1b[0m          Explore and validate .ucc files, ensuring the format is correct and nothing is missing\n\nBy Pedro Gomez - https://github.com/sponsors/pedrovgs\n";

/// The invitation to send feedback that follows every run.
pub const AUTHOR_TEXT: &'static str = "\n\x1b[1;38;5;208m💌 All the feedback is welcome!\x1b[0m\nI want to maintain the tool free from any type of tracking so it's completely anonymous.\nIf you are using the app or if you have any feedback for me, please let me know at \x1b[1;38;5;159mpedrovicente.gomez@gmail.com\x1b[0m. Thanks! ✨\n";

/// The help text: banner, version, usage, options and commands.
pub open spec fn help_text() -> Seq<char> {
    HELP_HEAD@ + VERSION@ + HELP_TAIL@
}

pub fn help_message() -> (r: String)
    ensures
        r@ == help_text(),
{
    let mut out: Vec<char> = Vec::new();
    push_str(&mut out, HELP_HEAD);
    push_str(&mut out, VERSION);
    push_str(&mut out, HELP_TAIL);
    assert(out@ =~= help_text());
    string_from_chars(out.as_slice())
}

pub fn author_message() -> (r: String)
    ensures
        r@ == AUTHOR_TEXT@,
{
    owned(AUTHOR_TEXT)
}

/// The options and command read so far from the arguments.
pub struct ArgsScan {
    pub input: Option<Seq<char>>,
    pub output: Option<Seq<char>>,
    pub command: Option<Seq<char>>,
    pub additional_sources: Seq<Seq<char>>,
    pub recursive: bool,
}

/// Before any argument: no input, output or command, no additional source,
/// recursive discovery.
pub open spec fn no_args_read() -> ArgsScan {
    ArgsScan {
        input: None,
        output: None,
        command: None,
        additional_sources: seq![],
        recursive: true,
    }
}

/// The argument after position `i`, if there is one.
pub open spec fn arg_after(args: Seq<Seq<char>>, i: int) -> Option<Seq<char>> {
    if i + 1 < args.len() {
        Some(args[i + 1])
    } else {
        None
    }
}

/// The position after an option at `i` and its value.
pub open spec fn after_value(args: Seq<Seq<char>>, i: int) -> int {
    if i + 1 < args.len() {
        i + 2
    } else {
        args.len() as int
    }
}

/// Reading the argument at position `i` (which exists) in state `s`: the
/// next position and the new state. An option that takes a value takes the
/// next argument, or nothing when there is none (`-i` and `-o` then forget
/// an earlier value); the first help flag or the first argument that is not
/// an option is the command; `-s` turns recursive discovery off; anything
/// else is skipped.
pub open spec fn read_arg(args: Seq<Seq<char>>, i: int, s: ArgsScan) -> (int, ArgsScan) {
    let a = args[i];
    if a == "-i"@ || a == "--input"@ {
        (after_value(args, i), ArgsScan { input: arg_after(args, i), ..s })
    } else if a == "-o"@ || a == "--output"@ {
        (after_value(args, i), ArgsScan { output: arg_after(args, i), ..s })
    } else if (a == "-h"@ || a == "--help"@) && s.command is None {
        (i + 1, ArgsScan { command: Some(a), ..s })
    } else if !starts_with(a, "-"@) && s.command is None {
        (i + 1, ArgsScan { command: Some(a), ..s })
    } else if a == "--as"@ || a == "--additional-sources"@ {
        let sources = match arg_after(args, i) {
            Some(v) => s.additional_sources.push(v),
            None => s.additional_sources,
        };
        (after_value(args, i), ArgsScan { additional_sources: sources, ..s })
    } else if a == "-s"@ || a == "--single"@ {
        (i + 1, ArgsScan { recursive: false, ..s })
    } else {
        (i + 1, s)
    }
}

/// Reads the arguments from position `i` on, starting from state `s`.
pub open spec fn read_args(args: Seq<Seq<char>>, i: int, s: ArgsScan) -> ArgsScan
    decreases args.len() - i,
{
    if i < 0 || i >= args.len() {
        s
    } else {
        let (j, t) = read_arg(args, i, s);
        read_args(args, j, t)
    }
}

/// What the arguments say, the first of them (the program's name) aside.
pub open spec fn parsed_args(args: Seq<String>) -> ArgsScan {
    read_args(strings_view(args), 1, no_args_read())
}

/// The view of what `parse_args` returns.
pub open spec fn args_view(
    r: (Option<String>, Option<String>, Option<String>, Vec<String>, bool),
) -> ArgsScan {
    ArgsScan {
        input: option_view(r.0),
        output: option_view(r.1),
        command: option_view(r.2),
        additional_sources: strings_view(r.3@),
        recursive: r.4,
    }
}

fn is_one_of(a: &[char], x: &str, y: &str) -> (r: bool)
    ensures
        r == (a@ == x@ || a@ == y@),
{
    chars_equal_str(a, x) || chars_equal_str(a, y)
}

/// Reads the command line: the input root, the output path, the command,
/// the additional sources and whether discovery is recursive.
pub fn parse_args(args: &[String]) -> (r: (
    Option<String>,
    Option<String>,
    Option<String>,
    Vec<String>,
    bool,
))
    ensures
        args_view(r) == parsed_args(args@),
{
    let ghost sv = strings_view(args@);
    let mut input: Option<String> = None;
    let mut output: Option<String> = None;
    let mut command: Option<String> = None;
    let mut additional_sources: Vec<String> = Vec::new();
    let mut recursive = true;
    let n = args.len();
    let mut i: usize = 1;
    assert(strings_view(additional_sources@) =~= Seq::<Seq<char>>::empty());
    assert(args_view((input, output, command, additional_sources, recursive)) == no_args_read());
    while i < n
        invariant
            n == args@.len(),
            sv == strings_view(args@),
            1 <= i,
            read_args(sv, 1, no_args_read()) == read_args(
                sv,
                i as int,
                args_view((input, output, command, additional_sources, recursive)),
            ),
        decreases n - i,
    {
        let ghost before = args_view((input, output, command, additional_sources, recursive));
        let ghost step = read_arg(sv, i as int, before);
        let a = chars_of(args[i].as_str());
        assert(a@ == sv[i as int]);
        let has_next = i + 1 < n;
        if is_one_of(a.as_slice(), "-i", "--input") {
            if has_next {
                input = Some(args[i + 1].clone());
                i = i + 2;
            } else {
                input = None;
                i = n;
            }
        } else if is_one_of(a.as_slice(), "-o", "--output") {
            if has_next {
                output = Some(args[i + 1].clone());
                i = i + 2;
            } else {
                output = None;
                i = n;
            }
        } else if is_one_of(a.as_slice(), "-h", "--help") && command.is_none() {
            command = Some(args[i].clone());
            i = i + 1;
        } else if !starts_with_str(a.as_slice(), "-") && command.is_none() {
            command = Some(args[i].clone());
            i = i + 1;
        } else if is_one_of(a.as_slice(), "--as", "--additional-sources") {
            if has_next {
                let ghost old_sources = additional_sources@;
                additional_sources.push(args[i + 1].clone());
                assert(strings_view(additional_sources@) =~= strings_view(old_sources).push(
                    sv[i + 1],
                ));
                i = i + 2;
            } else {
                i = n;
            }
        } else if is_one_of(a.as_slice(), "-s", "--single") {
            recursive = false;
            i = i + 1;
        } else {
            i = i + 1;
        }
        assert(step == (i as int, args_view((input, output, command, additional_sources, recursive))));
    }
    (input, output, command, additional_sources, recursive)
}

/// What the tool does for a command: answer at once, or lint, or build the
/// report, over the given roots.
pub enum CliAction {
    Reply(Result<String, String>),
    Lint { roots: Vec<String>, output: Option<String>, recursive: bool },
    Report { roots: Vec<String>, output: Option<String>, recursive: bool },
}

pub open spec fn str_option_view(o: Option<&str>) -> Option<Seq<char>> {
    match o {
        Some(s) => Some(s@),
        None => None,
    }
}

/// The answer to a command that is neither a help flag, `lint` nor `report`.
pub open spec fn unknown_command_text(command: Seq<char>) -> Seq<char> {
    "Unknown command or option: "@ + command + "\n\n"@ + help_text()
}

/// `r` is what the tool does for `command`: the help text without a command
/// or for a help flag, linting or the report for those commands, over the
/// given roots, output and discovery mode, and an error naming any other
/// command, followed by the help text.
pub open spec fn dispatches(
    r: CliAction,
    roots: Seq<String>,
    output: Option<Seq<char>>,
    command: Option<Seq<char>>,
    recursive: bool,
) -> bool {
    match command {
        None => r matches CliAction::Reply(Ok(t)) && t@ == help_text(),
        Some(c) => if c == "-h"@ || c == "--help"@ {
            r matches CliAction::Reply(Ok(t)) && t@ == help_text()
        } else if c == "lint"@ {
            r matches CliAction::Lint { roots: rr, output: o, recursive: rec } && rr@ == roots
                && option_view(o) == output && rec == recursive
        } else if c == "report"@ {
            r matches CliAction::Report { roots: rr, output: o, recursive: rec } && rr@ == roots
                && option_view(o) == output && rec == recursive
        } else {
            r matches CliAction::Reply(Err(e)) && e@ == unknown_command_text(c)
        },
    }
}

fn copy_strings(v: &[String]) -> (r: Vec<String>)
    ensures
        r@ == v@,
{
    let mut out: Vec<String> = Vec::new();
    let mut k: usize = 0;
    while k < v.len()
        invariant
            k <= v@.len(),
            out@ == v@.take(k as int),
        decreases v@.len() - k,
    {
        out.push(v[k].clone());
        k = k + 1;
        assert(out@ =~= v@.take(k as int));
    }
    assert(v@.take(v@.len() as int) =~= v@);
    out
}

fn owned_option(o: Option<&str>) -> (r: Option<String>)
    ensures
        option_view(r) == str_option_view(o),
{
    match o {
        Some(s) => Some(owned(s)),
        None => None,
    }
}

/// Chooses what the tool does for `command`.
pub fn dispatch(roots: &[String], output: Option<&str>, command: Option<&str>, recursive: bool) -> (r:
    CliAction)
    ensures
        dispatches(r, roots@, str_option_view(output), str_option_view(command), recursive),
{
    match command {
        None => CliAction::Reply(Ok(help_message())),
        Some(c) => {
            let cc = chars_of(c);
            if chars_equal_str(cc.as_slice(), "-h") || chars_equal_str(cc.as_slice(), "--help") {
                CliAction::Reply(Ok(help_message()))
            } else if chars_equal_str(cc.as_slice(), "lint") {
                CliAction::Lint {
                    roots: copy_strings(roots),
                    output: owned_option(output),
                    recursive,
                }
            } else if chars_equal_str(cc.as_slice(), "report") {
                CliAction::Report {
                    roots: copy_strings(roots),
                    output: owned_option(output),
                    recursive,
                }
            } else {
                let mut out: Vec<char> = Vec::new();
                push_str(&mut out, "Unknown command or option: ");
                push_str(&mut out, c);
                push_str(&mut out, "\n\n");
                push_str(&mut out, HELP_HEAD);
                push_str(&mut out, VERSION);
                push_str(&mut out, HELP_TAIL);
                assert(out@ =~= unknown_command_text(c@));
                CliAction::Reply(Err(string_from_chars(out.as_slice())))
            }
        },
    }
}

/// Where an issue lies: its line and column when known, else
/// `"unknown location"`.
pub open spec fn location_text(line: Option<usize>, column: Option<usize>) -> Seq<char> {
    match (line, column) {
        (Some(l), Some(c)) => "line "@ + decimal(l as nat) + ", "@ + "column "@ + decimal(c as nat),
        (Some(l), None) => "line "@ + decimal(l as nat),
        (None, Some(c)) => "column "@ + decimal(c as nat),
        (None, None) => "unknown location"@,
    }
}

/// The lines for one lint result: `[OK]` and its file when valid; for an
/// invalid one with an issue, `[ERROR]`, the file and location, the message
/// and the hint when there is one; nothing for an invalid one without.
pub open spec fn result_text(r: UccLintResult) -> Seq<char> {
    if r.is_valid {
        "[OK] "@ + r.file_path@ + "\n"@
    } else {
        match r.issue {
            Some(i) => "[ERROR] "@ + r.file_path@ + " ("@ + location_text(i.line, i.column)
                + ")\n  "@ + i.message@ + "\n"@ + match i.suggestion {
                Some(h) => "  Suggestion: "@ + h@ + "\n"@,
                None => Seq::empty(),
            },
            None => Seq::empty(),
        }
    }
}

/// The lines for all results, in order.
pub open spec fn results_text(rs: Seq<UccLintResult>) -> Seq<char>
    decreases rs.len(),
{
    if rs.len() == 0 {
        Seq::empty()
    } else {
        results_text(rs.drop_last()) + result_text(rs.last())
    }
}

pub open spec fn no_files_text() -> Seq<char> {
    "No .ucc files were found in the current directory tree."@
}

/// The lint summary: the number of files, valid and invalid, then a block
/// per result.
pub open spec fn lint_summary_text(rs: Seq<UccLintResult>) -> Seq<char> {
    "Linted "@ + decimal(rs.len()) + " .ucc file(s): "@ + decimal(valid_count(rs)) + " valid, "@
        + decimal((rs.len() - valid_count(rs)) as nat) + " invalid\n"@ + results_text(rs)
}

/// The answer of the lint command: a note when there was no file, the
/// summary otherwise, as an error when some file is invalid.
pub open spec fn lint_answer(rs: Seq<UccLintResult>) -> Result<Seq<char>, Seq<char>> {
    if rs.len() == 0 {
        Ok(no_files_text())
    } else if valid_count(rs) < rs.len() {
        Err(lint_summary_text(rs))
    } else {
        Ok(lint_summary_text(rs))
    }
}

pub open spec fn answer_view(r: Result<String, String>) -> Result<Seq<char>, Seq<char>> {
    match r {
        Ok(t) => Ok(t@),
        Err(e) => Err(e@),
    }
}

fn push_location(out: &mut Vec<char>, issue: &UccLintIssue)
    ensures
        final(out)@ == old(out)@ + location_text(issue.line, issue.column),
{
    match (issue.line, issue.column) {
        (Some(l), Some(c)) => {
            push_str(out, "line ");
            push_decimal(out, l);
            push_str(out, ", ");
            push_str(out, "column ");
            push_decimal(out, c);
        },
        (Some(l), None) => {
            push_str(out, "line ");
            push_decimal(out, l);
        },
        (None, Some(c)) => {
            push_str(out, "column ");
            push_decimal(out, c);
        },
        (None, None) => {
            push_str(out, "unknown location");
        },
    }
    assert(out@ =~= old(out)@ + location_text(issue.line, issue.column));
}

fn push_result(out: &mut Vec<char>, r: &UccLintResult)
    ensures
        final(out)@ == old(out)@ + result_text(*r),
{
    if r.is_valid {
        push_str(out, "[OK] ");
        push_str(out, r.file_path.as_str());
        push_str(out, "\n");
    } else {
        match &r.issue {
            Some(i) => {
                push_str(out, "[ERROR] ");
                push_str(out, r.file_path.as_str());
                push_str(out, " (");
                push_location(out, i);
                push_str(out, ")\n  ");
                push_str(out, i.message.as_str());
                push_str(out, "\n");
                match &i.suggestion {
                    Some(h) => {
                        push_str(out, "  Suggestion: ");
                        push_str(out, h.as_str());
                        push_str(out, "\n");
                    },
                    None => {},
                }
            },
            None => {},
        }
    }
    assert(out@ =~= old(out)@ + result_text(*r));
}

/// The number of valid results.
fn count_valid(rs: &Vec<UccLintResult>) -> (r: usize)
    ensures
        r == valid_count(rs@),
{
    let mut valid: usize = 0;
    let mut k: usize = 0;
    while k < rs.len()
        invariant
            k <= rs@.len(),
            valid == valid_count(rs@.take(k as int)),
            valid <= k,
        decreases rs@.len() - k,
    {
        assert(rs@.take(k + 1).drop_last() =~= rs@.take(k as int));
        if rs[k].is_valid {
            valid = valid + 1;
        }
        k = k + 1;
    }
    assert(rs@.take(rs@.len() as int) =~= rs@);
    valid
}

proof fn lemma_valid_count_le(rs: Seq<UccLintResult>)
    ensures
        valid_count(rs) <= rs.len(),
    decreases rs.len(),
{
    if rs.len() > 0 {
        lemma_valid_count_le(rs.drop_last());
    }
}

/// The answer of the lint command for these results.
pub fn format_lint_results(lint_results: Vec<UccLintResult>) -> (r: Result<String, String>)
    ensures
        answer_view(r) == lint_answer(lint_results@),
{
    if lint_results.len() == 0 {
        return Ok(owned("No .ucc files were found in the current directory tree."));
    }
    let valid = count_valid(&lint_results);
    proof {
        lemma_valid_count_le(lint_results@);
    }
    let invalid = lint_results.len() - valid;
    let mut out: Vec<char> = Vec::new();
    push_str(&mut out, "Linted ");
    push_decimal(&mut out, lint_results.len());
    push_str(&mut out, " .ucc file(s): ");
    push_decimal(&mut out, valid);
    push_str(&mut out, " valid, ");
    push_decimal(&mut out, invalid);
    push_str(&mut out, " invalid\n");
    let ghost head = out@;
    let mut k: usize = 0;
    while k < lint_results.len()
        invariant
            k <= lint_results@.len(),
            out@ == head + results_text(lint_results@.take(k as int)),
        decreases lint_results@.len() - k,
    {
        assert(lint_results@.take(k + 1).drop_last() =~= lint_results@.take(k as int));
        push_result(&mut out, &lint_results[k]);
        k = k + 1;
        assert(out@ =~= head + results_text(lint_results@.take(k as int)));
    }
    assert(lint_results@.take(lint_results@.len() as int) =~= lint_results@);
    assert(out@ =~= lint_summary_text(lint_results@));
    let text = string_from_chars(out.as_slice());
    if invalid > 0 {
        Err(text)
    } else {
        Ok(text)
    }
}

/// Why the report cannot be built: the number of invalid files, then the
/// lint summary.
pub open spec fn report_refused_text(rs: Seq<UccLintResult>) -> Seq<char> {
    "Cannot generate report because "@ + decimal((rs.len() - valid_count(rs)) as nat)
        + " .ucc file(s) are invalid.\n\n"@ + lint_summary_text(rs)
}

/// The report is built only when every `.ucc` file is valid: the results
/// back when they all are, else the reason it is refused.
pub fn require_valid_files(lint_results: Vec<UccLintResult>) -> (r: Result<
    Vec<UccLintResult>,
    String,
>)
    ensures
        r is Ok <==> valid_count(lint_results@) == lint_results@.len(),
        r matches Ok(v) ==> v@ == lint_results@,
        r matches Err(e) ==> e@ == report_refused_text(lint_results@),
{
    let valid = count_valid(&lint_results);
    proof {
        lemma_valid_count_le(lint_results@);
    }
    let invalid_count = lint_results.len() - valid;
    if invalid_count > 0 {
        let ghost rs = lint_results@;
        let lint_output = match format_lint_results(lint_results) {
            Ok(t) => t,
            Err(e) => e,
        };
        assert(lint_output@ == lint_summary_text(rs));
        let mut out: Vec<char> = Vec::new();
        push_str(&mut out, "Cannot generate report because ");
        push_decimal(&mut out, invalid_count);
        push_str(&mut out, " .ucc file(s) are invalid.\n\n");
        push_str(&mut out, lint_output.as_str());
        assert(out@ =~= report_refused_text(rs));
        return Err(string_from_chars(out.as_slice()));
    }
    Ok(lint_results)
}

} // verus!
