# use_case_coverage

A verified library for Use Case Coverage (`ucc`): `.ucc` files declare the
features, use cases and bugs of a project; the library lints them, finds the
automated tests that mention their artifacts, and computes the figures of the
coverage report. Every function in `src/` carries a contract that Verus
proves (for the use cases, what holds whatever the user's repository and
parser return), but for the few trusted wrappers around `aho-corasick`, `chrono` and
`String::from_iter`, whose contracts rest on those libraries' documentation
and source.

Layout:

- `src/text.rs`: characters and strings, with their models over `Seq<char>`.
- `src/domain.rs`: features, artifacts, priorities and the coverage index.
- `src/paths.rs`: path components, path order, merging and root deduplication.
- `src/matcher.rs`: finding artifact ids on a line (Aho-Corasick, through
  trusted wrappers).
- `src/coverage.rs`: the line-by-line scan of test files and the index it
  builds.
- `src/lint.rs`: lint verdicts, parser locations and hints, duplicate checks.
- `src/ports.rs`, `src/usecases.rs`: the traits the use cases read through,
  and the use cases themselves.
- `src/infrastructure.rs`: a `.ucc` file as read, and the document it becomes.
- `src/report.rs`, `src/templates.rs`: the report's figures and its page.
- `src/cli.rs`: the command line's arguments, commands and answers.
- `src/laws.rs`: properties of the library as a whole.
- `app/`: the `ucc` program: file system, YAML parsing, JSON, clock and
  terminal.

Notes:

- The coverage index keeps its entries in a `Vec` with the invariant that no
  artifact id occurs twice, rather than in a `HashMap` keyed by `String`:
  Verus proves little of a `String`-keyed map, and the index's contracts
  (`insert`, `add_location`, `for_artifact`, `is_covered`) are stated over
  a `Map` view.
- The use cases read files through traits that users implement, so their
  contracts say what holds whatever those return: the results are built, in
  path order and one per distinct file, by the verified functions
  `collect_parsed`, `lint_parsed_files`, `scan_test_file` and
  `build_coverage_index`; which files exist is up to the implementation.
- The version the help text shows is the crate's own, `0.1.0`.
