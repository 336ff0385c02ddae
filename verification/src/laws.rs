//! What holds of the library as a whole: of the coverage index across
//! writes and reads, of the lint verdicts, of the report's figures, and of
//! reading the command line.
use vstd::prelude::*;

use crate::cli::{lint_answer, read_args, ArgsScan};
use crate::coverage::{
    all_references, at_line, by_age, file_references, indexes, references_to, scan_lines,
    scanned,
};
use crate::usecases::covers;
use crate::domain::{
    locations_for, priority_name, priority_named, priority_parse, sorted_locations, Artifact,
    ArtifactTestLocation, Coverage, FeatureDocument, Priority, UccLintIssue, UccLintResult,
};
use crate::lint::{
    artifact_comma_lines, artifact_id_count, duplicate_issue, duplicate_lines, feature_id_count, file_name_count,
    lint_result_for, repeated_artifact_ids, sorted_set_of, ParsedFile,
};
use crate::matcher::{
    all_artifact_ids, ids_in_line, matcher_for, owners_of, standalone_ids,
    ArtifactIdMatcher,
};
use crate::paths::{
    components, file_name, lies_under_one_of, minimal_roots, path_eq, path_starts_with,
};
use crate::text::{contains, dedup, lower, trim};
use crate::report::{
    artifact_total, column_month, count_over, count_where, feature_row_of, features_in,
    growth_column,
    growth_matches, lemma_valid_count_bound, report_matches, valid_count, GrowthData, ReportData,
};

verus! {

/// Setting the locations of an artifact (`ArtifactCoverageIndex::insert`):
/// reading them back (`for_artifact`) gives what was set, the artifact
/// counts as covered (`is_covered`), and every other artifact reads as
/// before.
pub proof fn law_insert_then_read(
    m: Coverage,
    id: Seq<char>,
    locations: Seq<(Seq<char>, usize)>,
    other: Seq<char>,
)
    ensures
        locations_for(m.insert(id, locations), id) == locations,
        m.insert(id, locations).dom().contains(id),
        other != id ==> locations_for(m.insert(id, locations), other) == locations_for(m, other),
        other != id ==> (m.insert(id, locations).dom().contains(other) <==> m.dom().contains(
            other,
        )),
{
}

/// Adding a location to an artifact (`ArtifactCoverageIndex::add_location`)
/// appends it to what the artifact listed, marks the artifact covered, and
/// leaves every other artifact as it was.
pub proof fn law_add_location_appends(
    m: Coverage,
    id: Seq<char>,
    location: (Seq<char>, usize),
    other: Seq<char>,
)
    ensures
        locations_for(m.insert(id, locations_for(m, id).push(location)), id) == locations_for(
            m,
            id,
        ).push(location),
        m.insert(id, locations_for(m, id).push(location)).dom().contains(id),
        other != id ==> locations_for(m.insert(id, locations_for(m, id).push(location)), other)
            == locations_for(m, other),
{
}

/// An artifact that is not covered lists no location.
pub proof fn law_uncovered_lists_nothing(m: Coverage, id: Seq<char>)
    ensures
        !m.dom().contains(id) ==> locations_for(m, id).len() == 0,
{
}

proof fn lemma_references_to_contains(
    refs: Seq<(Seq<char>, (Seq<char>, usize))>,
    id: Seq<char>,
    location: (Seq<char>, usize),
)
    ensures
        references_to(refs, id).contains(location) <==> refs.contains((id, location)),
    decreases refs.len(),
{
    if refs.len() > 0 {
        let prev = refs.drop_last();
        lemma_references_to_contains(prev, id, location);
        if refs.contains((id, location)) {
            let j = choose|j: int| 0 <= j < refs.len() && refs[j] == (id, location);
            if j < refs.len() - 1 {
                assert(prev[j] == (id, location));
            }
        }
        if prev.contains((id, location)) {
            let j = choose|j: int| 0 <= j < prev.len() && prev[j] == (id, location);
            assert(refs[j] == (id, location));
        }
        let r = references_to(prev, id);
        if refs.last().0 == id {
            assert(r.push(refs.last().1).contains(location) <==> (r.contains(location)
                || refs.last().1 == location)) by {
                if r.push(refs.last().1).contains(location) {
                    let j = choose|j: int|
                        0 <= j < r.len() + 1 && r.push(refs.last().1)[j] == location;
                    if j < r.len() {
                        assert(r[j] == location);
                    }
                }
                if r.contains(location) {
                    let j = choose|j: int| 0 <= j < r.len() && r[j] == location;
                    assert(r.push(refs.last().1)[j] == location);
                }
                assert(r.push(refs.last().1)[r.len() as int] == refs.last().1);
            }
        }
    }
}

/// The coverage index lists exactly the references that were found: an
/// artifact lists a location if and only if a scan found a reference to that
/// artifact at that location.
pub proof fn law_index_lists_exactly_the_references(
    m: Coverage,
    refs: Seq<(Seq<char>, (Seq<char>, usize))>,
    id: Seq<char>,
    location: (Seq<char>, usize),
)
    requires
        indexes(m, refs),
    ensures
        locations_for(m, id).contains(location) <==> refs.contains((id, location)),
{
    broadcast use vstd::seq_lib::group_seq_properties;
    lemma_references_to_contains(refs, id, location);
    let r = references_to(refs, id);
    if m.dom().contains(id) {
        assert(m[id].to_multiset() == r.to_multiset());
        assert(m[id].contains(location) <==> m[id].to_multiset().count(location) > 0);
        assert(r.contains(location) <==> r.to_multiset().count(location) > 0);
    } else {
        assert(r.len() == 0);
        assert(!r.contains(location));
    }
}

/// The lint command fails exactly when some file is invalid, which is also
/// exactly when the report is refused (`require_valid_files`).
pub proof fn law_lint_fails_iff_some_file_invalid(rs: Seq<UccLintResult>)
    ensures
        lint_answer(rs) is Err <==> valid_count(rs) < rs.len(),
{
    if rs.len() == 0 {
        assert(valid_count(rs) == 0);
    }
}

/// Every artifact is either a use case or a bug, and of each kind no more
/// are covered than there are, whatever the month looked at; so coverage
/// percentages never exceed a hundred.
pub proof fn law_kinds_partition_artifacts(
    arts: Seq<Artifact>,
    cov: Coverage,
    month: Option<(i32, u32)>,
)
    ensures
        count_where(arts, cov, month, Some(false), false) + count_where(
            arts,
            cov,
            month,
            Some(true),
            false,
        ) == count_where(arts, cov, month, None, false),
        count_where(arts, cov, month, Some(false), true) <= count_where(
            arts,
            cov,
            month,
            Some(false),
            false,
        ),
        count_where(arts, cov, month, Some(true), true) <= count_where(
            arts,
            cov,
            month,
            Some(true),
            false,
        ),
    decreases arts.len(),
{
    if arts.len() > 0 {
        law_kinds_partition_artifacts(arts.drop_last(), cov, month);
    }
}

/// The same over all features: use cases and bugs add up to the artifacts,
/// and the covered ones of each kind never outnumber that kind.
pub proof fn law_kinds_partition_features(
    fs: Seq<FeatureDocument>,
    cov: Coverage,
    month: Option<(i32, u32)>,
)
    ensures
        count_over(fs, cov, month, Some(false), false) + count_over(fs, cov, month, Some(true), false)
            == count_over(fs, cov, month, None, false),
        count_over(fs, cov, month, Some(false), true) <= count_over(
            fs,
            cov,
            month,
            Some(false),
            false,
        ),
        count_over(fs, cov, month, Some(true), true) <= count_over(
            fs,
            cov,
            month,
            Some(true),
            false,
        ),
    decreases fs.len(),
{
    if fs.len() > 0 {
        law_kinds_partition_features(fs.drop_last(), cov, month);
        law_kinds_partition_artifacts(fs.last().artifacts@, cov, month);
    }
}

/// The growth chart covers twelve consecutive months ending in the current
/// one: its last column is the current month, and each column is the month
/// after the one before it.
pub proof fn law_growth_months_are_consecutive(now_year: i32, now_month: u32, i: int)
    requires
        1 <= now_month <= 12,
        i32::MIN < now_year,
        0 <= i < 11,
    ensures
        column_month(now_year, now_month, 11) == (now_year, now_month),
        1 <= column_month(now_year, now_month, i).1 <= 12,
        column_month(now_year, now_month, i + 1).0 * 12 + column_month(now_year, now_month, i + 1).1
            == column_month(now_year, now_month, i).0 * 12 + column_month(now_year, now_month, i).1
            + 1,
{
    let base = now_year * 12 + (now_month - 1) - 11;
    let t = base + i;
    vstd::arithmetic::div_mod::lemma_fundamental_div_mod(t, 12);
    vstd::arithmetic::div_mod::lemma_fundamental_div_mod(t + 1, 12);
    vstd::arithmetic::div_mod::lemma_fundamental_div_mod_converse(
        now_year * 12 + (now_month - 1),
        12,
        now_year as int,
        now_month - 1,
    );
    assert(t / 12 >= now_year - 1) by (nonlinear_arith)
        requires
            t == now_year * 12 + (now_month - 1) - 11 + i,
            0 <= i,
            1 <= now_month,
            t == 12 * (t / 12) + t % 12,
            0 <= t % 12 < 12,
    ;
    assert(t / 12 <= now_year) by (nonlinear_arith)
        requires
            t == now_year * 12 + (now_month - 1) - 11 + i,
            i < 11,
            now_month <= 12,
            t == 12 * (t / 12) + t % 12,
            0 <= t % 12 < 12,
    ;
    assert((t + 1) / 12 >= now_year - 1) by (nonlinear_arith)
        requires
            t + 1 == now_year * 12 + (now_month - 1) - 11 + i + 1,
            0 <= i,
            1 <= now_month,
            t + 1 == 12 * ((t + 1) / 12) + (t + 1) % 12,
            0 <= (t + 1) % 12 < 12,
    ;
    assert((t + 1) / 12 <= now_year) by (nonlinear_arith)
        requires
            t + 1 == now_year * 12 + (now_month - 1) - 11 + i + 1,
            i < 11,
            now_month <= 12,
            t + 1 == 12 * ((t + 1) / 12) + (t + 1) % 12,
            0 <= (t + 1) % 12 < 12,
    ;
}

/// Once the command is read, later arguments never change it: the first
/// help flag or the first argument that is not an option is the command.
pub proof fn law_first_command_stays(args: Seq<Seq<char>>, i: int, s: ArgsScan)
    requires
        s.command is Some,
    ensures
        read_args(args, i, s).command == s.command,
    decreases args.len() - i,
{
    if 0 <= i < args.len() {
        let (j, t) = crate::cli::read_arg(args, i, s);
        assert(t.command == s.command);
        law_first_command_stays(args, j, t);
    }
}

/// Once `-s` is read, discovery stays limited to the top-level directory.
pub proof fn law_single_stays(args: Seq<Seq<char>>, i: int, s: ArgsScan)
    requires
        !s.recursive,
    ensures
        !read_args(args, i, s).recursive,
    decreases args.len() - i,
{
    if 0 <= i < args.len() {
        let (j, t) = crate::cli::read_arg(args, i, s);
        assert(!t.recursive);
        law_single_stays(args, j, t);
    }
}

/// What makes a parsed `.ucc` file invalid: a comma in its feature id or in
/// an artifact id, an artifact id that occurs more than once over all files,
/// a feature id that two files share, or a file name that two files share.
pub open spec fn lint_problem(path: Seq<char>, doc: FeatureDocument, ps: Seq<ParsedFile>) -> bool {
    ||| contains(doc.feature.id@, ","@)
    ||| exists|j: int|
        0 <= j < doc.artifacts@.len() && contains(#[trigger] doc.artifacts@[j].id@, ","@)
    ||| exists|j: int|
        0 <= j < doc.artifacts@.len() && artifact_id_count(ps, #[trigger] doc.artifacts@[j].id@)
            > 1
    ||| feature_id_count(ps, doc.feature.id@) > 1
    ||| (file_name(path) matches Some(n) && file_name_count(ps, n) > 1)
}

proof fn lemma_comma_lines_nonempty(arts: Seq<Artifact>)
    ensures
        artifact_comma_lines(arts).len() > 0 <==> exists|j: int|
            0 <= j < arts.len() && contains(#[trigger] arts[j].id@, ","@),
    decreases arts.len(),
{
    if arts.len() > 0 {
        let prev = arts.drop_last();
        lemma_comma_lines_nonempty(prev);
        if exists|j: int| 0 <= j < prev.len() && contains(#[trigger] prev[j].id@, ","@) {
            let j = choose|j: int| 0 <= j < prev.len() && contains(#[trigger] prev[j].id@, ","@);
            assert(arts[j] == prev[j]);
        }
        if exists|j: int| 0 <= j < arts.len() && contains(#[trigger] arts[j].id@, ","@) {
            let j = choose|j: int| 0 <= j < arts.len() && contains(#[trigger] arts[j].id@, ","@);
            if j < prev.len() {
                assert(prev[j] == arts[j]);
            }
        }
    }
}

proof fn lemma_repeated_ids_nonempty(arts: Seq<Artifact>, ps: Seq<ParsedFile>)
    ensures
        repeated_artifact_ids(arts, ps).len() > 0 <==> exists|j: int|
            0 <= j < arts.len() && artifact_id_count(ps, #[trigger] arts[j].id@) > 1,
    decreases arts.len(),
{
    if arts.len() > 0 {
        let prev = arts.drop_last();
        lemma_repeated_ids_nonempty(prev, ps);
        if exists|j: int| 0 <= j < prev.len() && artifact_id_count(ps, #[trigger] prev[j].id@) > 1 {
            let j = choose|j: int|
                0 <= j < prev.len() && artifact_id_count(ps, #[trigger] prev[j].id@) > 1;
            assert(arts[j] == prev[j]);
        }
        if exists|j: int| 0 <= j < arts.len() && artifact_id_count(ps, #[trigger] arts[j].id@) > 1 {
            let j = choose|j: int|
                0 <= j < arts.len() && artifact_id_count(ps, #[trigger] arts[j].id@) > 1;
            if j < prev.len() {
                assert(prev[j] == arts[j]);
            }
        }
    }
}

/// The duplicate report of a parsed file (`check_for_duplicates`) is empty
/// exactly when the file has none of the problems of `lint_problem`; a report
/// names no line or column and always carries a hint.
pub proof fn law_duplicate_report(
    path: Seq<char>,
    doc: FeatureDocument,
    ps: Seq<ParsedFile>,
    issue: Option<UccLintIssue>,
)
    requires
        duplicate_issue(path, doc, ps, issue),
    ensures
        issue is None <==> !lint_problem(path, doc, ps),
        issue matches Some(i) ==> i.line is None && i.column is None && i.suggestion is Some,
{
    let rep = repeated_artifact_ids(doc.artifacts@, ps);
    let sd = choose|sd: Seq<Seq<char>>|
        #[trigger] sorted_set_of(sd, rep) && crate::lint::issue_reports(
            issue,
            duplicate_lines(path, doc, ps, sd),
        );
    lemma_comma_lines_nonempty(doc.artifacts@);
    lemma_repeated_ids_nonempty(doc.artifacts@, ps);
    assert(sd.len() > 0 <==> rep.len() > 0) by {
        if sd.len() > 0 {
            assert(sd.contains(sd[0]));
            assert(rep.contains(sd[0]));
        }
        if rep.len() > 0 {
            assert(rep.contains(rep[0]));
            assert(sd.contains(rep[0]));
        }
    }
}

/// A `.ucc` file that parsed is valid exactly when it has none of the
/// problems of `lint_problem`; in particular, two files with the same
/// feature id, an artifact id or a file name in common are both invalid.
pub proof fn law_parsed_file_valid_iff_no_problem(ps: Seq<ParsedFile>, k: int, res: UccLintResult)
    requires
        0 <= k < ps.len(),
        lint_result_for(ps, k, res),
        ps[k].1 is Ok,
    ensures
        res.is_valid <==> !lint_problem(ps[k].0@, ps[k].1->Ok_0, ps),
{
    law_duplicate_report(ps[k].0@, ps[k].1->Ok_0, ps, res.issue);
}

proof fn lemma_plain_name(s: Seq<char>)
    requires
        s.len() > 0,
        forall|i: int| 0 <= i < s.len() ==> 'a' <= #[trigger] s[i] <= 'z',
    ensures
        lower(trim(s)) == s,
{
    assert(trim(s) == s);
    assert(lower(s) =~= s);
}

/// Reading the name that a priority is written with gives that priority
/// back.
pub proof fn law_priority_name_round_trip(p: Priority)
    ensures
        priority_parse(priority_name(p)) == Ok::<Priority, Seq<char>>(p),
{
    lemma_name_is_named(p);
    reveal_strlit("none");
    reveal_strlit("low");
    reveal_strlit("medium");
    reveal_strlit("high");
    reveal_strlit("highest");
    lemma_plain_name(priority_name(p));
}

proof fn lemma_name_is_named(p: Priority)
    ensures
        priority_named(priority_name(p)) == Some(p),
{
    reveal_strlit("none");
    reveal_strlit("low");
    reveal_strlit("medium");
    reveal_strlit("high");
    reveal_strlit("highest");
    assert("none"@[0] == 'n' && "low"@[0] == 'l' && "medium"@[0] == 'm');
    assert("high"@[0] == 'h' && "highest"@[0] == 'h');
    assert("high"@.len() == 4 && "highest"@.len() == 7);
}

/// Reading a priority (`Priority::parse`, `from_str`) ignores surrounding
/// whitespace and ASCII case: any text that trims and lowercases to a
/// priority's name reads as that priority, and any other text is refused
/// with a message that quotes it.
pub proof fn law_priority_parse_ignores_case_and_padding(p: Priority, value: Seq<char>)
    ensures
        lower(trim(value)) == priority_name(p) ==> priority_parse(value) == Ok::<
            Priority,
            Seq<char>,
        >(p),
        priority_named(lower(trim(value))) is None ==> priority_parse(value) == Err::<
            Priority,
            Seq<char>,
        >("Invalid priority: '"@ + value + "'"@),
{
    lemma_name_is_named(p);
}

proof fn lemma_dedup<A>(s: Seq<A>)
    ensures
        dedup(s).no_duplicates(),
        forall|x: A| #[trigger] dedup(s).contains(x) <==> s.contains(x),
    decreases s.len(),
{
    if s.len() > 0 {
        let prev = s.drop_last();
        lemma_dedup(prev);
        let d = dedup(prev);
        assert forall|x: A| #[trigger] dedup(s).contains(x) <==> s.contains(x) by {
            if s.contains(x) {
                let j = choose|j: int| 0 <= j < s.len() && s[j] == x;
                if j < prev.len() {
                    assert(prev[j] == x);
                    assert(prev.contains(x));
                } else {
                    assert(x == s.last());
                }
                if !d.contains(s.last()) {
                    assert(d.push(s.last())[d.len() as int] == s.last());
                    if d.contains(x) {
                        let i = choose|i: int| 0 <= i < d.len() && d[i] == x;
                        assert(d.push(s.last())[i] == x);
                    }
                }
            }
            if dedup(s).contains(x) {
                if d.contains(s.last()) {
                    assert(prev.contains(x));
                    let j = choose|j: int| 0 <= j < prev.len() && prev[j] == x;
                    assert(s[j] == x);
                } else {
                    let i = choose|i: int| 0 <= i < d.len() + 1 && d.push(s.last())[i] == x;
                    if i < d.len() {
                        assert(d[i] == x);
                        assert(d.contains(x));
                        assert(prev.contains(x));
                        let j = choose|j: int| 0 <= j < prev.len() && prev[j] == x;
                        assert(s[j] == x);
                    } else {
                        assert(s[s.len() - 1] == x);
                    }
                }
            }
        }
        if !d.contains(s.last()) {
            assert forall|i: int, j: int|
                0 <= i < d.len() + 1 && 0 <= j < d.len() + 1 && i != j implies d.push(
                s.last(),
            )[i] != d.push(s.last())[j] by {
                if i == d.len() {
                    assert(d[j] == d.push(s.last())[j]);
                } else if j == d.len() {
                    assert(d[i] == d.push(s.last())[i]);
                }
            }
        }
    }
}

proof fn lemma_standalone_ids_owned(
    owners: Seq<Seq<char>>,
    ms: Seq<(usize, usize, usize)>,
    bytes: Seq<u8>,
    x: Seq<char>,
)
    ensures
        standalone_ids(owners, ms, bytes).contains(x) ==> owners.contains(x),
    decreases ms.len(),
{
    if ms.len() > 0 {
        let prev = standalone_ids(owners, ms.drop_last(), bytes);
        lemma_standalone_ids_owned(owners, ms.drop_last(), bytes, x);
        let cur = standalone_ids(owners, ms, bytes);
        if cur.contains(x) && !prev.contains(x) {
            let i = choose|i: int| 0 <= i < cur.len() && cur[i] == x;
            if i < prev.len() {
                assert(cur[i] == prev[i]);
            }
            let k = ms.last().0 as int;
            assert(owners[k] == x);
        }
    }
}

proof fn lemma_owners_are_ids(ids: Seq<Seq<char>>, x: Seq<char>)
    ensures
        owners_of(ids).contains(x) ==> ids.contains(x),
    decreases ids.len(),
{
    if ids.len() > 0 {
        let prev = ids.drop_last();
        lemma_owners_are_ids(prev, x);
        let o = owners_of(ids);
        if o.contains(x) {
            let i = choose|i: int| 0 <= i < o.len() && o[i] == x;
            let po = owners_of(prev);
            if i < po.len() {
                assert(o[i] == po[i]);
                let j = choose|j: int| 0 <= j < prev.len() && prev[j] == x;
                assert(ids[j] == x);
            } else {
                assert(x == ids.last());
                assert(ids[ids.len() - 1] == x);
            }
        }
    }
}

/// The ids found on a line are distinct, and each is the id of an artifact
/// of the features the matcher was built for: the search never reports an
/// id twice on one line, nor an id that no `.ucc` file declares.
pub proof fn law_line_ids_are_known_artifacts(
    m: ArtifactIdMatcher,
    features: Seq<FeatureDocument>,
    line: Seq<char>,
    x: Seq<char>,
)
    requires
        matcher_for(m, features),
    ensures
        ids_in_line(m, line).no_duplicates(),
        ids_in_line(m, line).contains(x) ==> all_artifact_ids(features).contains(x),
{
    match m.automaton() {
        None => {},
        Some(a) => {
            let bytes = vstd::utf8::encode_utf8(line);
            let owners = m.owners();
            let found = standalone_ids(
                owners,
                crate::matcher::leftmost_longest_matches(
                    crate::matcher::automaton_patterns(a),
                    bytes,
                ),
                bytes,
            );
            lemma_dedup(found);
            lemma_standalone_ids_owned(
                owners,
                crate::matcher::leftmost_longest_matches(
                    crate::matcher::automaton_patterns(a),
                    bytes,
                ),
                bytes,
                x,
            );
            let ids = dedup(all_artifact_ids(features));
            lemma_owners_are_ids(ids, x);
            lemma_dedup(all_artifact_ids(features));
        },
    }
}

/// Every entry names an id that line `e.1` (1-based, at most `k`) mentions.
pub open spec fn grounded(
    es: Seq<(Seq<char>, int)>,
    m: ArtifactIdMatcher,
    lines: Seq<Seq<char>>,
    k: int,
) -> bool {
    forall|i: int|
        0 <= i < es.len() ==> 1 <= (#[trigger] es[i]).1 <= k && ids_in_line(
            m,
            lines[es[i].1 - 1],
        ).contains(es[i].0)
}

proof fn lemma_grounded_concat(
    a: Seq<(Seq<char>, int)>,
    b: Seq<(Seq<char>, int)>,
    m: ArtifactIdMatcher,
    lines: Seq<Seq<char>>,
    k: int,
)
    requires
        grounded(a, m, lines, k),
        grounded(b, m, lines, k),
    ensures
        grounded(a + b, m, lines, k),
{
    assert forall|i: int| 0 <= i < (a + b).len() implies 1 <= (#[trigger] (a + b)[i]).1 <= k
        && ids_in_line(m, lines[(a + b)[i].1 - 1]).contains((a + b)[i].0) by {
        if i < a.len() {
            assert((a + b)[i] == a[i]);
        } else {
            assert((a + b)[i] == b[i - a.len()]);
        }
    }
}

proof fn lemma_by_age_grounded(
    p: Seq<(Seq<char>, int)>,
    n: int,
    w: int,
    recent: bool,
    m: ArtifactIdMatcher,
    lines: Seq<Seq<char>>,
    k: int,
)
    requires
        grounded(p, m, lines, k),
    ensures
        grounded(by_age(p, n, w, recent), m, lines, k),
    decreases p.len(),
{
    if p.len() > 0 {
        let prev = p.drop_last();
        assert(grounded(prev, m, lines, k)) by {
            assert forall|i: int| 0 <= i < prev.len() implies 1 <= (#[trigger] prev[i]).1 <= k
                && ids_in_line(m, lines[prev[i].1 - 1]).contains(prev[i].0) by {
                assert(prev[i] == p[i]);
            }
        }
        lemma_by_age_grounded(prev, n, w, recent, m, lines, k);
        let rest = by_age(prev, n, w, recent);
        assert(grounded(seq![p.last()], m, lines, k)) by {
            assert(p[p.len() - 1] == p.last());
        }
        lemma_grounded_concat(rest, seq![p.last()], m, lines, k);
        assert(rest.push(p.last()) =~= rest + seq![p.last()]);
    }
}

proof fn lemma_grounded_widen(
    es: Seq<(Seq<char>, int)>,
    m: ArtifactIdMatcher,
    lines: Seq<Seq<char>>,
    k: int,
)
    requires
        grounded(es, m, lines, k - 1),
    ensures
        grounded(es, m, lines, k),
{
}

proof fn lemma_scan_grounded(m: ArtifactIdMatcher, lines: Seq<Seq<char>>, k: int)
    requires
        0 <= k <= lines.len(),
    ensures
        grounded(scan_lines(m, lines, k).pending, m, lines, k),
        grounded(scan_lines(m, lines, k).found, m, lines, k),
    decreases k,
{
    if k > 0 {
        lemma_scan_grounded(m, lines, k - 1);
        let st = scan_lines(m, lines, k - 1);
        lemma_grounded_widen(st.pending, m, lines, k);
        lemma_grounded_widen(st.found, m, lines, k);
        let line = lines[k - 1];
        let ids = ids_in_line(m, line);
        let here = at_line(ids, k);
        assert(grounded(here, m, lines, k)) by {
            assert forall|i: int| 0 <= i < here.len() implies 1 <= (#[trigger] here[i]).1 <= k
                && ids_in_line(m, lines[here[i].1 - 1]).contains(here[i].0) by {
                assert(here[i] == (ids[i], k));
                assert(ids.contains(ids[i]));
            }
        }
        let p1 = st.pending + here;
        lemma_grounded_concat(st.pending, here, m, lines, k);
        lemma_grounded_concat(st.found, here, m, lines, k);
        let in_test = crate::coverage::test_declaration(line) || st.previous_was_test_attribute;
        let in_body = !in_test && st.body_depth > 0;
        let q = if crate::coverage::comment_line(line) && !in_body {
            p1
        } else {
            st.pending
        };
        lemma_by_age_grounded(q, k, 3, true, m, lines, k);
        lemma_grounded_concat(st.found + here, by_age(q, k, 3, true), m, lines, k);
        lemma_by_age_grounded(q, k, 3, false, m, lines, k);
        let q2 = if in_test {
            by_age(q, k, 3, false)
        } else {
            q
        };
        lemma_by_age_grounded(q2, k, 2, true, m, lines, k);
        assert(grounded(Seq::<(Seq<char>, int)>::empty(), m, lines, k));
    }
}

/// Each reference that the scan of a test file reports names an artifact id
/// that the reported line mentions: the scan never ties an artifact to a
/// line that does not mention it.
pub proof fn law_scan_reports_mentioned_ids(m: ArtifactIdMatcher, lines: Seq<Seq<char>>, j: int)
    requires
        0 <= j < file_references(m, lines).len(),
    ensures
        1 <= file_references(m, lines)[j].1 <= lines.len(),
        ids_in_line(m, lines[file_references(m, lines)[j].1 - 1]).contains(
            file_references(m, lines)[j].0,
        ),
{
    lemma_scan_grounded(m, lines, lines.len() as int);
    let f = file_references(m, lines);
    assert(1 <= f[j].1 <= lines.len());
}

proof fn lemma_path_starts_with_transitive(a: Seq<char>, b: Seq<char>, c: Seq<char>)
    requires
        path_starts_with(a, b),
        path_starts_with(b, c),
    ensures
        path_starts_with(a, c),
{
    let ca = components(a);
    let cb = components(b);
    let cc = components(c);
    assert(cc =~= ca.subrange(0, cc.len() as int)) by {
        assert forall|i: int| 0 <= i < cc.len() implies cc[i] == ca[i] by {
            assert(cc[i] == cb.subrange(0, cc.len() as int)[i]);
            assert(cb[i] == ca.subrange(0, cb.len() as int)[i]);
        }
    }
}

/// Dropping repeated and nested roots (`deduplicate_roots`) searches the
/// same places: a path lies under one of the kept roots exactly when it lies
/// under one of the given roots.
pub proof fn law_deduplicated_roots_cover_the_same_paths(
    r: Seq<Seq<char>>,
    roots: Seq<Seq<char>>,
    x: Seq<char>,
)
    requires
        minimal_roots(r, roots),
    ensures
        lies_under_one_of(r, x) <==> lies_under_one_of(roots, x),
{
    if lies_under_one_of(r, x) {
        let i = choose|i: int| 0 <= i < r.len() && path_starts_with(x, #[trigger] r[i]);
        assert(roots.contains(r[i]));
        let k = choose|k: int| 0 <= k < roots.len() && roots[k] == r[i];
        assert(path_starts_with(x, roots[k]));
    }
    if lies_under_one_of(roots, x) {
        let k = choose|k: int| 0 <= k < roots.len() && path_starts_with(x, #[trigger] roots[k]);
        assert(lies_under_one_of(r, roots[k]));
        let i = choose|i: int| 0 <= i < r.len() && path_starts_with(roots[k], #[trigger] r[i]);
        lemma_path_starts_with_transitive(x, roots[k], r[i]);
        assert(path_starts_with(x, r[i]));
    }
}

proof fn lemma_all_references_from_a_file(
    per_file: Seq<Vec<(String, ArtifactTestLocation)>>,
    x: (Seq<char>, (Seq<char>, usize)),
)
    requires
        all_references(per_file).contains(x),
    ensures
        exists|f: int, j: int|
            0 <= f < per_file.len() && 0 <= j < per_file[f]@.len() && (
            #[trigger] per_file[f]@[j]).0@ == x.0 && per_file[f]@[j].1@ == x.1,
    decreases per_file.len(),
{
    let prev = per_file.drop_last();
    let last = per_file.last()@.map_values(
        |e: (String, ArtifactTestLocation)| (e.0@, e.1@),
    );
    let a = all_references(prev);
    let i = choose|i: int| 0 <= i < (a + last).len() && (a + last)[i] == x;
    if i < a.len() {
        assert(a[i] == x);
        assert(a.contains(x));
        lemma_all_references_from_a_file(prev, x);
        let (f, j) = choose|f: int, j: int|
            0 <= f < prev.len() && 0 <= j < prev[f]@.len() && (#[trigger] prev[f]@[j]).0@ == x.0
                && prev[f]@[j].1@ == x.1;
        assert(per_file[f] == prev[f]);
    } else {
        let j = i - a.len();
        assert(last[j] == x);
        let f = per_file.len() - 1;
        assert(per_file[f]@[j].0@ == x.0 && per_file[f]@[j].1@ == x.1);
    }
}

/// Line `location.1` (1-based) of file `f` is `location.0`'s and mentions
/// artifact `id`.
pub open spec fn mentioned_at(
    m: ArtifactIdMatcher,
    files: Seq<Seq<char>>,
    contents: Seq<Seq<Seq<char>>>,
    id: Seq<char>,
    location: (Seq<char>, usize),
    f: int,
) -> bool {
    &&& 0 <= f < files.len()
    &&& location.0 == files[f]
    &&& 1 <= location.1 <= contents[f].len()
    &&& ids_in_line(m, contents[f][location.1 - 1]).contains(id)
}

/// Every location that the coverage search lists for an artifact is a line
/// of one of the test files searched, and that line mentions the artifact,
/// whose id is one that a `.ucc` file declares: the index never credits a
/// test that does not name the artifact.
pub proof fn law_covered_locations_mention_their_artifact(
    index: Coverage,
    features: Seq<FeatureDocument>,
    m: ArtifactIdMatcher,
    files: Seq<Seq<char>>,
    contents: Seq<Seq<Seq<char>>>,
    per_file: Seq<Vec<(String, ArtifactTestLocation)>>,
    id: Seq<char>,
    location: (Seq<char>, usize),
)
    requires
        covers(index, features, m, files, contents, per_file),
        locations_for(index, id).contains(location),
    ensures
        exists|f: int| #[trigger] mentioned_at(m, files, contents, id, location, f),
        all_artifact_ids(features).contains(id),
{
    law_index_lists_exactly_the_references(index, all_references(per_file), id, location);
    lemma_all_references_from_a_file(per_file, (id, location));
    let (f, j) = choose|f: int, j: int|
        0 <= f < per_file.len() && 0 <= j < per_file[f]@.len() && (#[trigger] per_file[f]@[j]).0@
            == id && per_file[f]@[j].1@ == location;
    assert(scanned(m, files[f], contents[f], per_file[f]@));
    let refs = file_references(m, contents[f]);
    assert(per_file[f]@[j].0@ == refs[j].0);
    law_scan_reports_mentioned_ids(m, contents[f], j);
    assert(mentioned_at(m, files, contents, id, location, f));
    law_line_ids_are_known_artifacts(m, features, contents[f][location.1 - 1], id);
}

proof fn lemma_count_all_artifacts(arts: Seq<Artifact>, cov: Coverage)
    ensures
        count_where(arts, cov, None, None, false) == arts.len(),
    decreases arts.len(),
{
    if arts.len() > 0 {
        lemma_count_all_artifacts(arts.drop_last(), cov);
    }
}

proof fn lemma_count_over_all(fs: Seq<FeatureDocument>, cov: Coverage)
    ensures
        count_over(fs, cov, None, None, false) == artifact_total(fs),
    decreases fs.len(),
{
    if fs.len() > 0 {
        lemma_count_over_all(fs.drop_last(), cov);
        lemma_count_all_artifacts(fs.last().artifacts@, cov);
    }
}

/// The report's figures add up: use cases and bugs together are all the
/// artifacts, no more are covered than there are (so the coverage
/// percentages stay within a hundred), valid and invalid files are all the
/// files linted, there is a lint row per invalid file, and there is a row per
/// feature, in order, with the feature's id, its bugs, and as use cases the
/// rest of its artifacts; each artifact's type reads `"usecase"` when it has
/// none.
pub proof fn law_report_figures_add_up(
    d: ReportData,
    fs: Seq<FeatureDocument>,
    rs: Seq<UccLintResult>,
    cov: Coverage,
    now_year: i32,
    now_month: u32,
    i: int,
    j: int,
)
    requires
        report_matches(d, fs, rs, cov, now_year, now_month),
    ensures
        d.summary.total_use_cases + d.summary.total_bugs == artifact_total(fs),
        d.summary.covered_use_cases <= d.summary.total_use_cases,
        d.summary.covered_bugs <= d.summary.total_bugs,
        d.summary.valid_ucc_files + d.summary.invalid_ucc_files == rs.len(),
        d.lint_issues@.len() == d.summary.invalid_ucc_files,
        d.summary.total_features == fs.len(),
        d.features@.len() == fs.len(),
        0 <= i < fs.len() ==> d.features@[i].id == fs[i].feature.id,
        0 <= i < fs.len() ==> d.features@[i].bugs == count_where(
            fs[i].artifacts@,
            cov,
            None,
            Some(true),
            false,
        ),
        0 <= i < fs.len() ==> d.features@[i].use_cases + d.features@[i].bugs
            == fs[i].artifacts@.len(),
        0 <= i < fs.len() ==> d.features@[i].use_cases_covered <= d.features@[i].use_cases,
        0 <= i < fs.len() ==> d.features@[i].bugs_covered <= d.features@[i].bugs,
        0 <= i < fs.len() && 0 <= j < fs[i].artifacts@.len() ==> d.features@[i].artifacts@[
            j
        ].artifact_type@ == match fs[i].artifacts@[j].artifact_type {
            Some(t) => t@,
            None => "usecase"@,
        },
{
    law_kinds_partition_features(fs, cov, None);
    lemma_count_over_all(fs, cov);
    lemma_valid_count_bound(rs);
    if 0 <= i < fs.len() {
        assert(feature_row_of(d.features@[i], fs[i], cov));
        law_kinds_partition_artifacts(fs[i].artifacts@, cov, None);
        lemma_count_all_artifacts(fs[i].artifacts@, cov);
        if 0 <= j < fs[i].artifacts@.len() {
            assert(crate::report::artifact_row_of(
                d.features@[i].artifacts@[j],
                fs[i].artifacts@[j],
                cov,
            ));
        }
    }
}

/// Each month of the growth chart adds up: its artifacts are its use cases
/// and bugs together, no more of either are covered than there are, and no
/// more features were created in it than there are features.
pub proof fn law_growth_columns_add_up(
    g: GrowthData,
    fs: Seq<FeatureDocument>,
    cov: Coverage,
    now_year: i32,
    now_month: u32,
    i: int,
)
    requires
        growth_matches(g, fs, cov, now_year, now_month),
        0 <= i < 12,
    ensures
        g.artifacts@[i] == g.use_cases@[i] + g.bugs@[i],
        g.covered_use_cases@[i] <= g.use_cases@[i],
        g.covered_bugs@[i] <= g.bugs@[i],
        g.features@[i] <= fs.len(),
{
    let ym = column_month(now_year, now_month, i);
    assert(growth_column(g, fs, cov, ym, i));
    law_kinds_partition_features(fs, cov, Some(ym));
    lemma_features_in_le(fs, ym);
}

proof fn lemma_features_in_le(fs: Seq<FeatureDocument>, ym: (i32, u32))
    ensures
        crate::report::features_in(fs, ym) <= fs.len(),
    decreases fs.len(),
{
    if fs.len() > 0 {
        lemma_features_in_le(fs.drop_last(), ym);
    }
}

/// Every artifact the index covers lists at least one location, and lists
/// them in path-then-line order.
pub proof fn law_index_entries_are_nonempty_and_sorted(
    m: Coverage,
    refs: Seq<(Seq<char>, (Seq<char>, usize))>,
    id: Seq<char>,
)
    requires
        indexes(m, refs),
        m.dom().contains(id),
    ensures
        m[id].len() > 0,
        sorted_locations(m[id]),
{
    broadcast use vstd::seq_lib::group_seq_properties;
    assert(m[id].to_multiset() == references_to(refs, id).to_multiset());
    assert(m[id].to_multiset().len() == m[id].len());
    assert(references_to(refs, id).to_multiset().len() == references_to(refs, id).len());
}

/// No two deduplicated roots are the same path.
pub proof fn law_deduplicated_roots_are_distinct(
    r: Seq<Seq<char>>,
    roots: Seq<Seq<char>>,
    i: int,
    j: int,
)
    requires
        minimal_roots(r, roots),
        0 <= i < r.len(),
        0 <= j < r.len(),
        i != j,
    ensures
        !path_eq(r[i], r[j]),
{
    if path_eq(r[i], r[j]) {
        assert(components(r[i]).is_prefix_of(components(r[j])));
        assert(components(r[j]).is_prefix_of(components(r[i])));
        if i < j {
            assert(path_starts_with(r[j], r[i]));
        } else {
            assert(path_starts_with(r[i], r[j]));
        }
    }
}

proof fn lemma_column_index(now_year: i32, now_month: u32, i: int)
    requires
        1 <= now_month <= 12,
        i32::MIN < now_year,
        0 <= i < 12,
    ensures
        column_month(now_year, now_month, i).0 * 12 + column_month(now_year, now_month, i).1
            == now_year * 12 + now_month - 11 + i,
{
    let t = now_year * 12 + (now_month - 1) - 11 + i;
    vstd::arithmetic::div_mod::lemma_fundamental_div_mod(t, 12);
    assert(t / 12 >= now_year - 1) by (nonlinear_arith)
        requires
            t == now_year * 12 + (now_month - 1) - 11 + i,
            0 <= i,
            1 <= now_month,
            t == 12 * (t / 12) + t % 12,
            0 <= t % 12 < 12,
    ;
    assert(t / 12 <= now_year) by (nonlinear_arith)
        requires
            t == now_year * 12 + (now_month - 1) - 11 + i,
            i < 12,
            now_month <= 12,
            t == 12 * (t / 12) + t % 12,
            0 <= t % 12 < 12,
    ;
}

/// Column `j` of the growth chart is the month `o` names.
pub open spec fn in_column(o: Option<(i32, u32)>, now_year: i32, now_month: u32, j: int) -> bool {
    o == Some(column_month(now_year, now_month, j))
}

/// The number of the first `k` columns that are the month `o` names.
pub open spec fn column_hits(o: Option<(i32, u32)>, now_year: i32, now_month: u32, k: int) -> nat
    decreases k,
{
    if k <= 0 {
        0
    } else {
        column_hits(o, now_year, now_month, k - 1) + if in_column(o, now_year, now_month, k - 1) {
            1nat
        } else {
            0nat
        }
    }
}

/// The features created in the months of the first `k` columns, column by
/// column.
pub open spec fn column_feature_sum(
    fs: Seq<FeatureDocument>,
    now_year: i32,
    now_month: u32,
    k: int,
) -> nat
    decreases k,
{
    if k <= 0 {
        0
    } else {
        column_feature_sum(fs, now_year, now_month, k - 1) + features_in(
            fs,
            column_month(now_year, now_month, k - 1),
        )
    }
}

/// The sum of the first `k` entries.
pub open spec fn prefix_sum(s: Seq<u32>, k: int) -> nat
    decreases k,
{
    if k <= 0 {
        0
    } else {
        prefix_sum(s, k - 1) + s[k - 1] as nat
    }
}

proof fn lemma_column_hits_at_most_one(o: Option<(i32, u32)>, now_year: i32, now_month: u32, k: int)
    requires
        1 <= now_month <= 12,
        i32::MIN < now_year,
        0 <= k <= 12,
    ensures
        column_hits(o, now_year, now_month, k) <= 1,
        column_hits(o, now_year, now_month, k) == 1 <==> exists|j: int|
            0 <= j < k && #[trigger] in_column(o, now_year, now_month, j),
    decreases k,
{
    if k > 0 {
        lemma_column_hits_at_most_one(o, now_year, now_month, k - 1);
        if in_column(o, now_year, now_month, k - 1) {
            assert forall|j: int| 0 <= j < k - 1 implies !#[trigger] in_column(
                o,
                now_year,
                now_month,
                j,
            ) by {
                lemma_column_index(now_year, now_month, j);
                lemma_column_index(now_year, now_month, k - 1);
            }
        }
        if exists|j: int| 0 <= j < k && #[trigger] in_column(o, now_year, now_month, j) {
            let j = choose|j: int| 0 <= j < k && #[trigger] in_column(o, now_year, now_month, j);
            if j < k - 1 {
                assert(exists|j2: int|
                    0 <= j2 < k - 1 && #[trigger] in_column(o, now_year, now_month, j2));
            }
        }
    }
}

proof fn lemma_column_feature_sum_split(
    fs: Seq<FeatureDocument>,
    now_year: i32,
    now_month: u32,
    k: int,
)
    requires
        fs.len() > 0,
    ensures
        column_feature_sum(fs, now_year, now_month, k) == column_feature_sum(
            fs.drop_last(),
            now_year,
            now_month,
            k,
        ) + column_hits(
            crate::report::year_month_of(fs.last().feature.created_at@),
            now_year,
            now_month,
            k,
        ),
    decreases k,
{
    if k > 0 {
        lemma_column_feature_sum_split(fs, now_year, now_month, k - 1);
    }
}

proof fn lemma_column_feature_sum_bound(fs: Seq<FeatureDocument>, now_year: i32, now_month: u32)
    requires
        1 <= now_month <= 12,
        i32::MIN < now_year,
    ensures
        column_feature_sum(fs, now_year, now_month, 12) <= fs.len(),
    decreases fs.len(),
{
    if fs.len() > 0 {
        lemma_column_feature_sum_bound(fs.drop_last(), now_year, now_month);
        lemma_column_feature_sum_split(fs, now_year, now_month, 12);
        lemma_column_hits_at_most_one(
            crate::report::year_month_of(fs.last().feature.created_at@),
            now_year,
            now_month,
            12,
        );
    } else {
        lemma_column_feature_sum_empty(fs, now_year, now_month, 12);
    }
}

proof fn lemma_column_feature_sum_empty(
    fs: Seq<FeatureDocument>,
    now_year: i32,
    now_month: u32,
    k: int,
)
    requires
        fs.len() == 0,
    ensures
        column_feature_sum(fs, now_year, now_month, k) == 0,
    decreases k,
{
    if k > 0 {
        lemma_column_feature_sum_empty(fs, now_year, now_month, k - 1);
    }
}

proof fn lemma_growth_feature_sum(
    g: GrowthData,
    fs: Seq<FeatureDocument>,
    cov: Coverage,
    now_year: i32,
    now_month: u32,
    k: int,
)
    requires
        growth_matches(g, fs, cov, now_year, now_month),
        0 <= k <= 12,
    ensures
        prefix_sum(g.features@, k) == column_feature_sum(fs, now_year, now_month, k),
    decreases k,
{
    if k > 0 {
        lemma_growth_feature_sum(g, fs, cov, now_year, now_month, k - 1);
        assert(growth_column(g, fs, cov, column_month(now_year, now_month, k - 1), k - 1));
    }
}

/// The growth chart's months are distinct, so it counts each feature at
/// most once: its feature counts add up to at most the number of features.
pub proof fn law_growth_features_add_up(
    g: GrowthData,
    fs: Seq<FeatureDocument>,
    cov: Coverage,
    now_year: i32,
    now_month: u32,
)
    requires
        growth_matches(g, fs, cov, now_year, now_month),
        1 <= now_month <= 12,
        i32::MIN < now_year,
    ensures
        prefix_sum(g.features@, 12) <= fs.len(),
{
    lemma_growth_feature_sum(g, fs, cov, now_year, now_month, 12);
    lemma_column_feature_sum_bound(fs, now_year, now_month);
}

/// Each of the declaration forms of the supported test frameworks makes a
/// line a test declaration, ignoring ASCII case: `test(` and `it(` (Jest,
/// Mocha, Vitest), `#[test]` and `fn test` (Rust), `@Test` and `fun test`
/// and ``fun ` `` (JUnit, Kotlin), `func test` (XCTest); a line with none of
/// them is not one.
pub proof fn law_test_declaration_forms(line: Seq<char>)
    ensures
        contains(lower(line), "test("@) ==> crate::coverage::test_declaration(line),
        contains(lower(line), "it("@) ==> crate::coverage::test_declaration(line),
        contains(lower(line), "#[test]"@) ==> crate::coverage::test_declaration(line),
        contains(lower(line), "@test"@) ==> crate::coverage::test_declaration(line),
        contains(lower(line), "func test"@) ==> crate::coverage::test_declaration(line),
        contains(lower(line), "fun test"@) ==> crate::coverage::test_declaration(line),
        contains(lower(line), "fn test"@) ==> crate::coverage::test_declaration(line),
        contains(lower(line), "fun `"@) ==> crate::coverage::test_declaration(line),
        crate::coverage::test_declaration(line) ==> contains(lower(line), "test("@) || contains(
            lower(line),
            "it("@,
        ) || contains(lower(line), "#[test]"@) || contains(lower(line), "@test"@) || contains(
            lower(line),
            "func test"@,
        ) || contains(lower(line), "fun test"@) || contains(lower(line), "fn test"@) || contains(
            lower(line),
            "fun `"@,
        ),
{
}

proof fn lemma_found_grows(m: ArtifactIdMatcher, lines: Seq<Seq<char>>, k1: int, k2: int)
    requires
        0 <= k1 <= k2 <= lines.len(),
    ensures
        scan_lines(m, lines, k1).found.is_prefix_of(scan_lines(m, lines, k2).found),
    decreases k2 - k1,
{
    if k1 < k2 {
        lemma_found_grows(m, lines, k1, k2 - 1);
        let a = scan_lines(m, lines, k1).found;
        let b = scan_lines(m, lines, k2 - 1).found;
        let c = scan_lines(m, lines, k2).found;
        assert(b.is_prefix_of(c));
        assert(a.is_prefix_of(c)) by {
            assert forall|i: int| 0 <= i < a.len() implies a[i] == c[i] by {
                assert(a[i] == b.subrange(0, a.len() as int)[i]);
                assert(b[i] == c.subrange(0, b.len() as int)[i]);
            }
            assert(a =~= c.subrange(0, a.len() as int));
        }
    } else {
        assert(scan_lines(m, lines, k1).found =~= scan_lines(m, lines, k2).found.subrange(
            0,
            scan_lines(m, lines, k1).found.len() as int,
        ));
    }
}

/// A test declaration credits to its own line every artifact id that it
/// mentions: the scan of the file reports each such id at that line (so an
/// `it('covers ucc-1', ...)` line covers `ucc-1`).
pub proof fn law_test_line_credits_its_ids(
    m: ArtifactIdMatcher,
    lines: Seq<Seq<char>>,
    n: int,
    id: Seq<char>,
)
    requires
        1 <= n <= lines.len(),
        trim(lines[n - 1]).len() > 0,
        crate::coverage::test_declaration(lines[n - 1]),
        ids_in_line(m, lines[n - 1]).contains(id),
    ensures
        file_references(m, lines).contains((id, n)),
{
    let ids = ids_in_line(m, lines[n - 1]);
    let st = scan_lines(m, lines, n - 1);
    let after = scan_lines(m, lines, n).found;
    let here = at_line(ids, n);
    let j = choose|j: int| 0 <= j < ids.len() && ids[j] == id;
    assert(here[j] == (id, n));
    assert(after[st.found.len() + j] == (id, n));
    lemma_found_grows(m, lines, n, lines.len() as int);
    let all = file_references(m, lines);
    assert(all[st.found.len() + j] == after.subrange(0, after.len() as int)[st.found.len() + j]);
    assert(all[st.found.len() + j] == (id, n));
}

proof fn lemma_count_of_one(s: Seq<Seq<char>>, x: Seq<char>, i: int)
    requires
        0 <= i < s.len(),
        s[i] == x,
    ensures
        crate::lint::count_of(s, x) >= 1,
    decreases s.len(),
{
    if i < s.len() - 1 {
        lemma_count_of_one(s.drop_last(), x, i);
    }
}

proof fn lemma_count_of_two(s: Seq<Seq<char>>, x: Seq<char>, i: int, j: int)
    requires
        0 <= i < j < s.len(),
        s[i] == x,
        s[j] == x,
    ensures
        crate::lint::count_of(s, x) >= 2,
    decreases s.len(),
{
    if j < s.len() - 1 {
        lemma_count_of_two(s.drop_last(), x, i, j);
    } else {
        lemma_count_of_one(s.drop_last(), x, i);
    }
}

proof fn lemma_artifact_id_count_covers_document(ps: Seq<ParsedFile>, k: int, id: Seq<char>)
    requires
        0 <= k < ps.len(),
        ps[k].1 is Ok,
    ensures
        artifact_id_count(ps, id) >= crate::lint::count_of(
            crate::domain::artifact_ids(ps[k].1->Ok_0),
            id,
        ),
    decreases ps.len(),
{
    if k < ps.len() - 1 {
        lemma_artifact_id_count_covers_document(ps.drop_last(), k, id);
    }
}

/// An artifact id that occurs twice in one `.ucc` file is a duplicate: the
/// count of that id over all parsed files is at least two, and the file is
/// reported invalid.
pub proof fn law_id_repeated_within_a_file_is_invalid(
    ps: Seq<ParsedFile>,
    k: int,
    res: UccLintResult,
    i: int,
    j: int,
)
    requires
        0 <= k < ps.len(),
        ps[k].1 is Ok,
        lint_result_for(ps, k, res),
        0 <= i < j < (ps[k].1->Ok_0).artifacts@.len(),
        (ps[k].1->Ok_0).artifacts@[i].id@ == (ps[k].1->Ok_0).artifacts@[j].id@,
    ensures
        artifact_id_count(ps, (ps[k].1->Ok_0).artifacts@[i].id@) >= 2,
        !res.is_valid,
{
    let doc = ps[k].1->Ok_0;
    let id = doc.artifacts@[i].id@;
    let ids = crate::domain::artifact_ids(doc);
    assert(ids[i] == id && ids[j] == id);
    lemma_count_of_two(ids, id, i, j);
    lemma_artifact_id_count_covers_document(ps, k, id);
    law_parsed_file_valid_iff_no_problem(ps, k, res);
    assert(artifact_id_count(ps, doc.artifacts@[i].id@) > 1);
}

/// With a month given, an artifact counts in it exactly when it was created
/// in that month, whatever its other dates; without one, every artifact
/// counts. So when two lists of artifacts differ only in when they were
/// updated, every count of the report and of its growth chart agrees.
pub proof fn law_artifacts_count_by_creation_month(
    a: Artifact,
    cov: Coverage,
    ym: (i32, u32),
)
    ensures
        crate::report::counts_as(a, cov, Some(ym), None, false) <==> crate::report::year_month_of(
            a.created_at@,
        ) == Some(ym),
        crate::report::counts_as(a, cov, None, None, false),
{
}

/// Counting artifacts by month, kind and coverage ignores when they were
/// updated: lists that agree on every artifact's id, type and creation date
/// give the same counts.
pub proof fn law_counts_ignore_updates(
    xs: Seq<Artifact>,
    ys: Seq<Artifact>,
    cov: Coverage,
    month: Option<(i32, u32)>,
    bug: Option<bool>,
    covered: bool,
)
    requires
        xs.len() == ys.len(),
        forall|i: int|
            0 <= i < xs.len() ==> (#[trigger] xs[i]).id == ys[i].id && xs[i].artifact_type
                == ys[i].artifact_type && xs[i].created_at == ys[i].created_at,
    ensures
        count_where(xs, cov, month, bug, covered) == count_where(ys, cov, month, bug, covered),
    decreases xs.len(),
{
    if xs.len() > 0 {
        assert(xs.last() == xs[xs.len() - 1]);
        law_counts_ignore_updates(xs.drop_last(), ys.drop_last(), cov, month, bug, covered);
    }
}

/// `-s` and `--single`, read as options, turn recursive discovery off for
/// good: whatever follows, the command line asks for the top-level
/// directory only.
pub proof fn law_single_flag_turns_off_recursion(args: Seq<Seq<char>>, i: int, s: ArgsScan)
    requires
        0 <= i < args.len(),
        args[i] == "-s"@ || args[i] == "--single"@,
    ensures
        !read_args(args, i, s).recursive,
{
    reveal_strlit("-s");
    reveal_strlit("--single");
    reveal_strlit("-i");
    reveal_strlit("--input");
    reveal_strlit("-o");
    reveal_strlit("--output");
    reveal_strlit("-h");
    reveal_strlit("--help");
    reveal_strlit("--as");
    reveal_strlit("--additional-sources");
    reveal_strlit("-");
    let a = args[i];
    assert(a[0] == '-');
    assert(crate::text::starts_with(a, "-"@)) by {
        assert(a.subrange(0, 1) =~= "-"@);
    }
    if a == "-s"@ {
        assert(a[1] == 's');
        assert(a != "-i"@ && a != "-o"@ && a != "-h"@);
        assert(a.len() == 2);
    } else {
        assert(a[2] == 's' && a.len() == 8);
        assert("--output"@[2] == 'o');
    }
    let (j, t) = crate::cli::read_arg(args, i, s);
    assert(!t.recursive);
    law_single_stays(args, j, t);
}

} // verus!
