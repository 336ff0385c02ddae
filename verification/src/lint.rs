//! Linting `.ucc` files: reporting what failed to parse, with a location and a
//! hint where possible, and what repeats an id or a file name of another file.
use vstd::prelude::*;

use crate::domain::{artifact_ids, Artifact, FeatureDocument, UccLintIssue, UccLintResult};
use crate::paths::{
    chars_less, chars_lt, file_name, lemma_chars_lt_total,
    lemma_chars_lt_transitive, path_file_name,
};
use crate::ports::CoreError;
use crate::text::{
    chars_of, contains, contains_str, is_whitespace, is_ws, lower, lower_chars, parse_unsigned_chars,
    parse_usize, push_chars, push_str, string_from_chars,
};

verus! {

/// A character that separates the words of a parser message.
pub open spec fn is_token_sep(c: char) -> bool {
    is_ws(c) || c == ',' || c == ':'
}

/// The words of `s`, split at each separator; two separators in a row give
/// an empty word, as `str::split` does.
pub open spec fn tokens(s: Seq<char>) -> Seq<Seq<char>>
    decreases s.len(),
{
    if s.len() == 0 {
        seq![Seq::<char>::empty()]
    } else {
        let p = tokens(s.drop_last());
        if is_token_sep(s.last()) {
            p.push(Seq::<char>::empty())
        } else {
            p.update(p.len() - 1, p.last().push(s.last()))
        }
    }
}

/// Among the first `k` words, the number after the last occurrence of `kw`
/// (`None` when that word is last or not a number).
pub open spec fn keyword_value(ts: Seq<Seq<char>>, kw: Seq<char>, k: int) -> Option<usize>
    decreases k,
{
    if k <= 0 {
        None
    } else if ts[k - 1] == kw {
        if k < ts.len() {
            parse_usize(ts[k])
        } else {
            None
        }
    } else {
        keyword_value(ts, kw, k - 1)
    }
}

/// The line and column that a parser message names.
pub open spec fn line_and_column(reason: Seq<char>) -> (Option<usize>, Option<usize>) {
    let ts = tokens(reason);
    (keyword_value(ts, "line"@, ts.len() as int), keyword_value(ts, "column"@, ts.len() as int))
}

proof fn lemma_tokens_len(s: Seq<char>)
    ensures
        tokens(s).len() >= 1,
    decreases s.len(),
{
    if s.len() > 0 {
        lemma_tokens_len(s.drop_last());
    }
}

fn split_tokens(s: &[char]) -> (r: Vec<Vec<char>>)
    ensures
        r@.len() == tokens(s@).len(),
        forall|i: int| 0 <= i < r@.len() ==> #[trigger] r@[i]@ == tokens(s@)[i],
{
    let mut out: Vec<Vec<char>> = Vec::new();
    let mut cur: Vec<char> = Vec::new();
    let mut i: usize = 0;
    assert(s@.take(0) =~= Seq::<char>::empty());
    while i < s.len()
        invariant
            i <= s@.len(),
            out@.len() + 1 == tokens(s@.take(i as int)).len(),
            forall|j: int| 0 <= j < out@.len() ==> #[trigger] out@[j]@ == tokens(s@.take(i as int))[j],
            cur@ == tokens(s@.take(i as int)).last(),
        decreases s@.len() - i,
    {
        let c = s[i];
        assert(s@.take(i + 1).drop_last() =~= s@.take(i as int));
        let ghost ts = tokens(s@.take(i as int));
        if is_whitespace(c) || c == ',' || c == ':' {
            let piece = cur;
            cur = Vec::new();
            out.push(piece);
            assert(tokens(s@.take(i + 1)) == ts.push(Seq::<char>::empty()));
        } else {
            cur.push(c);
            assert(tokens(s@.take(i + 1)) == ts.update(ts.len() - 1, ts.last().push(c)));
        }
        i = i + 1;
    }
    assert(s@.take(s@.len() as int) =~= s@);
    out.push(cur);
    out
}

fn parse_usize_chars(s: &[char]) -> (r: Option<usize>)
    ensures
        r == parse_usize(s@),
{
    match parse_unsigned_chars(s, usize::MAX as u64) {
        Some(v) => Some(v as usize),
        None => None,
    }
}

fn keyword_value_exec(ts: &Vec<Vec<char>>, kw: &str, Ghost(tv): Ghost<Seq<Seq<char>>>) -> (r: Option<usize>)
    requires
        tv.len() == ts@.len(),
        forall|i: int| 0 <= i < ts@.len() ==> #[trigger] ts@[i]@ == tv[i],
    ensures
        r == keyword_value(tv, kw@, tv.len() as int),
{
    let kc = chars_of(kw);
    let mut value: Option<usize> = None;
    let mut k: usize = 0;
    while k < ts.len()
        invariant
            k <= ts@.len(),
            tv.len() == ts@.len(),
            kc@ == kw@,
            forall|i: int| 0 <= i < ts@.len() ==> #[trigger] ts@[i]@ == tv[i],
            value == keyword_value(tv, kw@, k as int),
        decreases ts@.len() - k,
    {
        let w = &ts[k];
        if crate::domain::chars_equal_slices(w.as_slice(), kc.as_slice()) {
            assert(tv[k as int] == kw@);
            value = if k + 1 < ts.len() {
                parse_usize_chars(ts[k + 1].as_slice())
            } else {
                None
            };
        }
        k = k + 1;
    }
    value
}

/// `extract_line_and_column`: the numbers after the last `line` and `column`
/// words of a parser message.
pub fn extract_line_and_column(reason: &str) -> (r: (Option<usize>, Option<usize>))
    ensures
        r == line_and_column(reason@),
{
    let cs = chars_of(reason);
    let ts = split_tokens(cs.as_slice());
    let ghost tv = tokens(reason@);
    let line = keyword_value_exec(&ts, "line", Ghost(tv));
    let column = keyword_value_exec(&ts, "column", Ghost(tv));
    (line, column)
}

/// The hint for a parser message, chosen by the words it holds in any case.
pub open spec fn suggestion_for(reason: Seq<char>) -> Option<Seq<char>> {
    let l = lower(reason);
    if contains(l, "cannot start any token"@) {
        Some(
            "Check YAML syntax near the reported location: fix invalid characters, indentation, or unclosed quotes/brackets."@,
        )
    } else if contains(l, "did not find expected key"@) {
        Some(
            "Ensure mapping keys end with ':' and indentation is consistent (2 spaces recommended)."@,
        )
    } else if contains(l, "invalid type"@) {
        Some(
            "Verify field types and structure match the .ucc schema (for example, list vs string)."@,
        )
    } else {
        None
    }
}

/// `infer_suggestion`.
pub fn infer_suggestion(reason: &str) -> (r: Option<String>)
    ensures
        r matches Some(s) ==> suggestion_for(reason@) == Some(s@),
        r is None ==> suggestion_for(reason@) is None,
{
    let cs = chars_of(reason);
    let l = lower_chars(cs.as_slice());
    if contains_str(l.as_slice(), "cannot start any token") {
        Some(
            crate::text::owned(
                "Check YAML syntax near the reported location: fix invalid characters, indentation, or unclosed quotes/brackets.",
            ),
        )
    } else if contains_str(l.as_slice(), "did not find expected key") {
        Some(
            crate::text::owned(
                "Ensure mapping keys end with ':' and indentation is consistent (2 spaces recommended).",
            ),
        )
    } else if contains_str(l.as_slice(), "invalid type") {
        Some(
            crate::text::owned(
                "Verify field types and structure match the .ucc schema (for example, list vs string).",
            ),
        )
    } else {
        None
    }
}

/// A file and what parsing it gave.
pub type ParsedFile = (String, Result<FeatureDocument, CoreError>);

/// The number of parsed documents whose feature has id `id`.
pub open spec fn feature_id_count(ps: Seq<ParsedFile>, id: Seq<char>) -> nat
    decreases ps.len(),
{
    if ps.len() == 0 {
        0
    } else {
        feature_id_count(ps.drop_last(), id) + match ps.last().1 {
            Ok(d) => if d.feature.id@ == id {
                1nat
            } else {
                0nat
            },
            Err(_) => 0nat,
        }
    }
}

/// The number of times `x` occurs in `s`.
pub open spec fn count_of(s: Seq<Seq<char>>, x: Seq<char>) -> nat
    decreases s.len(),
{
    if s.len() == 0 {
        0
    } else {
        count_of(s.drop_last(), x) + if s.last() == x {
            1nat
        } else {
            0nat
        }
    }
}

/// The number of artifacts with id `id` over all parsed documents.
pub open spec fn artifact_id_count(ps: Seq<ParsedFile>, id: Seq<char>) -> nat
    decreases ps.len(),
{
    if ps.len() == 0 {
        0
    } else {
        artifact_id_count(ps.drop_last(), id) + match ps.last().1 {
            Ok(d) => count_of(artifact_ids(d), id),
            Err(_) => 0nat,
        }
    }
}

/// The number of files, parsed or not, whose file name is `name`.
pub open spec fn file_name_count(ps: Seq<ParsedFile>, name: Seq<char>) -> nat
    decreases ps.len(),
{
    if ps.len() == 0 {
        0
    } else {
        file_name_count(ps.drop_last(), name) + if file_name(ps.last().0@) == Some(name) {
            1nat
        } else {
            0nat
        }
    }
}

pub open spec fn feature_comma_message(id: Seq<char>) -> Seq<char> {
    "Feature ID '"@ + id + "' contains a comma. Commas are restricted in IDs."@
}

pub open spec fn artifact_comma_message(id: Seq<char>) -> Seq<char> {
    "Artifact ID '"@ + id + "' contains a comma. Commas are restricted in IDs."@
}

/// One line per artifact whose id holds a comma, in order.
pub open spec fn artifact_comma_lines(arts: Seq<Artifact>) -> Seq<Seq<char>>
    decreases arts.len(),
{
    if arts.len() == 0 {
        seq![]
    } else {
        artifact_comma_lines(arts.drop_last()) + if contains(arts.last().id@, ","@) {
            seq![artifact_comma_message(arts.last().id@)]
        } else {
            seq![]
        }
    }
}

/// The ids of the artifacts of `doc` that occur more than once over all
/// parsed documents, in order, with repeats.
pub open spec fn repeated_artifact_ids(arts: Seq<Artifact>, ps: Seq<ParsedFile>) -> Seq<Seq<char>>
    decreases arts.len(),
{
    if arts.len() == 0 {
        seq![]
    } else {
        repeated_artifact_ids(arts.drop_last(), ps) + if artifact_id_count(ps, arts.last().id@)
            > 1 {
            seq![arts.last().id@]
        } else {
            seq![]
        }
    }
}

/// The parts joined, with `sep` between each two.
pub open spec fn join(parts: Seq<Seq<char>>, sep: Seq<char>) -> Seq<char>
    decreases parts.len(),
{
    if parts.len() == 0 {
        seq![]
    } else if parts.len() == 1 {
        parts[0]
    } else {
        join(parts.drop_last(), sep) + sep + parts.last()
    }
}

/// `s` is strictly increasing and holds exactly the elements of `input`.
pub open spec fn sorted_set_of(s: Seq<Seq<char>>, input: Seq<Seq<char>>) -> bool {
    &&& forall|i: int, j: int| 0 <= i < j < s.len() ==> chars_lt(#[trigger] s[i], #[trigger] s[j])
    &&& forall|x: Seq<char>| #[trigger] s.contains(x) <==> input.contains(x)
}

/// The lines of the duplicate report of the file at `path`, given `sd`, the
/// repeated artifact ids of the file sorted without repeats.
pub open spec fn duplicate_lines(path: Seq<char>, doc: FeatureDocument, ps: Seq<ParsedFile>, sd: Seq<
    Seq<char>,
>) -> Seq<Seq<char>> {
    let fid = doc.feature.id@;
    (if contains(fid, ","@) {
        seq![feature_comma_message(fid)]
    } else {
        seq![]
    }) + artifact_comma_lines(doc.artifacts@) + (if sd.len() > 0 {
        seq![
            "Duplicate artifact ID(s) found: "@ + join(sd, ", "@)
                + ". All artifact IDs must be unique across the project."@,
        ]
    } else {
        seq![]
    }) + (if feature_id_count(ps, fid) > 1 {
        seq![
            "Duplicate feature ID found: "@ + fid
                + ". All feature IDs must be unique across the project."@,
        ]
    } else {
        seq![]
    }) + match file_name(path) {
        Some(n) => if file_name_count(ps, n) > 1 {
            seq![
                "Duplicate .ucc file name found: "@ + n
                    + ". All .ucc file names must be unique across the project."@,
            ]
        } else {
            seq![]
        },
        None => seq![],
    }
}

pub open spec fn duplicate_suggestion() -> Seq<char> {
    "Check other .ucc files for the same IDs or names and ensure they are unique."@
}

/// `issue` reports `lines`: nothing when there is none, otherwise all of them,
/// one per line, with the hint to check the other files.
pub open spec fn issue_reports(issue: Option<UccLintIssue>, lines: Seq<Seq<char>>) -> bool {
    if lines.len() == 0 {
        issue is None
    } else {
        &&& issue matches Some(i)
        &&& i.message@ == join(lines, "\n"@)
        &&& i.line is None
        &&& i.column is None
        &&& i.suggestion matches Some(s)
        &&& s@ == duplicate_suggestion()
    }
}

/// The issue of a parsed file is the duplicate report built with the sorted
/// set of its repeated artifact ids.
pub open spec fn duplicate_issue(
    path: Seq<char>,
    doc: FeatureDocument,
    ps: Seq<ParsedFile>,
    issue: Option<UccLintIssue>,
) -> bool {
    exists|sd: Seq<Seq<char>>|
        #[trigger] sorted_set_of(sd, repeated_artifact_ids(doc.artifacts@, ps)) && issue_reports(
            issue,
            duplicate_lines(path, doc, ps, sd),
        )
}

fn count_feature_ids(ps: &Vec<ParsedFile>, id: &String) -> (r: usize)
    ensures
        r == feature_id_count(ps@, id@),
{
    let mut n: usize = 0;
    let mut k: usize = 0;
    while k < ps.len()
        invariant
            k <= ps@.len(),
            n == feature_id_count(ps@.take(k as int), id@),
            n <= k,
        decreases ps@.len() - k,
    {
        assert(ps@.take(k + 1).drop_last() =~= ps@.take(k as int));
        match &ps[k].1 {
            Ok(d) => {
                if d.feature.id == *id {
                    n = n + 1;
                }
            },
            Err(_) => {},
        }
        k = k + 1;
    }
    assert(ps@.take(ps@.len() as int) =~= ps@);
    n
}

fn count_artifact_ids(ps: &Vec<ParsedFile>, id: &String) -> (r: u64)
    ensures
        r as nat == artifact_id_count(ps@, id@) || (r == u64::MAX && artifact_id_count(ps@, id@)
            >= u64::MAX),
{
    let mut n: u64 = 0;
    let mut k: usize = 0;
    while k < ps.len()
        invariant
            k <= ps@.len(),
            n as nat == artifact_id_count(ps@.take(k as int), id@) || (n == u64::MAX
                && artifact_id_count(ps@.take(k as int), id@) >= u64::MAX),
        decreases ps@.len() - k,
    {
        assert(ps@.take(k + 1).drop_last() =~= ps@.take(k as int));
        match &ps[k].1 {
            Ok(d) => {
                let mut a: usize = 0;
                let ghost base = artifact_id_count(ps@.take(k as int), id@);
                assert(artifact_ids(*d).take(0) =~= Seq::<Seq<char>>::empty());
                while a < d.artifacts.len()
                    invariant
                        a <= d.artifacts@.len(),
                        n as nat == base + count_of(artifact_ids(*d).take(a as int), id@) || (n
                            == u64::MAX && base + count_of(artifact_ids(*d).take(a as int), id@)
                            >= u64::MAX),
                    decreases d.artifacts@.len() - a,
                {
                    assert(artifact_ids(*d).take(a + 1).drop_last() =~= artifact_ids(*d).take(
                        a as int,
                    ));
                    if d.artifacts[a].id == *id {
                        if n < u64::MAX {
                            n = n + 1;
                        }
                    }
                    a = a + 1;
                }
                assert(artifact_ids(*d).take(d.artifacts@.len() as int) =~= artifact_ids(*d));
            },
            Err(_) => {},
        }
        k = k + 1;
    }
    assert(ps@.take(ps@.len() as int) =~= ps@);
    n
}

fn count_file_names(ps: &Vec<ParsedFile>, name: &Vec<char>) -> (r: usize)
    ensures
        r == file_name_count(ps@, name@),
{
    let mut n: usize = 0;
    let mut k: usize = 0;
    while k < ps.len()
        invariant
            k <= ps@.len(),
            n == file_name_count(ps@.take(k as int), name@),
            n <= k,
        decreases ps@.len() - k,
    {
        assert(ps@.take(k + 1).drop_last() =~= ps@.take(k as int));
        match path_file_name(ps[k].0.as_str()) {
            Some(other) => {
                if crate::domain::chars_equal_slices(other.as_slice(), name.as_slice()) {
                    n = n + 1;
                }
            },
            None => {},
        }
        k = k + 1;
    }
    assert(ps@.take(ps@.len() as int) =~= ps@);
    n
}

/// Adds `x` to a strictly increasing list unless it is there already.
fn insert_sorted_distinct(out: &mut Vec<Vec<char>>, x: Vec<char>, Ghost(input): Ghost<Seq<Seq<char>>>)
    requires
        sorted_set_of(old(out)@.map_values(|v: Vec<char>| v@), input),
    ensures
        sorted_set_of(final(out)@.map_values(|v: Vec<char>| v@), input.push(x@)),
{
    let ghost before = out@.map_values(|v: Vec<char>| v@);
    let ghost xv = x@;
    proof {
        assert forall|a: Seq<char>, b: Seq<char>, c: Seq<char>|
            #[trigger] chars_lt(a, b) && #[trigger] chars_lt(b, c) implies chars_lt(a, c) by {
            lemma_chars_lt_transitive(a, b, c);
        }
    }
    let mut p: usize = 0;
    while p < out.len() && chars_less(out[p].as_slice(), x.as_slice())
        invariant
            p <= out@.len(),
            before == out@.map_values(|v: Vec<char>| v@),
            forall|q: int| 0 <= q < p ==> chars_lt(#[trigger] before[q], xv),
            xv == x@,
        decreases out@.len() - p,
    {
        assert(before[p as int] == out@[p as int]@);
        p = p + 1;
    }
    if p < out.len() && crate::domain::chars_equal_slices(out[p].as_slice(), x.as_slice()) {
        assert(before[p as int] == xv);
        assert forall|y: Seq<char>| #[trigger] before.contains(y) <==> input.push(xv).contains(y) by {
            if input.push(xv).contains(y) {
                let j = choose|j: int| 0 <= j < input.push(xv).len() && input.push(xv)[j] == y;
                if j < input.len() {
                    assert(input[j] == y);
                    assert(input.contains(y));
                }
            }
            if input.contains(y) {
                let j = choose|j: int| 0 <= j < input.len() && input[j] == y;
                assert(input.push(xv)[j] == y);
            }
        }
        return ;
    }
    proof {
        if p < out@.len() {
            assert(!chars_lt(before[p as int], xv));
            assert(before[p as int] != xv);
            lemma_chars_lt_total(before[p as int], xv);
            assert(chars_lt(xv, before[p as int]));
        }
    }
    out.insert(p, x);
    let ghost after = out@.map_values(|v: Vec<char>| v@);
    assert(after =~= before.insert(p as int, xv));
    assert forall|i: int, j: int| 0 <= i < j < after.len() implies chars_lt(
        #[trigger] after[i],
        #[trigger] after[j],
    ) by {
        if j < p {
        } else if j == p {
        } else if i < p {
            assert(after[j] == before[j - 1]);
            if j - 1 > p {
                assert(chars_lt(before[p as int], before[j - 1]));
            }
            assert(chars_lt(xv, before[p as int]));
        } else if i == p {
            assert(after[j] == before[j - 1]);
            if j - 1 > p {
                assert(chars_lt(before[p as int], before[j - 1]));
            }
        } else {
            assert(after[i] == before[i - 1]);
            assert(after[j] == before[j - 1]);
        }
    }
    assert forall|y: Seq<char>| #[trigger] after.contains(y) <==> input.push(xv).contains(y) by {
        if after.contains(y) {
            let j = choose|j: int| 0 <= j < after.len() && after[j] == y;
            if j == p {
                assert(input.push(xv)[input.len() as int] == y);
            } else {
                let k = if j < p {
                    j
                } else {
                    j - 1
                };
                assert(before[k] == y);
                assert(before.contains(y));
                assert(input.contains(y));
                let m = choose|m: int| 0 <= m < input.len() && input[m] == y;
                assert(input.push(xv)[m] == y);
            }
        }
        if input.push(xv).contains(y) {
            let j = choose|j: int| 0 <= j < input.push(xv).len() && input.push(xv)[j] == y;
            if j == input.len() {
                assert(after[p as int] == y);
            } else {
                assert(input[j] == y);
                assert(input.contains(y));
                assert(before.contains(y));
                let k = choose|k: int| 0 <= k < before.len() && before[k] == y;
                if k < p {
                    assert(after[k] == y);
                } else {
                    assert(after[k + 1] == y);
                }
            }
        }
    }
}

/// Appends the parts joined with `sep`.
fn push_joined(out: &mut Vec<char>, parts: &Vec<Vec<char>>, sep: &str)
    ensures
        final(out)@ == old(out)@ + join(parts@.map_values(|v: Vec<char>| v@), sep@),
{
    let ghost pv = parts@.map_values(|v: Vec<char>| v@);
    let ghost o0 = out@;
    let mut k: usize = 0;
    assert(pv.take(0) =~= Seq::<Seq<char>>::empty());
    assert(out@ =~= o0 + join(pv.take(0), sep@));
    while k < parts.len()
        invariant
            k <= parts@.len(),
            pv == parts@.map_values(|v: Vec<char>| v@),
            out@ == o0 + join(pv.take(k as int), sep@),
        decreases parts@.len() - k,
    {
        assert(pv.take(k + 1).drop_last() =~= pv.take(k as int));
        assert(pv.take(k + 1).last() == parts@[k as int]@);
        if k > 0 {
            push_str(out, sep);
        }
        push_chars(out, parts[k].as_slice());
        proof {
            if k == 0 {
                assert(pv.take(1) =~= seq![parts@[0]@]);
            }
        }
        assert(out@ =~= o0 + join(pv.take(k + 1), sep@));
        k = k + 1;
    }
    assert(pv.take(parts@.len() as int) =~= pv);
}

/// `check_for_duplicates`: what the file at `path`, parsed as `doc`, repeats
/// of the other parsed files (`ps`, which holds it), and which of its ids
/// hold a comma.
pub fn check_for_duplicates(path: &String, doc: &FeatureDocument, ps: &Vec<ParsedFile>) -> (r:
    Option<UccLintIssue>)
    ensures
        duplicate_issue(path@, *doc, ps@, r),
{
    let mut lines: Vec<Vec<char>> = Vec::new();
    let fid = chars_of(doc.feature.id.as_str());
    // Commas in ids.
    if contains_str(fid.as_slice(), ",") {
        let mut m: Vec<char> = Vec::new();
        push_str(&mut m, "Feature ID '");
        push_chars(&mut m, fid.as_slice());
        push_str(&mut m, "' contains a comma. Commas are restricted in IDs.");
        assert(m@ =~= feature_comma_message(fid@));
        lines.push(m);
    }
    let ghost first_part = lines@.map_values(|v: Vec<char>| v@);
    assert(first_part =~= (if contains(fid@, ","@) {
        seq![feature_comma_message(fid@)]
    } else {
        seq![]
    }));
    let mut a: usize = 0;
    assert(doc.artifacts@.take(0) =~= Seq::<Artifact>::empty());
    assert(lines@.map_values(|v: Vec<char>| v@) =~= first_part + artifact_comma_lines(
        doc.artifacts@.take(0),
    ));
    while a < doc.artifacts.len()
        invariant
            a <= doc.artifacts@.len(),
            lines@.map_values(|v: Vec<char>| v@) == first_part + artifact_comma_lines(
                doc.artifacts@.take(a as int),
            ),
        decreases doc.artifacts@.len() - a,
    {
        let ghost before = lines@.map_values(|v: Vec<char>| v@);
        assert(doc.artifacts@.take(a + 1).drop_last() =~= doc.artifacts@.take(a as int));
        let id = chars_of(doc.artifacts[a].id.as_str());
        if contains_str(id.as_slice(), ",") {
            let mut m: Vec<char> = Vec::new();
            push_str(&mut m, "Artifact ID '");
            push_chars(&mut m, id.as_slice());
            push_str(&mut m, "' contains a comma. Commas are restricted in IDs.");
            assert(m@ =~= artifact_comma_message(id@));
            lines.push(m);
            assert(lines@.map_values(|v: Vec<char>| v@) =~= before.push(
                artifact_comma_message(id@),
            ));
        }
        a = a + 1;
    }
    assert(doc.artifacts@.take(doc.artifacts@.len() as int) =~= doc.artifacts@);
    // Artifact ids that occur more than once, sorted, each once.
    let mut dups: Vec<Vec<char>> = Vec::new();
    let ghost mut seen: Seq<Seq<char>> = seq![];
    let mut b: usize = 0;
    assert(sorted_set_of(dups@.map_values(|v: Vec<char>| v@), seen));
    while b < doc.artifacts.len()
        invariant
            b <= doc.artifacts@.len(),
            seen == repeated_artifact_ids(doc.artifacts@.take(b as int), ps@),
            sorted_set_of(dups@.map_values(|v: Vec<char>| v@), seen),
        decreases doc.artifacts@.len() - b,
    {
        assert(doc.artifacts@.take(b + 1).drop_last() =~= doc.artifacts@.take(b as int));
        assert(doc.artifacts@.take(b + 1).last() == doc.artifacts@[b as int]);
        let count = count_artifact_ids(ps, &doc.artifacts[b].id);
        if count > 1 {
            let id = chars_of(doc.artifacts[b].id.as_str());
            insert_sorted_distinct(&mut dups, id, Ghost(seen));
            proof {
                seen = seen.push(doc.artifacts@[b as int].id@);
            }
        }
        b = b + 1;
    }
    assert(doc.artifacts@.take(doc.artifacts@.len() as int) =~= doc.artifacts@);
    let ghost sd = dups@.map_values(|v: Vec<char>| v@);
    let ghost upto_commas = lines@.map_values(|v: Vec<char>| v@);
    if dups.len() > 0 {
        let mut m: Vec<char> = Vec::new();
        push_str(&mut m, "Duplicate artifact ID(s) found: ");
        push_joined(&mut m, &dups, ", ");
        push_str(&mut m, ". All artifact IDs must be unique across the project.");
        lines.push(m);
    }
    let ghost upto_artifacts = lines@.map_values(|v: Vec<char>| v@);
    assert(upto_artifacts =~= upto_commas + (if sd.len() > 0 {
        seq![
            "Duplicate artifact ID(s) found: "@ + join(sd, ", "@)
                + ". All artifact IDs must be unique across the project."@,
        ]
    } else {
        seq![]
    }));
    let fcount = count_feature_ids(ps, &doc.feature.id);
    if fcount > 1 {
        let mut m: Vec<char> = Vec::new();
        push_str(&mut m, "Duplicate feature ID found: ");
        push_chars(&mut m, fid.as_slice());
        push_str(&mut m, ". All feature IDs must be unique across the project.");
        lines.push(m);
    }
    let ghost upto_feature = lines@.map_values(|v: Vec<char>| v@);
    assert(upto_feature =~= upto_artifacts + (if feature_id_count(ps@, fid@) > 1 {
        seq![
            "Duplicate feature ID found: "@ + fid@
                + ". All feature IDs must be unique across the project."@,
        ]
    } else {
        seq![]
    }));
    match path_file_name(path.as_str()) {
        Some(name) => {
            let ncount = count_file_names(ps, &name);
            if ncount > 1 {
                let mut m: Vec<char> = Vec::new();
                push_str(&mut m, "Duplicate .ucc file name found: ");
                push_chars(&mut m, name.as_slice());
                push_str(&mut m, ". All .ucc file names must be unique across the project.");
                lines.push(m);
            }
        },
        None => {},
    }
    let ghost all = lines@.map_values(|v: Vec<char>| v@);
    assert(all =~= duplicate_lines(path@, *doc, ps@, sd));
    if lines.len() == 0 {
        assert(issue_reports(None, duplicate_lines(path@, *doc, ps@, sd)));
        return None;
    }
    let mut message: Vec<char> = Vec::new();
    push_joined(&mut message, &lines, "\n");
    assert(message@ =~= join(all, "\n"@));
    let issue = UccLintIssue {
        message: string_from_chars(message.as_slice()),
        line: None,
        column: None,
        suggestion: Some(
            crate::text::owned(
                "Check other .ucc files for the same IDs or names and ensure they are unique.",
            ),
        ),
    };
    assert(issue_reports(Some(issue), duplicate_lines(path@, *doc, ps@, sd)));
    Some(issue)
}

/// An error other than a parse failure.
pub open spec fn is_io(r: Result<FeatureDocument, CoreError>) -> bool {
    r matches Err(CoreError::Io { .. })
}

/// Entry `k` holds the first error other than a parse failure.
pub open spec fn first_io_at(ps: Seq<ParsedFile>, k: int) -> bool {
    &&& 0 <= k < ps.len()
    &&& is_io(ps[k].1)
    &&& forall|j: int| 0 <= j < k ==> !is_io(#[trigger] ps[j].1)
}

pub open spec fn no_io(ps: Seq<ParsedFile>) -> bool {
    forall|j: int| 0 <= j < ps.len() ==> !is_io(#[trigger] ps[j].1)
}

pub open spec fn option_view(o: Option<String>) -> Option<Seq<char>> {
    match o {
        Some(s) => Some(s@),
        None => None,
    }
}

/// The verdict of the lint on entry `k`: a parsed file is valid unless the
/// duplicate report has something to say; a file that failed to parse is
/// invalid, with the parser's message, the line and column it names, and a
/// hint when one applies.
pub open spec fn lint_result_for(ps: Seq<ParsedFile>, k: int, res: UccLintResult) -> bool {
    &&& res.file_path@ == ps[k].0@
    &&& match ps[k].1 {
        Ok(doc) => {
            &&& duplicate_issue(ps[k].0@, doc, ps, res.issue)
            &&& res.is_valid == res.issue is None
        },
        Err(CoreError::Parse { reason, .. }) => {
            &&& !res.is_valid
            &&& res.issue matches Some(i)
            &&& i.message@ == reason@
            &&& (i.line, i.column) == line_and_column(reason@)
            &&& option_view(i.suggestion) == suggestion_for(reason@)
        },
        Err(CoreError::Io { .. }) => false,
    }
}

/// The part of `LintUccFormatsUseCase::execute` that follows reading and
/// parsing: one verdict per file, in order, or the first error that is not
/// a parse failure.
pub fn lint_parsed_files(parsed: Vec<ParsedFile>) -> (r: Result<Vec<UccLintResult>, CoreError>)
    ensures
        r is Ok <==> no_io(parsed@),
        r matches Ok(v) ==> v@.len() == parsed@.len() && forall|k: int|
            0 <= k < v@.len() ==> lint_result_for(parsed@, k, #[trigger] v@[k]),
        r matches Err(e) ==> exists|k: int|
            #[trigger] first_io_at(parsed@, k) && parsed@[k].1 == Err::<FeatureDocument, CoreError>(e),
{
    let n = parsed.len();
    let mut k: usize = 0;
    while k < n
        invariant
            k <= n,
            n == parsed@.len(),
            forall|j: int| 0 <= j < k ==> !is_io(#[trigger] parsed@[j].1),
        decreases n - k,
    {
        let io = match &parsed[k].1 {
            Err(CoreError::Io { .. }) => true,
            _ => false,
        };
        if io {
            let ghost pv = parsed@;
            assert(first_io_at(pv, k as int));
            let mut owned = parsed;
            let entry = owned.remove(k);
            assert(entry == pv[k as int]);
            match entry.1 {
                Err(e) => {
                    return Err(e);
                },
                Ok(_) => {
                    assert(false);
                    return Ok(Vec::new());
                },
            }
        }
        k = k + 1;
    }
    let mut results: Vec<UccLintResult> = Vec::new();
    let mut k: usize = 0;
    while k < n
        invariant
            k <= n,
            n == parsed@.len(),
            no_io(parsed@),
            results@.len() == k,
            forall|j: int| 0 <= j < k ==> lint_result_for(parsed@, j, #[trigger] results@[j]),
        decreases n - k,
    {
        let path = &parsed[k].0;
        let res = match &parsed[k].1 {
            Ok(doc) => {
                let issue = check_for_duplicates(path, doc, &parsed);
                UccLintResult { file_path: path.clone(), is_valid: issue.is_none(), issue }
            },
            Err(CoreError::Parse { reason, .. }) => {
                let (line, column) = extract_line_and_column(reason.as_str());
                let suggestion = infer_suggestion(reason.as_str());
                UccLintResult {
                    file_path: path.clone(),
                    is_valid: false,
                    issue: Some(UccLintIssue { message: reason.clone(), line, column, suggestion }),
                }
            },
            Err(CoreError::Io { .. }) => {
                assert(!is_io(parsed@[k as int].1));
                UccLintResult { file_path: path.clone(), is_valid: false, issue: None }
            },
        };
        results.push(res);
        k = k + 1;
    }
    Ok(results)
}

} // verus!
