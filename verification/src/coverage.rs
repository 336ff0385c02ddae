//! Finding, line by line, the automated tests that reference artifacts.
use vstd::prelude::*;

use crate::domain::{sorted_locations, ArtifactCoverageIndex, ArtifactTestLocation};
use crate::matcher::{ids_in_line, strings_view, ArtifactIdMatcher};
use crate::text::{
    chars_of, contains, contains_str, lower, lower_chars, starts_with, starts_with_str, trim,
    trim_chars, trim_start, trim_start_chars,
};

verus! {

/// `is_comment_line`: after leading whitespace the line opens a comment.
pub open spec fn comment_line(line: Seq<char>) -> bool {
    let t = trim_start(line);
    ||| starts_with(t, "//"@)
    ||| starts_with(t, "#"@)
    ||| starts_with(t, "/*"@)
    ||| starts_with(t, "*"@)
}

/// `looks_like_test_declaration`: the line, ignoring ASCII case, holds a
/// test declaration of one of the supported languages.
pub open spec fn test_declaration(line: Seq<char>) -> bool {
    let l = lower(line);
    ||| contains(l, "test("@)
    ||| contains(l, "it("@)
    ||| contains(l, "#[test]"@)
    ||| contains(l, "@test"@)
    ||| contains(l, "func test"@)
    ||| contains(l, "fun test"@)
    ||| contains(l, "fn test"@)
    ||| contains(l, "fun `"@)
}

/// The line, ignoring ASCII case, holds a test attribute (`#[test]`, `@Test`).
pub open spec fn test_attribute(line: Seq<char>) -> bool {
    let l = lower(line);
    contains(l, "#[test]"@) || contains(l, "@test"@)
}

pub fn is_comment_line(line: &str) -> (r: bool)
    ensures
        r == comment_line(line@),
{
    let cs = chars_of(line);
    let t = trim_start_chars(cs.as_slice());
    let t = t.as_slice();
    starts_with_str(t, "//") || starts_with_str(t, "#") || starts_with_str(t, "/*")
        || starts_with_str(t, "*")
}

pub fn looks_like_test_declaration(line: &str) -> (r: bool)
    ensures
        r == test_declaration(line@),
{
    let cs = chars_of(line);
    let l = lower_chars(cs.as_slice());
    let l = l.as_slice();
    contains_str(l, "test(") || contains_str(l, "it(") || contains_str(l, "#[test]")
        || contains_str(l, "@test") || contains_str(l, "func test") || contains_str(l, "fun test")
        || contains_str(l, "fn test") || contains_str(l, "fun `")
}

pub fn is_test_attribute(line: &str) -> (r: bool)
    ensures
        r == test_attribute(line@),
{
    let cs = chars_of(line);
    let l = lower_chars(cs.as_slice());
    contains_str(l.as_slice(), "#[test]") || contains_str(l.as_slice(), "@test")
}

/// What the scan of a file remembers between lines: ids mentioned in recent
/// comments and not yet tied to a test, whether the previous line was a
/// test attribute, the references found so far (each an artifact id and a
/// 1-based line number), and how many braces of the body of the last test
/// are still open (none when no test body is open).
pub struct ScanState {
    pub pending: Seq<(Seq<char>, int)>,
    pub previous_was_test_attribute: bool,
    pub found: Seq<(Seq<char>, int)>,
    pub body_depth: nat,
}

pub open spec fn initial_scan() -> ScanState {
    ScanState {
        pending: seq![],
        previous_was_test_attribute: false,
        found: seq![],
        body_depth: 0,
    }
}

/// The number of times `c` occurs in `s`.
pub open spec fn char_count(s: Seq<char>, c: char) -> nat
    decreases s.len(),
{
    if s.len() == 0 {
        0
    } else {
        char_count(s.drop_last(), c) + if s.last() == c {
            1nat
        } else {
            0nat
        }
    }
}

/// The braces still open after `line`, when `depth` were open before it:
/// its `{` open more (up to the largest `usize`), its `}` close them.
pub open spec fn depth_after(depth: nat, line: Seq<char>) -> nat {
    let opened = if depth + char_count(line, '{') > usize::MAX {
        usize::MAX as nat
    } else {
        depth + char_count(line, '{')
    };
    if char_count(line, '}') >= opened {
        0
    } else {
        (opened - char_count(line, '}')) as nat
    }
}

/// Each id, tied to line `n`.
pub open spec fn at_line(ids: Seq<Seq<char>>, n: int) -> Seq<(Seq<char>, int)> {
    ids.map_values(|id: Seq<char>| (id, n))
}

/// The entries of `p` that are at most `w` lines above line `n` (when
/// `recent`), or more than `w` lines above it (otherwise), in order.
pub open spec fn by_age(p: Seq<(Seq<char>, int)>, n: int, w: int, recent: bool) -> Seq<
    (Seq<char>, int),
>
    decreases p.len(),
{
    if p.len() == 0 {
        p
    } else {
        let rest = by_age(p.drop_last(), n, w, recent);
        if (n - p.last().1 <= w) == recent {
            rest.push(p.last())
        } else {
            rest
        }
    }
}

/// One step of the scan: line `n` (1-based) reads `line`, which mentions `ids`.
/// A blank line forgets pending comments. A test declaration, or a line right
/// after a test attribute, references the ids it mentions itself and those of
/// comments at most three lines above it, and opens the test's body when its
/// braces leave some open. A comment inside an open test body references the
/// ids it mentions; any other comment line remembers them. Pending ids older
/// than two lines are forgotten, and all of them when the line is neither a
/// comment, nor a test, nor a test attribute. The body stays open while its
/// braces do.
pub open spec fn scan_line(st: ScanState, n: int, line: Seq<char>, ids: Seq<Seq<char>>) -> ScanState {
    if trim(line).len() == 0 {
        ScanState {
            pending: seq![],
            previous_was_test_attribute: false,
            found: st.found,
            body_depth: st.body_depth,
        }
    } else {
        let is_comment = comment_line(line);
        let in_test = test_declaration(line) || st.previous_was_test_attribute;
        let in_body = !in_test && st.body_depth > 0;
        let p1 = if is_comment && !in_body {
            st.pending + at_line(ids, n)
        } else {
            st.pending
        };
        let found = if in_test {
            st.found + at_line(ids, n) + by_age(p1, n, 3, true)
        } else if in_body && is_comment {
            st.found + at_line(ids, n)
        } else {
            st.found
        };
        let p2 = if in_test {
            by_age(p1, n, 3, false)
        } else {
            p1
        };
        let p3 = by_age(p2, n, 2, true);
        let attr = test_attribute(line);
        ScanState {
            pending: if !is_comment && !in_test && !attr {
                seq![]
            } else {
                p3
            },
            previous_was_test_attribute: attr,
            found,
            body_depth: if in_test {
                depth_after(0, line)
            } else if in_body {
                depth_after(st.body_depth, line)
            } else {
                0
            },
        }
    }
}

/// The number of times `c` occurs in `s`.
fn count_char(s: &[char], c: char) -> (r: usize)
    ensures
        r == char_count(s@, c),
{
    let mut r: usize = 0;
    let mut i: usize = 0;
    while i < s.len()
        invariant
            i <= s@.len(),
            r <= i,
            r == char_count(s@.take(i as int), c),
        decreases s@.len() - i,
    {
        assert(s@.take(i + 1).drop_last() =~= s@.take(i as int));
        if s[i] == c {
            r = r + 1;
        }
        i = i + 1;
    }
    assert(s@.take(s@.len() as int) =~= s@);
    r
}

/// `depth_after` on a line's characters.
fn depth_step(depth: usize, line: &[char]) -> (r: usize)
    ensures
        r == depth_after(depth as nat, line@),
{
    let opens = count_char(line, '{');
    let closes = count_char(line, '}');
    let opened = if opens > usize::MAX - depth {
        usize::MAX
    } else {
        depth + opens
    };
    if closes >= opened {
        0
    } else {
        opened - closes
    }
}

/// The scan after the first `k` lines.
pub open spec fn scan_lines(m: ArtifactIdMatcher, lines: Seq<Seq<char>>, k: int) -> ScanState
    decreases k,
{
    if k <= 0 {
        initial_scan()
    } else {
        scan_line(scan_lines(m, lines, k - 1), k, lines[k - 1], ids_in_line(m, lines[k - 1]))
    }
}

/// The references that the scan of a whole file finds.
pub open spec fn file_references(m: ArtifactIdMatcher, lines: Seq<Seq<char>>) -> Seq<
    (Seq<char>, int),
> {
    scan_lines(m, lines, lines.len() as int).found
}

pub open spec fn entries_view(v: Seq<(String, usize)>) -> Seq<(Seq<char>, int)> {
    v.map_values(|e: (String, usize)| (e.0@, e.1 as int))
}

fn copy_string(s: &String) -> (r: String)
    ensures
        r@ == s@,
{
    s.clone()
}

/// Splits `pending` by age at line `n`: entries at most `w` lines above go to
/// `young` (in order), the others are returned (in order).
fn split_by_age(pending: &Vec<(String, usize)>, n: usize, w: usize, young: &mut Vec<(String, usize)>) -> (r:
    Vec<(String, usize)>)
    requires
        forall|j: int| 0 <= j < pending@.len() ==> #[trigger] pending@[j].1 <= n,
        forall|j: int| 0 <= j < old(young)@.len() ==> #[trigger] old(young)@[j].1 <= n,
    ensures
        forall|j: int| 0 <= j < final(young)@.len() ==> #[trigger] final(young)@[j].1 <= n,
        entries_view(final(young)@) == entries_view(old(young)@) + by_age(
            entries_view(pending@),
            n as int,
            w as int,
            true,
        ),
        entries_view(r@) == by_age(entries_view(pending@), n as int, w as int, false),
        forall|j: int| 0 <= j < r@.len() ==> #[trigger] r@[j].1 <= n,
{
    let ghost y0 = young@;
    let mut rest: Vec<(String, usize)> = Vec::new();
    let mut k: usize = 0;
    while k < pending.len()
        invariant
            k <= pending@.len(),
            forall|j: int| 0 <= j < pending@.len() ==> #[trigger] pending@[j].1 <= n,
            entries_view(young@) == entries_view(y0) + by_age(
                entries_view(pending@.take(k as int)),
                n as int,
                w as int,
                true,
            ),
            entries_view(rest@) == by_age(
                entries_view(pending@.take(k as int)),
                n as int,
                w as int,
                false,
            ),
            forall|j: int| 0 <= j < rest@.len() ==> #[trigger] rest@[j].1 <= n,
            forall|j: int| 0 <= j < young@.len() ==> #[trigger] young@[j].1 <= n,
        decreases pending@.len() - k,
    {
        let id = copy_string(&pending[k].0);
        let line = pending[k].1;
        let ghost pv = entries_view(pending@.take(k + 1));
        assert(entries_view(pending@.take(k + 1)).drop_last() =~= entries_view(
            pending@.take(k as int),
        ));
        assert(pv.last() == (id@, line as int));
        let ghost yb = young@;
        let ghost rb = rest@;
        if n - line <= w {
            young.push((id, line));
            assert(entries_view(young@) =~= entries_view(yb).push((id@, line as int)));
        } else {
            rest.push((id, line));
            assert(entries_view(rest@) =~= entries_view(rb).push((id@, line as int)));
        }
        k = k + 1;
    }
    assert(pending@.take(pending@.len() as int) =~= pending@);
    rest
}

/// Appends each id, tied to line `n`.
fn push_at_line(out: &mut Vec<(String, usize)>, ids: &Vec<String>, n: usize)
    ensures
        entries_view(final(out)@) == entries_view(old(out)@) + at_line(
            strings_view(ids@),
            n as int,
        ),
        forall|j: int|
            0 <= j < final(out)@.len() ==> #[trigger] final(out)@[j].1 == (if j < old(
                out,
            )@.len() {
                old(out)@[j].1
            } else {
                n
            }),
{
    let ghost o0 = out@;
    let mut k: usize = 0;
    while k < ids.len()
        invariant
            k <= ids@.len(),
            out@.len() == o0.len() + k,
            entries_view(out@) == entries_view(o0) + at_line(
                strings_view(ids@).take(k as int),
                n as int,
            ),
            forall|j: int|
                0 <= j < out@.len() ==> #[trigger] out@[j].1 == (if j < o0.len() {
                    o0[j].1
                } else {
                    n
                }),
        decreases ids@.len() - k,
    {
        let id = copy_string(&ids[k]);
        let ghost ob = out@;
        out.push((id, n));
        assert(strings_view(ids@).take(k + 1) =~= strings_view(ids@).take(k as int).push(
            ids@[k as int]@,
        ));
        assert(entries_view(out@) =~= entries_view(ob).push((ids@[k as int]@, n as int)));
        k = k + 1;
    }
    assert(strings_view(ids@).take(ids@.len() as int) =~= strings_view(ids@));
}

/// `r` holds the references to artifacts that the lines of the test file
/// `file_path` hold, in the order in which the scan finds them, each tied to
/// the file and a 1-based line number.
pub open spec fn scanned(
    m: ArtifactIdMatcher,
    file_path: Seq<char>,
    lines: Seq<Seq<char>>,
    r: Seq<(String, ArtifactTestLocation)>,
) -> bool {
    &&& r.len() == file_references(m, lines).len()
    &&& forall|j: int|
        #![trigger r[j]]
        0 <= j < r.len() ==> {
            &&& r[j].0@ == file_references(m, lines)[j].0
            &&& r[j].1.file_path@ == file_path
            &&& r[j].1.line as int == file_references(m, lines)[j].1
        }
}

/// The references to artifacts that the lines of a test file hold, in the
/// order in which the scan finds them, each tied to the file and a 1-based
/// line number.
pub fn scan_test_file(matcher: &ArtifactIdMatcher, file_path: &String, lines: &Vec<String>) -> (r:
    Vec<(String, ArtifactTestLocation)>)
    ensures
        scanned(*matcher, file_path@, strings_view(lines@), r@),
{
    let ghost lv = strings_view(lines@);
    let mut pending: Vec<(String, usize)> = Vec::new();
    let mut previous_was_test_attribute = false;
    let mut found: Vec<(String, usize)> = Vec::new();
    let mut depth: usize = 0;
    let mut i: usize = 0;
    assert(entries_view(pending@) =~= Seq::<(Seq<char>, int)>::empty());
    assert(entries_view(found@) =~= Seq::<(Seq<char>, int)>::empty());
    while i < lines.len()
        invariant
            i <= lines@.len(),
            lv == strings_view(lines@),
            entries_view(pending@) == scan_lines(*matcher, lv, i as int).pending,
            entries_view(found@) == scan_lines(*matcher, lv, i as int).found,
            previous_was_test_attribute == scan_lines(
                *matcher,
                lv,
                i as int,
            ).previous_was_test_attribute,
            depth as nat == scan_lines(*matcher, lv, i as int).body_depth,
            forall|j: int| 0 <= j < pending@.len() ==> #[trigger] pending@[j].1 <= i,
            forall|j: int| 0 <= j < found@.len() ==> #[trigger] found@[j].1 <= i,
        decreases lines@.len() - i,
    {
        let n = i + 1;
        let line = lines[i].as_str();
        let ghost st = scan_lines(*matcher, lv, i as int);
        assert(lv[i as int] == line@);
        let cs = chars_of(line);
        let trimmed = trim_chars(cs.as_slice());
        if trimmed.len() == 0 {
            pending = Vec::new();
            previous_was_test_attribute = false;
            assert(entries_view(pending@) =~= Seq::<(Seq<char>, int)>::empty());
        } else {
            let is_comment = is_comment_line(line);
            let in_test = looks_like_test_declaration(line) || previous_was_test_attribute;
            let in_body = !in_test && depth > 0;
            let ids = if is_comment || in_test {
                matcher.find_artifact_ids(line)
            } else {
                Vec::new()
            };
            let ghost want_ids = ids_in_line(*matcher, line@);
            if is_comment && !in_body {
                push_at_line(&mut pending, &ids, n);
            }
            assert(entries_view(pending@) == (if is_comment && !in_body {
                st.pending + at_line(want_ids, n as int)
            } else {
                st.pending
            }));
            let ghost p1 = entries_view(pending@);
            if in_test {
                push_at_line(&mut found, &ids, n);
                let rest = split_by_age(&pending, n, 3, &mut found);
                pending = rest;
            } else if in_body && is_comment {
                push_at_line(&mut found, &ids, n);
            }
            assert(entries_view(found@) == (if in_test {
                st.found + at_line(want_ids, n as int) + by_age(p1, n as int, 3, true)
            } else if in_body && is_comment {
                st.found + at_line(want_ids, n as int)
            } else {
                st.found
            }));
            depth = if in_test {
                depth_step(0, cs.as_slice())
            } else if in_body {
                depth_step(depth, cs.as_slice())
            } else {
                0
            };
            assert(entries_view(pending@) == (if in_test {
                by_age(p1, n as int, 3, false)
            } else {
                p1
            }));
            let mut recent: Vec<(String, usize)> = Vec::new();
            let _older = split_by_age(&pending, n, 2, &mut recent);
            assert(entries_view(recent@) =~= by_age(entries_view(pending@), n as int, 2, true));
            let attr = is_test_attribute(line);
            if !is_comment && !in_test && !attr {
                pending = Vec::new();
                assert(entries_view(pending@) =~= Seq::<(Seq<char>, int)>::empty());
            } else {
                pending = Vec::new();
                pending = recent;
            }
            previous_was_test_attribute = attr;
        }
        proof {
            assert(scan_lines(*matcher, lv, i + 1) == scan_line(
                st,
                i + 1,
                lv[i as int],
                ids_in_line(*matcher, lv[i as int]),
            ));
        }
        i = i + 1;
    }
    assert(lv.len() == lines@.len());
    let mut out: Vec<(String, ArtifactTestLocation)> = Vec::new();
    let mut k: usize = 0;
    while k < found.len()
        invariant
            k <= found@.len(),
            entries_view(found@) == file_references(*matcher, lv),
            lv == strings_view(lines@),
            out@.len() == k,
            forall|j: int|
                #![trigger out@[j]]
                0 <= j < k ==> {
                    &&& out@[j].0@ == file_references(*matcher, lv)[j].0
                    &&& out@[j].1.file_path@ == file_path@
                    &&& out@[j].1.line as int == file_references(*matcher, lv)[j].1
                },
        decreases found@.len() - k,
    {
        let id = copy_string(&found[k].0);
        let line = found[k].1;
        assert(entries_view(found@)[k as int] == (found@[k as int].0@, found@[k as int].1 as int));
        out.push((id, ArtifactTestLocation { file_path: copy_string(file_path), line }));
        k = k + 1;
    }
    out
}

/// The references of several files, file by file, as ids and locations.
pub open spec fn all_references(per_file: Seq<Vec<(String, ArtifactTestLocation)>>) -> Seq<
    (Seq<char>, (Seq<char>, usize)),
>
    decreases per_file.len(),
{
    if per_file.len() == 0 {
        seq![]
    } else {
        all_references(per_file.drop_last()) + per_file.last()@.map_values(
            |e: (String, ArtifactTestLocation)| (e.0@, e.1@),
        )
    }
}

/// The locations of the references to `id`, in order.
pub open spec fn references_to(refs: Seq<(Seq<char>, (Seq<char>, usize))>, id: Seq<char>) -> Seq<
    (Seq<char>, usize),
>
    decreases refs.len(),
{
    if refs.len() == 0 {
        seq![]
    } else {
        let prev = references_to(refs.drop_last(), id);
        if refs.last().0 == id {
            prev.push(refs.last().1)
        } else {
            prev
        }
    }
}

/// The index of a list of references: an artifact has an entry when it is
/// referenced, and its entry holds the locations of its references, in
/// path-then-line order.
pub open spec fn indexes(m: Map<Seq<char>, Seq<(Seq<char>, usize)>>, refs: Seq<
    (Seq<char>, (Seq<char>, usize)),
>) -> bool {
    &&& forall|id: Seq<char>| #[trigger] m.dom().contains(id) <==> references_to(refs, id).len() > 0
    &&& forall|id: Seq<char>|
        #[trigger] m.dom().contains(id) ==> sorted_locations(m[id]) && m[id].to_multiset()
            == references_to(refs, id).to_multiset()
}

/// Groups the references of several files by artifact id.
pub fn build_coverage_index(per_file: &Vec<Vec<(String, ArtifactTestLocation)>>) -> (r:
    ArtifactCoverageIndex)
    ensures
        indexes(r@, all_references(per_file@)),
{
    let mut index = ArtifactCoverageIndex::new();
    let ghost mut refs: Seq<(Seq<char>, (Seq<char>, usize))> = seq![];
    let mut f: usize = 0;
    while f < per_file.len()
        invariant
            f <= per_file@.len(),
            refs == all_references(per_file@.take(f as int)),
            forall|id: Seq<char>|
                #[trigger] index@.dom().contains(id) <==> references_to(refs, id).len() > 0,
            forall|id: Seq<char>|
                #[trigger] index@.dom().contains(id) ==> index@[id] == references_to(refs, id),
        decreases per_file@.len() - f,
    {
        let file = &per_file[f];
        let ghost base = refs;
        let ghost fv = file@.map_values(|e: (String, ArtifactTestLocation)| (e.0@, e.1@));
        let mut k: usize = 0;
        assert(refs =~= base + fv.take(0));
        while k < file.len()
            invariant
                k <= file@.len(),
                fv == file@.map_values(|e: (String, ArtifactTestLocation)| (e.0@, e.1@)),
                refs == base + fv.take(k as int),
                forall|id: Seq<char>|
                    #[trigger] index@.dom().contains(id) <==> references_to(refs, id).len() > 0,
                forall|id: Seq<char>|
                    #[trigger] index@.dom().contains(id) ==> index@[id] == references_to(refs, id),
            decreases file@.len() - k,
        {
            let id = file[k].0.clone();
            let loc = ArtifactTestLocation { file_path: file[k].1.file_path.clone(), line: file[k].1.line };
            let ghost e = fv[k as int];
            assert(e == (id@, loc@));
            let ghost old_index = index@;
            index.add_location(id, loc);
            proof {
                let new_refs = refs.push(e);
                assert(new_refs.drop_last() == refs);
                assert forall|x: Seq<char>| #[trigger] index@.dom().contains(x) <==> references_to(
                    new_refs,
                    x,
                ).len() > 0 by {
                    if x != e.0 {
                        assert(references_to(new_refs, x) == references_to(refs, x));
                    }
                }
                assert forall|x: Seq<char>| #[trigger] index@.dom().contains(x) implies index@[x]
                    == references_to(new_refs, x) by {
                    if x != e.0 {
                        assert(references_to(new_refs, x) == references_to(refs, x));
                    } else {
                        if old_index.dom().contains(x) {
                        } else {
                            assert(references_to(refs, x).len() == 0);
                            assert(references_to(refs, x) =~= Seq::<(Seq<char>, usize)>::empty());
                        }
                    }
                }
                refs = new_refs;
                assert(fv.take(k + 1) =~= fv.take(k as int).push(e));
                assert(refs =~= base + fv.take(k + 1));
            }
            k = k + 1;
        }
        proof {
            assert(fv.take(file@.len() as int) =~= fv);
            assert(per_file@.take(f + 1).drop_last() =~= per_file@.take(f as int));
            assert(per_file@.take(f + 1).last() == *file);
        }
        f = f + 1;
    }
    assert(per_file@.take(per_file@.len() as int) =~= per_file@);
    let ghost before_sort = index@;
    index.sort_each();
    index
}

} // verus!
