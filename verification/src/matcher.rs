//! Finding the artifact ids that a line of a test file mentions.
use vstd::prelude::*;

use crate::domain::{artifact_ids, FeatureDocument};
use crate::text::{chars_of, dedup, is_ascii_alnum, is_ascii_alphanumeric, string_from_chars};

verus! {

#[verifier::external_type_specification]
#[verifier::external_body]
pub struct ExAhoCorasick(aho_corasick::AhoCorasick);

/// The patterns that an automaton was built from, in the order of their ids.
pub uninterp spec fn automaton_patterns(m: aho_corasick::AhoCorasick) -> Seq<Seq<char>>;

/// Whether `AhoCorasickBuilder::build`, set for ASCII case insensitivity and
/// leftmost-longest matching, builds an automaton from `patterns` (it
/// reports an error otherwise).
pub uninterp spec fn automaton_builds(patterns: Seq<Seq<char>>) -> bool;

/// The automaton was built set for ASCII case insensitivity and
/// leftmost-longest matching.
pub uninterp spec fn ids_automaton(m: aho_corasick::AhoCorasick) -> bool;

/// What `AhoCorasick::find_iter` reports on `haystack` (its UTF-8 bytes) for an
/// automaton built from `patterns` set for ASCII case insensitivity and
/// leftmost-longest matching: for each match, in order, the pattern id and
/// the byte offsets where it starts and ends.
pub uninterp spec fn leftmost_longest_matches(patterns: Seq<Seq<char>>, haystack: Seq<u8>) -> Seq<
    (usize, usize, usize),
>;

/// The views of a list of strings.
pub open spec fn strings_view(v: Seq<String>) -> Seq<Seq<char>> {
    v.map_values(|s: String| s@)
}

/// Builds an ASCII-case-insensitive, leftmost-longest automaton with
/// `aho_corasick::AhoCorasickBuilder::build`; `None` when the builder reports
/// an error. Trusted: whether it builds one is a function of the patterns
/// (the builder's settings being fixed); the automaton's patterns are the
/// given ones, in order, and it is set as asked.
#[verifier::external_body]
fn build_automaton(patterns: &Vec<String>) -> (r: Option<aho_corasick::AhoCorasick>)
    ensures
        r is Some <==> automaton_builds(strings_view(patterns@)),
        r matches Some(m) ==> automaton_patterns(m) == strings_view(patterns@) && ids_automaton(m),
{
    aho_corasick::AhoCorasick::builder().ascii_case_insensitive(true).match_kind(
        aho_corasick::MatchKind::LeftmostLongest,
    ).build(patterns).ok()
}

/// The matches of `AhoCorasick::find_iter` on `haystack`: pattern id, start and
/// end byte of each, for an automaton that `build_automaton` built. A pattern
/// id names one of the automaton's patterns, and a match lies within the
/// haystack.
#[verifier::external_body]
fn find_matches(m: &aho_corasick::AhoCorasick, haystack: &str) -> (r: Vec<(usize, usize, usize)>)
    requires
        ids_automaton(*m),
    ensures
        r@ == leftmost_longest_matches(automaton_patterns(*m), vstd::utf8::encode_utf8(haystack@)),
        forall|i: int|
            #![trigger r@[i]]
            0 <= i < r@.len() ==> r@[i].0 < automaton_patterns(*m).len() && r@[i].1 <= r@[i].2
                <= vstd::utf8::encode_utf8(haystack@).len(),
{
    m.find_iter(haystack).map(|x| (x.pattern().as_usize(), x.start(), x.end())).collect()
}

/// A character that may be part of an artifact id.
pub open spec fn is_id_char(c: char) -> bool {
    is_ascii_alnum(c) || c == '-'
}

/// The byte form of `is_id_char`: a byte of a multi-byte character is never
/// part of an id.
pub open spec fn is_id_byte(b: u8) -> bool {
    ||| 0x30 <= b <= 0x39
    ||| 0x41 <= b <= 0x5a
    ||| 0x61 <= b <= 0x7a
    ||| b == 0x2d
}

fn id_byte(b: u8) -> (r: bool)
    ensures
        r == is_id_byte(b),
{
    (0x30 <= b && b <= 0x39) || (0x41 <= b && b <= 0x5a) || (0x61 <= b && b <= 0x7a) || b == 0x2d
}

pub fn id_char(c: char) -> (r: bool)
    ensures
        r == is_id_char(c),
{
    is_ascii_alphanumeric(c) || c == '-'
}

/// A match from byte `start` to `end` stands alone: no id character touches it.
pub open spec fn at_boundary(bytes: Seq<u8>, start: int, end: int) -> bool {
    &&& (start == 0 || !is_id_byte(bytes[start - 1]))
    &&& (end >= bytes.len() || !is_id_byte(bytes[end]))
}

/// The artifact ids of the matches that stand alone, in order, with repeats.
pub open spec fn standalone_ids(
    owners: Seq<Seq<char>>,
    ms: Seq<(usize, usize, usize)>,
    bytes: Seq<u8>,
) -> Seq<Seq<char>>
    decreases ms.len(),
{
    if ms.len() == 0 {
        seq![]
    } else {
        let prev = standalone_ids(owners, ms.drop_last(), bytes);
        let m = ms.last();
        if at_boundary(bytes, m.1 as int, m.2 as int) && m.0 < owners.len() {
            prev.push(owners[m.0 as int])
        } else {
            prev
        }
    }
}

/// `normalize_artifact_id_for_test_name`: every character that is not ASCII
/// alphanumeric becomes `_`.
pub open spec fn normalized_id(id: Seq<char>) -> Seq<char> {
    id.map_values(|c: char| if is_ascii_alnum(c) { c } else { '_' })
}

/// The patterns that find an artifact id: the id itself, then its normalized
/// form when that differs.
pub open spec fn id_patterns(id: Seq<char>) -> Seq<Seq<char>> {
    if normalized_id(id) == id {
        seq![id]
    } else {
        seq![id, normalized_id(id)]
    }
}

/// The patterns of a list of ids, in order.
pub open spec fn patterns_of(ids: Seq<Seq<char>>) -> Seq<Seq<char>>
    decreases ids.len(),
{
    if ids.len() == 0 {
        seq![]
    } else {
        patterns_of(ids.drop_last()) + id_patterns(ids.last())
    }
}

/// For each pattern of `patterns_of(ids)`, the id it finds.
pub open spec fn owners_of(ids: Seq<Seq<char>>) -> Seq<Seq<char>>
    decreases ids.len(),
{
    if ids.len() == 0 {
        seq![]
    } else {
        owners_of(ids.drop_last()) + Seq::new(id_patterns(ids.last()).len(), |i: int| ids.last())
    }
}

/// The artifact ids of a list of documents, document by document.
pub open spec fn all_artifact_ids(features: Seq<FeatureDocument>) -> Seq<Seq<char>>
    decreases features.len(),
{
    if features.len() == 0 {
        seq![]
    } else {
        all_artifact_ids(features.drop_last()) + artifact_ids(features.last())
    }
}

/// Searches lines for the ids of a set of artifacts.
pub struct ArtifactIdMatcher {
    matcher: Option<aho_corasick::AhoCorasick>,
    artifact_ids_by_pattern_index: Vec<String>,
}

impl ArtifactIdMatcher {
    /// Only automata built for ids are kept.
    #[verifier::type_invariant]
    spec fn built_for_ids(self) -> bool {
        self.matcher matches Some(a) ==> ids_automaton(a)
    }

    /// The automaton, if any.
    pub closed spec fn automaton(self) -> Option<aho_corasick::AhoCorasick> {
        self.matcher
    }

    /// For each pattern id, the artifact id it finds.
    pub closed spec fn owners(self) -> Seq<Seq<char>> {
        strings_view(self.artifact_ids_by_pattern_index@)
    }

    /// Whether there is an automaton (there is none when there is no pattern,
    /// or when the builder failed).
    pub fn has_automaton(&self) -> (r: bool)
        ensures
            r == self.automaton() is Some,
    {
        self.matcher.is_some()
    }

    /// For each pattern id, the artifact id it finds.
    pub fn artifact_ids_by_pattern_index(&self) -> (r: &Vec<String>)
        ensures
            strings_view(r@) == self.owners(),
    {
        &self.artifact_ids_by_pattern_index
    }
}

/// The artifact ids that a line mentions: those whose id, or its normalized
/// form, occurs in it ignoring ASCII case with no id character on either
/// side; each once, in order of first mention.
pub open spec fn ids_in_line(m: ArtifactIdMatcher, line: Seq<char>) -> Seq<Seq<char>> {
    match m.automaton() {
        None => seq![],
        Some(a) => {
            let bytes = vstd::utf8::encode_utf8(line);
            dedup(
                standalone_ids(
                    m.owners(),
                    leftmost_longest_matches(automaton_patterns(a), bytes),
                    bytes,
                ),
            )
        },
    }
}

/// `artifact_id_patterns`.
pub fn artifact_id_patterns(artifact_id: &str) -> (r: Vec<String>)
    ensures
        strings_view(r@) == id_patterns(artifact_id@),
{
    let normalized = normalize_artifact_id_for_test_name(artifact_id);
    let id_chars = chars_of(artifact_id);
    let norm_chars = chars_of(normalized.as_str());
    let mut out: Vec<String> = Vec::new();
    out.push(string_from_chars(id_chars.as_slice()));
    if !crate::domain::chars_equal_slices(norm_chars.as_slice(), id_chars.as_slice()) {
        out.push(normalized);
    }
    assert(strings_view(out@) =~= id_patterns(artifact_id@));
    out
}

/// `normalize_artifact_id_for_test_name`.
pub fn normalize_artifact_id_for_test_name(artifact_id: &str) -> (r: String)
    ensures
        r@ == normalized_id(artifact_id@),
{
    let cs = chars_of(artifact_id);
    let mut out: Vec<char> = Vec::new();
    let mut i: usize = 0;
    while i < cs.len()
        invariant
            i <= cs@.len(),
            out@ == normalized_id(cs@.take(i as int)),
        decreases cs@.len() - i,
    {
        let c = cs[i];
        let d = if is_ascii_alphanumeric(c) {
            c
        } else {
            '_'
        };
        out.push(d);
        i = i + 1;
        assert(out@ =~= normalized_id(cs@.take(i as int)));
    }
    assert(cs@.take(cs@.len() as int) =~= cs@);
    string_from_chars(out.as_slice())
}

/// Whether `id` is among `v`.
fn contains_string(v: &Vec<String>, id: &String) -> (r: bool)
    ensures
        r == strings_view(v@).contains(id@),
{
    let mut k: usize = 0;
    while k < v.len()
        invariant
            k <= v@.len(),
            forall|j: int| 0 <= j < k ==> v@[j]@ != id@,
        decreases v@.len() - k,
    {
        if v[k] == *id {
            assert(strings_view(v@)[k as int] == id@);
            return true;
        }
        k = k + 1;
    }
    proof {
        if strings_view(v@).contains(id@) {
            let j = choose|j: int| 0 <= j < strings_view(v@).len() && strings_view(v@)[j] == id@;
            assert(v@[j]@ == id@);
        }
    }
    false
}

/// Appends `id` unless it is already there, keeping `v` the dedup of what was
/// offered.
fn push_distinct(v: &mut Vec<String>, id: String, Ghost(offered): Ghost<Seq<Seq<char>>>)
    requires
        strings_view(old(v)@) == dedup(offered),
    ensures
        strings_view(final(v)@) == dedup(offered.push(id@)),
{
    let ghost new_offered = offered.push(id@);
    assert(new_offered.drop_last() =~= offered);
    if !contains_string(v, &id) {
        let ghost before = v@;
        v.push(id);
        assert(strings_view(v@) =~= strings_view(before).push(new_offered.last()));
    }
}

/// `m` is the matcher for the artifacts of `features`: each distinct
/// artifact id once, in order of first appearance, with its patterns; an
/// automaton exactly when there is a pattern and the builder builds one from
/// them, and then it holds exactly those patterns.
pub open spec fn matcher_for(m: ArtifactIdMatcher, features: Seq<FeatureDocument>) -> bool {
    let patterns = patterns_of(dedup(all_artifact_ids(features)));
    &&& m.owners() == owners_of(dedup(all_artifact_ids(features)))
    &&& (m.automaton() is Some <==> patterns.len() > 0 && automaton_builds(patterns))
    &&& m.automaton() matches Some(a) ==> automaton_patterns(a) == patterns
}

impl ArtifactIdMatcher {
    /// The matcher for the artifacts of `features`: each distinct artifact id
    /// once, in order of first appearance, with its patterns. There is no
    /// automaton when there is no pattern, or when the builder fails (then
    /// no line mentions any id).
    pub fn from_features(features: &[FeatureDocument]) -> (r: ArtifactIdMatcher)
        ensures
            matcher_for(r, features@),
    {
        let mut ids: Vec<String> = Vec::new();
        let mut f: usize = 0;
        let ghost mut offered: Seq<Seq<char>> = seq![];
        assert(strings_view(ids@) =~= dedup(offered));
        while f < features.len()
            invariant
                f <= features@.len(),
                offered == all_artifact_ids(features@.take(f as int)),
                strings_view(ids@) == dedup(offered),
            decreases features@.len() - f,
        {
            let doc = &features[f];
            let mut a: usize = 0;
            let ghost base = offered;
            assert(artifact_ids(*doc).take(0) =~= Seq::<Seq<char>>::empty());
            assert(offered =~= base + artifact_ids(*doc).take(0));
            while a < doc.artifacts.len()
                invariant
                    a <= doc.artifacts@.len(),
                    offered == base + artifact_ids(*doc).take(a as int),
                    strings_view(ids@) == dedup(offered),
                decreases doc.artifacts@.len() - a,
            {
                let id_chars = chars_of(doc.artifacts[a].id.as_str());
                let id = string_from_chars(id_chars.as_slice());
                push_distinct(&mut ids, id, Ghost(offered));
                proof {
                    offered = offered.push(doc.artifacts@[a as int].id@);
                    assert(artifact_ids(*doc).take(a + 1) =~= artifact_ids(*doc).take(
                        a as int,
                    ).push(doc.artifacts@[a as int].id@));
                }
                a = a + 1;
            }
            proof {
                assert(artifact_ids(*doc).take(doc.artifacts@.len() as int) =~= artifact_ids(
                    *doc,
                ));
                assert(features@.take(f + 1).drop_last() =~= features@.take(f as int));
            }
            f = f + 1;
        }
        assert(features@.take(features@.len() as int) =~= features@);
        let ghost distinct = strings_view(ids@);
        let mut patterns: Vec<String> = Vec::new();
        let mut owners: Vec<String> = Vec::new();
        let mut k: usize = 0;
        while k < ids.len()
            invariant
                k <= ids@.len(),
                distinct == strings_view(ids@),
                strings_view(patterns@) == patterns_of(distinct.take(k as int)),
                strings_view(owners@) == owners_of(distinct.take(k as int)),
            decreases ids@.len() - k,
        {
            let id = &ids[k];
            let ps = artifact_id_patterns(id.as_str());
            let ghost before_p = patterns@;
            let ghost before_o = owners@;
            let mut j: usize = 0;
            while j < ps.len()
                invariant
                    j <= ps@.len(),
                    strings_view(patterns@) == strings_view(before_p) + strings_view(ps@).take(
                        j as int,
                    ),
                    strings_view(owners@) == strings_view(before_o) + Seq::new(
                        j as nat,
                        |i: int| id@,
                    ),
                decreases ps@.len() - j,
            {
                let p_chars = chars_of(ps[j].as_str());
                let ghost pre_p = patterns@;
                let ghost pre_o = owners@;
                let pat = string_from_chars(p_chars.as_slice());
                assert(pat@ == strings_view(ps@)[j as int]);
                patterns.push(pat);
                let id_chars = chars_of(id.as_str());
                owners.push(string_from_chars(id_chars.as_slice()));
                assert(strings_view(patterns@) =~= strings_view(pre_p).push(pat@));
                assert(strings_view(owners@) =~= strings_view(pre_o).push(id@));
                assert(strings_view(ps@).take(j + 1) =~= strings_view(ps@).take(j as int).push(
                    pat@,
                ));
                assert(Seq::new((j + 1) as nat, |i: int| id@) =~= Seq::new(j as nat, |i: int| id@).push(
                    id@,
                ));
                j = j + 1;
                assert(strings_view(patterns@) =~= strings_view(before_p) + strings_view(
                    ps@,
                ).take(j as int));
                assert(strings_view(owners@) =~= strings_view(before_o) + Seq::new(
                    j as nat,
                    |i: int| id@,
                ));
            }
            proof {
                assert(distinct.take(k + 1).drop_last() =~= distinct.take(k as int));
                assert(distinct.take(k + 1).last() == id@);
                assert(strings_view(ps@).take(ps@.len() as int) =~= strings_view(ps@));
                assert(strings_view(patterns@) =~= patterns_of(distinct.take(k + 1)));
                assert(strings_view(owners@) =~= owners_of(distinct.take(k + 1)));
            }
            k = k + 1;
        }
        assert(distinct.take(ids@.len() as int) =~= distinct);
        let matcher = if patterns.len() == 0 {
            None
        } else {
            build_automaton(&patterns)
        };
        ArtifactIdMatcher { matcher, artifact_ids_by_pattern_index: owners }
    }

    /// The ids that the matches `ms` of the automaton on `line` find: those
    /// that stand alone (no id character on either side), each once, in
    /// order of first match.
    pub fn ids_from_matches(&self, line: &str, ms: &Vec<(usize, usize, usize)>) -> (r: Vec<String>)
        requires
            forall|j: int|
                #![trigger ms@[j]]
                0 <= j < ms@.len() ==> ms@[j].1 <= ms@[j].2 <= vstd::utf8::encode_utf8(line@).len(),
        ensures
            strings_view(r@) == dedup(
                standalone_ids(self.owners(), ms@, vstd::utf8::encode_utf8(line@)),
            ),
    {
        let bytes = line.as_bytes();
        let ghost owners = self.owners();
        let mut out: Vec<String> = Vec::new();
        let mut i: usize = 0;
        assert(strings_view(out@) =~= dedup(standalone_ids(owners, ms@.take(0), bytes@)));
        while i < ms.len()
            invariant
                i <= ms@.len(),
                bytes@ == vstd::utf8::encode_utf8(line@),
                owners == strings_view(self.artifact_ids_by_pattern_index@),
                forall|j: int|
                    #![trigger ms@[j]]
                    0 <= j < ms@.len() ==> ms@[j].1 <= ms@[j].2 <= bytes@.len(),
                strings_view(out@) == dedup(standalone_ids(owners, ms@.take(i as int), bytes@)),
            decreases ms@.len() - i,
        {
            let (p, start, end) = ms[i];
            let before_ok = start == 0 || !id_byte(bytes[start - 1]);
            let after_ok = end >= bytes.len() || !id_byte(bytes[end]);
            let ghost prefix = ms@.take(i as int);
            assert(ms@.take(i + 1).drop_last() =~= prefix);
            assert(ms@.take(i + 1).last() == ms@[i as int]);
            let ghost sid = standalone_ids(owners, prefix, bytes@);
            if before_ok && after_ok && p < self.artifact_ids_by_pattern_index.len() {
                let id_chars = chars_of(self.artifact_ids_by_pattern_index[p].as_str());
                let id = string_from_chars(id_chars.as_slice());
                push_distinct(&mut out, id, Ghost(sid));
                assert(standalone_ids(owners, ms@.take(i + 1), bytes@) == sid.push(
                    owners[p as int],
                ));
            } else {
                assert(standalone_ids(owners, ms@.take(i + 1), bytes@) == sid);
            }
            i = i + 1;
        }
        assert(ms@.take(ms@.len() as int) =~= ms@);
        out
    }

    /// The artifact ids that `line` mentions, each once, in order of first
    /// mention.
    pub fn find_artifact_ids(&self, line: &str) -> (r: Vec<String>)
        ensures
            strings_view(r@) == ids_in_line(*self, line@),
    {
        proof {
            use_type_invariant(self);
        }
        match &self.matcher {
            None => {
                let r: Vec<String> = Vec::new();
                assert(strings_view(r@) =~= Seq::<Seq<char>>::empty());
                r
            },
            Some(a) => {
                let ms = find_matches(a, line);
                self.ids_from_matches(line, &ms)
            },
        }
    }
}

} // verus!
