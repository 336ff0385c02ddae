//! The entities of a `.ucc` specification and of a coverage search.
use vstd::prelude::*;

use crate::paths::{lemma_path_order, path_eq, path_less, path_lt, paths_equal};
use crate::text::{chars_of, lower, lower_chars, matches_at, push_str, string_from_chars, trim, trim_chars};

verus! {

/// How important an artifact is.
#[derive(Debug, Clone, Copy, PartialEq, Eq, Structural, PartialOrd, Ord, Hash)]
pub enum Priority {
    /// The priority of an artifact that states none (`none` in `.ucc` files).
    Unset,
    Low,
    Medium,
    High,
    Highest,
}

/// The lowercase name of a priority, as `.ucc` files write it.
pub open spec fn priority_name(p: Priority) -> Seq<char> {
    match p {
        Priority::Unset => "none"@,
        Priority::Low => "low"@,
        Priority::Medium => "medium"@,
        Priority::High => "high"@,
        Priority::Highest => "highest"@,
    }
}

/// The priority whose name is `s`, if any.
pub open spec fn priority_named(s: Seq<char>) -> Option<Priority> {
    if s == "none"@ {
        Some(Priority::Unset)
    } else if s == "low"@ {
        Some(Priority::Low)
    } else if s == "medium"@ {
        Some(Priority::Medium)
    } else if s == "high"@ {
        Some(Priority::High)
    } else if s == "highest"@ {
        Some(Priority::Highest)
    } else {
        None
    }
}

/// The result of reading a priority from free text: its name is compared
/// after trimming and ASCII lowercasing.
pub open spec fn priority_parse(value: Seq<char>) -> Result<Priority, Seq<char>> {
    match priority_named(lower(trim(value))) {
        Some(p) => Ok(p),
        None => Err("Invalid priority: '"@ + value + "'"@),
    }
}

/// Whether the characters `a` spell the string `b`.
pub fn chars_equal_str(a: &[char], b: &str) -> (r: bool)
    ensures
        r == (a@ == b@),
{
    let bc = chars_of(b);
    if a.len() != bc.len() {
        return false;
    }
    let r = matches_at(a, bc.as_slice(), 0);
    assert(a@ =~= a@.subrange(0, bc@.len() as int));
    r
}

impl Priority {
    /// The default priority of an artifact that names none.
    pub fn default_priority() -> (r: Priority)
        ensures
            r == Priority::Unset,
    {
        Priority::Unset
    }

    pub fn as_str(self) -> (r: &'static str)
        ensures
            r@ == priority_name(self),
    {
        match self {
            Priority::Unset => "none",
            Priority::Low => "low",
            Priority::Medium => "medium",
            Priority::High => "high",
            Priority::Highest => "highest",
        }
    }

    /// The priority whose name is `s`, compared exactly.
    pub fn from_name(s: &[char]) -> (r: Option<Priority>)
        ensures
            r == priority_named(s@),
    {
        if chars_equal_str(s, "none") {
            Some(Priority::Unset)
        } else if chars_equal_str(s, "low") {
            Some(Priority::Low)
        } else if chars_equal_str(s, "medium") {
            Some(Priority::Medium)
        } else if chars_equal_str(s, "high") {
            Some(Priority::High)
        } else if chars_equal_str(s, "highest") {
            Some(Priority::Highest)
        } else {
            None
        }
    }

    /// Reads a priority from free text, ignoring surrounding whitespace and
    /// ASCII case.
    pub fn parse(value: &str) -> (r: Result<Priority, String>)
        ensures
            r matches Ok(p) ==> priority_parse(value@) == Ok::<Priority, Seq<char>>(p),
            r matches Err(e) ==> priority_parse(value@) == Err::<Priority, Seq<char>>(e@),
    {
        let chars = chars_of(value);
        let trimmed = trim_chars(chars.as_slice());
        let lowered = lower_chars(trimmed.as_slice());
        match Priority::from_name(lowered.as_slice()) {
            Some(p) => Ok(p),
            None => {
                let mut msg: Vec<char> = Vec::new();
                push_str(&mut msg, "Invalid priority: '");
                push_str(&mut msg, value);
                push_str(&mut msg, "'");
                Err(string_from_chars(msg.as_slice()))
            },
        }
    }
}

impl std::str::FromStr for Priority {
    type Err = String;

    fn from_str(value: &str) -> (r: Result<Priority, String>)
        ensures
            r matches Ok(p) ==> priority_parse(value@) == Ok::<Priority, Seq<char>>(p),
            r matches Err(e) ==> priority_parse(value@) == Err::<Priority, Seq<char>>(e@),
    {
        Priority::parse(value)
    }
}

/// The `feature` section of a `.ucc` file.
#[derive(Debug, Clone, PartialEq, Eq)]
pub struct FeatureMetadata {
    pub id: String,
    pub title: String,
    pub created_at: String,
    pub updated_at: Option<String>,
    pub last_modified_at: Option<String>,
    pub description: String,
}

/// A use case, bug or regression that a `.ucc` file declares.
#[derive(Debug, Clone, PartialEq, Eq)]
pub struct Artifact {
    pub id: String,
    pub artifact_type: Option<String>,
    pub created_at: String,
    pub updated_at: Option<String>,
    pub last_modified_at: Option<String>,
    pub title: String,
    pub priority: Priority,
    pub related: Vec<String>,
    pub platforms: Vec<String>,
    pub steps: Vec<String>,
    pub expected: Vec<String>,
    pub tags: Vec<String>,
    pub coverage_gap_reason: Option<String>,
}

/// One parsed `.ucc` file.
#[derive(Debug, Clone, PartialEq, Eq)]
pub struct FeatureDocument {
    pub source_path: String,
    pub schema_version: String,
    pub feature: FeatureMetadata,
    pub tags: Vec<String>,
    pub platforms: Vec<String>,
    pub related_features: Vec<String>,
    pub artifacts: Vec<Artifact>,
}

/// The ids of the artifacts of a document, in order.
pub open spec fn artifact_ids(doc: FeatureDocument) -> Seq<Seq<char>> {
    doc.artifacts@.map_values(|a: Artifact| a.id@)
}

/// A line of a test file that references an artifact.
#[derive(Debug, Clone, PartialEq, Eq)]
pub struct ArtifactTestLocation {
    pub file_path: String,
    pub line: usize,
}

impl View for ArtifactTestLocation {
    type V = (Seq<char>, usize);

    open spec fn view(&self) -> (Seq<char>, usize) {
        (self.file_path@, self.line)
    }
}

/// The views of a sequence of locations.
pub open spec fn locations_view(s: Seq<ArtifactTestLocation>) -> Seq<(Seq<char>, usize)> {
    s.map_values(|l: ArtifactTestLocation| l@)
}

/// The locations found for one artifact.
#[derive(Debug, Clone, PartialEq, Eq)]
pub struct CoverageEntry {
    pub artifact_id: String,
    pub locations: Vec<ArtifactTestLocation>,
}

/// The map that a list of entries with distinct ids stands for.
pub open spec fn entries_map(es: Seq<CoverageEntry>) -> Map<Seq<char>, Seq<(Seq<char>, usize)>>
    decreases es.len(),
{
    if es.len() == 0 {
        Map::empty()
    } else {
        entries_map(es.drop_last()).insert(
            es.last().artifact_id@,
            locations_view(es.last().locations@),
        )
    }
}

/// No two entries have the same artifact id.
pub open spec fn distinct_ids(es: Seq<CoverageEntry>) -> bool {
    forall|i: int, j: int|
        0 <= i < es.len() && 0 <= j < es.len() && i != j ==> es[i].artifact_id@ != es[j].artifact_id@
}

proof fn lemma_entries_map_lookup(es: Seq<CoverageEntry>, k: int)
    requires
        distinct_ids(es),
        0 <= k < es.len(),
    ensures
        entries_map(es).dom().contains(es[k].artifact_id@),
        entries_map(es)[es[k].artifact_id@] == locations_view(es[k].locations@),
    decreases es.len(),
{
    if k < es.len() - 1 {
        assert(distinct_ids(es.drop_last()));
        lemma_entries_map_lookup(es.drop_last(), k);
    }
}

proof fn lemma_entries_map_absent(es: Seq<CoverageEntry>, id: Seq<char>)
    requires
        forall|i: int| 0 <= i < es.len() ==> es[i].artifact_id@ != id,
    ensures
        !entries_map(es).dom().contains(id),
    decreases es.len(),
{
    if es.len() > 0 {
        lemma_entries_map_absent(es.drop_last(), id);
    }
}

proof fn lemma_entries_map_update(es: Seq<CoverageEntry>, k: int, e: CoverageEntry)
    requires
        distinct_ids(es),
        0 <= k < es.len(),
        e.artifact_id@ == es[k].artifact_id@,
    ensures
        distinct_ids(es.update(k, e)),
        entries_map(es.update(k, e)) == entries_map(es).insert(
            e.artifact_id@,
            locations_view(e.locations@),
        ),
    decreases es.len(),
{
    let u = es.update(k, e);
    if k == es.len() - 1 {
        assert(u.drop_last() =~= es.drop_last());
        assert(entries_map(u) =~= entries_map(es).insert(e.artifact_id@, locations_view(e.locations@)));
    } else {
        assert(distinct_ids(es.drop_last()));
        lemma_entries_map_update(es.drop_last(), k, e);
        assert(u.drop_last() =~= es.drop_last().update(k, e));
        assert(entries_map(u) =~= entries_map(es).insert(e.artifact_id@, locations_view(e.locations@)));
    }
}

/// The model of a coverage index: the locations of the tests that reference
/// each covered artifact id.
pub type Coverage = Map<Seq<char>, Seq<(Seq<char>, usize)>>;

/// The locations an index lists for `id`: none when it has no entry.
pub open spec fn locations_for(m: Coverage, id: Seq<char>) -> Seq<(Seq<char>, usize)> {
    if m.dom().contains(id) {
        m[id]
    } else {
        Seq::empty()
    }
}

/// For each artifact id, the test locations that reference it.
pub struct ArtifactCoverageIndex {
    entries: Vec<CoverageEntry>,
}

impl View for ArtifactCoverageIndex {
    type V = Map<Seq<char>, Seq<(Seq<char>, usize)>>;

    closed spec fn view(&self) -> Map<Seq<char>, Seq<(Seq<char>, usize)>> {
        entries_map(self.entries@)
    }
}

impl ArtifactCoverageIndex {
    #[verifier::type_invariant]
    spec fn wf(self) -> bool {
        distinct_ids(self.entries@)
    }

    /// An index that covers no artifact.
    pub fn new() -> (r: ArtifactCoverageIndex)
        ensures
            r@ == Map::<Seq<char>, Seq<(Seq<char>, usize)>>::empty(),
    {
        ArtifactCoverageIndex { entries: Vec::new() }
    }

    /// The position of the entry of `id`, if any.
    fn position(&self, id: &[char]) -> (r: Option<usize>)
        ensures
            r matches Some(k) ==> k < self.entries@.len() && self.entries@[k as int].artifact_id@
                == id@,
            r is None ==> forall|i: int|
                0 <= i < self.entries@.len() ==> self.entries@[i].artifact_id@ != id@,
    {
        let mut k: usize = 0;
        while k < self.entries.len()
            invariant
                k <= self.entries@.len(),
                forall|i: int| 0 <= i < k ==> self.entries@[i].artifact_id@ != id@,
            decreases self.entries@.len() - k,
        {
            let c = chars_of(self.entries[k].artifact_id.as_str());
            if chars_equal_slices(c.as_slice(), id) {
                return Some(k);
            }
            k = k + 1;
        }
        None
    }

    /// The locations found for `artifact_id`; none when it was never found.
    pub fn for_artifact(&self, artifact_id: &str) -> (r: &[ArtifactTestLocation])
        ensures
            locations_view(r@) == locations_for(self@, artifact_id@),
    {
        proof {
            use_type_invariant(self);
        }
        let id = chars_of(artifact_id);
        match self.position(id.as_slice()) {
            Some(k) => {
                proof {
                    lemma_entries_map_lookup(self.entries@, k as int);
                }
                self.entries[k].locations.as_slice()
            },
            None => {
                proof {
                    lemma_entries_map_absent(self.entries@, artifact_id@);
                }
                let empty: &[ArtifactTestLocation] = &[];
                assert(locations_view(empty@) =~= Seq::empty());
                empty
            },
        }
    }

    /// Whether `artifact_id` was found in at least one test: an artifact
    /// with an entry counts as covered.
    pub fn is_covered(&self, artifact_id: &str) -> (r: bool)
        ensures
            r == self@.dom().contains(artifact_id@),
    {
        proof {
            use_type_invariant(self);
        }
        let id = chars_of(artifact_id);
        match self.position(id.as_slice()) {
            Some(k) => {
                proof {
                    lemma_entries_map_lookup(self.entries@, k as int);
                }
                true
            },
            None => {
                proof {
                    lemma_entries_map_absent(self.entries@, artifact_id@);
                }
                false
            },
        }
    }

    /// Sets the locations of `artifact_id`, replacing any it had.
    pub fn insert(&mut self, artifact_id: String, locations: Vec<ArtifactTestLocation>)
        ensures
            final(self)@ == old(self)@.insert(artifact_id@, locations_view(locations@)),
    {
        proof {
            use_type_invariant(&*self);
        }
        let id = chars_of(artifact_id.as_str());
        let entry = CoverageEntry { artifact_id, locations };
        match self.position(id.as_slice()) {
            Some(k) => {
                proof {
                    lemma_entries_map_update(self.entries@, k as int, entry);
                }
                let mut entries: Vec<CoverageEntry> = Vec::new();
                std::mem::swap(&mut entries, &mut self.entries);
                entries.set(k, entry);
                self.entries = entries;
            },
            None => {
                let ghost old_entries = self.entries@;
                let mut entries: Vec<CoverageEntry> = Vec::new();
                std::mem::swap(&mut entries, &mut self.entries);
                entries.push(entry);
                assert(entries@.drop_last() =~= old_entries);
                self.entries = entries;
            },
        }
    }

    /// Appends `location` to the locations of `artifact_id`.
    pub fn add_location(&mut self, artifact_id: String, location: ArtifactTestLocation)
        ensures
            final(self)@ == old(self)@.insert(
                artifact_id@,
                locations_for(old(self)@, artifact_id@).push(location@),
            ),
    {
        proof {
            use_type_invariant(&*self);
        }
        let id = chars_of(artifact_id.as_str());
        match self.position(id.as_slice()) {
            Some(k) => {
                proof {
                    lemma_entries_map_lookup(self.entries@, k as int);
                }
                let mut entries: Vec<CoverageEntry> = Vec::new();
                std::mem::swap(&mut entries, &mut self.entries);
                let ghost before = entries@;
                let old_entry = entries.remove(k);
                let mut locations = old_entry.locations;
                let ghost old_locs = locations@;
                locations.push(location);
                assert(locations_view(locations@) =~= locations_view(old_locs).push(location@));
                let entry = CoverageEntry { artifact_id, locations };
                proof {
                    lemma_entries_map_update(before, k as int, entry);
                }
                entries.insert(k, entry);
                assert(entries@ =~= before.update(k as int, entry));
                self.entries = entries;
            },
            None => {
                proof {
                    lemma_entries_map_absent(self.entries@, artifact_id@);
                }
                let ghost old_entries = self.entries@;
                let mut locations: Vec<ArtifactTestLocation> = Vec::new();
                locations.push(location);
                assert(locations_view(locations@) =~= Seq::<(Seq<char>, usize)>::empty().push(
                    location@,
                ));
                let entry = CoverageEntry { artifact_id, locations };
                let mut entries: Vec<CoverageEntry> = Vec::new();
                std::mem::swap(&mut entries, &mut self.entries);
                entries.push(entry);
                assert(entries@.drop_last() =~= old_entries);
                self.entries = entries;
            },
        }
    }
}

impl Default for ArtifactCoverageIndex {
    fn default() -> (r: ArtifactCoverageIndex)
        ensures
            r@ == Map::<Seq<char>, Seq<(Seq<char>, usize)>>::empty(),
    {
        ArtifactCoverageIndex::new()
    }
}

/// Whether two character slices are equal.
pub fn chars_equal_slices(a: &[char], b: &[char]) -> (r: bool)
    ensures
        r == (a@ == b@),
{
    if a.len() != b.len() {
        return false;
    }
    let r = matches_at(a, b, 0);
    assert(a@ =~= a@.subrange(0, b@.len() as int));
    r
}

/// What a lint found wrong in a `.ucc` file.
#[derive(Debug, Clone, PartialEq, Eq)]
pub struct UccLintIssue {
    pub message: String,
    pub line: Option<usize>,
    pub column: Option<usize>,
    pub suggestion: Option<String>,
}

/// The verdict of a lint on one `.ucc` file.
#[derive(Debug, Clone, PartialEq, Eq)]
pub struct UccLintResult {
    pub file_path: String,
    pub is_valid: bool,
    pub issue: Option<UccLintIssue>,
}

/// The order in which the locations of an artifact are listed: by path, then
/// by line.
pub open spec fn loc_lt(a: (Seq<char>, usize), b: (Seq<char>, usize)) -> bool {
    path_lt(a.0, b.0) || (path_eq(a.0, b.0) && a.1 < b.1)
}

/// No location comes after one that it should precede.
pub open spec fn sorted_locations(s: Seq<(Seq<char>, usize)>) -> bool {
    forall|i: int, j: int| 0 <= i < j < s.len() ==> !loc_lt(#[trigger] s[j], #[trigger] s[i])
}

proof fn lemma_loc_order()
    ensures
        forall|a: (Seq<char>, usize)| !#[trigger] loc_lt(a, a),
        forall|a: (Seq<char>, usize), b: (Seq<char>, usize), c: (Seq<char>, usize)|
            #[trigger] loc_lt(a, b) && #[trigger] loc_lt(b, c) ==> loc_lt(a, c),
{
    lemma_path_order();
    assert forall|a: (Seq<char>, usize), b: (Seq<char>, usize), c: (Seq<char>, usize)|
        #[trigger] loc_lt(a, b) && #[trigger] loc_lt(b, c) implies loc_lt(a, c) by {
        if path_lt(a.0, b.0) && path_eq(b.0, c.0) {
            assert(path_lt(a.0, c.0));
        }
        if path_eq(a.0, b.0) && path_lt(b.0, c.0) {
            assert(path_lt(a.0, c.0));
        }
    }
}

proof fn lemma_insert_multiset<A>(s: Seq<A>, p: int, x: A)
    requires
        0 <= p <= s.len(),
    ensures
        s.insert(p, x).to_multiset() == s.to_multiset().insert(x),
{
    broadcast use vstd::seq_lib::group_to_multiset_ensures;

    let t = s.insert(p, x);
    assert(t.remove(p) =~= s);
    assert(t[p] == x);
    assert(t.contains(x));
    assert(t.to_multiset() =~= s.to_multiset().insert(x));
}

fn location_less(a: &ArtifactTestLocation, b: &ArtifactTestLocation) -> (r: bool)
    ensures
        r == loc_lt(a@, b@),
{
    if path_less(a.file_path.as_str(), b.file_path.as_str()) {
        true
    } else {
        paths_equal(a.file_path.as_str(), b.file_path.as_str()) && a.line < b.line
    }
}

/// The same locations, in path-then-line order; equal ones keep their order.
pub fn sort_locations(v: Vec<ArtifactTestLocation>) -> (r: Vec<ArtifactTestLocation>)
    ensures
        sorted_locations(locations_view(r@)),
        locations_view(r@).to_multiset() == locations_view(v@).to_multiset(),
{
    proof {
        lemma_loc_order();
    }
    let ghost v0 = locations_view(v@);
    let mut input = v;
    let mut out: Vec<ArtifactTestLocation> = Vec::new();
    let mut k: usize = 0;
    let n = input.len();
    assert(locations_view(out@).to_multiset() =~= locations_view(input@).take(0).to_multiset()) by {
        broadcast use vstd::seq_lib::group_to_multiset_ensures;
        assert(locations_view(input@).take(0) =~= Seq::<(Seq<char>, usize)>::empty());
        assert(locations_view(out@) =~= Seq::<(Seq<char>, usize)>::empty());
    }
    while k < n
        invariant
            k <= n,
            n == input@.len(),
            v0 == locations_view(input@),
            sorted_locations(locations_view(out@)),
            locations_view(out@).to_multiset() == v0.take(k as int).to_multiset(),
        decreases n - k,
    {
        let x = &input[k];
        let mut p: usize = 0;
        while p < out.len() && !location_less(x, &out[p])
            invariant
                p <= out@.len(),
                forall|q: int| 0 <= q < p ==> !loc_lt(x@, #[trigger] locations_view(out@)[q]),
            decreases out@.len() - p,
        {
            p = p + 1;
        }
        proof {
            lemma_loc_order();
        }
        let item = ArtifactTestLocation { file_path: x.file_path.clone(), line: x.line };
        let ghost before = locations_view(out@);
        let ghost xv = item@;
        assert(xv == v0[k as int]);
        out.insert(p, item);
        let ghost after = locations_view(out@);
        assert(after =~= before.insert(p as int, xv));
        assert forall|i: int, j: int| 0 <= i < j < after.len() implies !loc_lt(
            #[trigger] after[j],
            #[trigger] after[i],
        ) by {
            if j < p {
            } else if j == p {
                assert(after[i] == before[i]);
            } else if i < p {
                assert(after[i] == before[i]);
                assert(after[j] == before[j - 1]);
                if loc_lt(after[j], after[i]) {
                    assert(loc_lt(xv, before[p as int]));
                    if j - 1 > p {
                        assert(!loc_lt(before[j - 1], before[p as int]));
                    }
                }
            } else if i == p {
                assert(after[j] == before[j - 1]);
                if loc_lt(before[j - 1], xv) {
                    assert(loc_lt(xv, before[p as int]));
                    assert(loc_lt(before[j - 1], before[p as int]));
                    if j - 1 > p {
                        assert(!loc_lt(before[j - 1], before[p as int]));
                    } else {
                        assert(!loc_lt(before[p as int], before[p as int]));
                    }
                }
            } else {
                assert(after[i] == before[i - 1]);
                assert(after[j] == before[j - 1]);
            }
        }
        proof {
            lemma_insert_multiset(before, p as int, xv);
            broadcast use vstd::seq_lib::group_to_multiset_ensures;

            assert(v0.take(k + 1) =~= v0.take(k as int).push(v0[k as int]));
        }
        k = k + 1;
    }
    assert(v0.take(n as int) =~= v0);
    out
}

proof fn lemma_entries_same_ids(a: Seq<CoverageEntry>, b: Seq<CoverageEntry>)
    requires
        a.len() == b.len(),
        distinct_ids(a),
        forall|j: int| 0 <= j < a.len() ==> #[trigger] a[j].artifact_id@ == b[j].artifact_id@,
    ensures
        distinct_ids(b),
        entries_map(a).dom() == entries_map(b).dom(),
        forall|j: int|
            0 <= j < a.len() ==> entries_map(b)[#[trigger] a[j].artifact_id@] == locations_view(
                b[j].locations@,
            ) && entries_map(a)[a[j].artifact_id@] == locations_view(a[j].locations@),
{
    assert(distinct_ids(b)) by {
        assert forall|i: int, j: int|
            0 <= i < b.len() && 0 <= j < b.len() && i != j implies b[i].artifact_id@
            != b[j].artifact_id@ by {
            assert(a[i].artifact_id@ == b[i].artifact_id@);
            assert(a[j].artifact_id@ == b[j].artifact_id@);
        }
    }
    assert forall|j: int| 0 <= j < a.len() implies entries_map(b)[#[trigger] a[j].artifact_id@]
        == locations_view(b[j].locations@) && entries_map(a)[a[j].artifact_id@] == locations_view(
        a[j].locations@,
    ) by {
        lemma_entries_map_lookup(a, j);
        lemma_entries_map_lookup(b, j);
    }
    assert forall|id: Seq<char>| entries_map(a).dom().contains(id) <==> entries_map(
        b,
    ).dom().contains(id) by {
        if entries_map(a).dom().contains(id) {
            if forall|i: int| 0 <= i < a.len() ==> a[i].artifact_id@ != id {
                lemma_entries_map_absent(a, id);
            }
            let j = choose|j: int| 0 <= j < a.len() && a[j].artifact_id@ == id;
            lemma_entries_map_lookup(b, j);
        }
        if entries_map(b).dom().contains(id) {
            if forall|i: int| 0 <= i < b.len() ==> b[i].artifact_id@ != id {
                lemma_entries_map_absent(b, id);
            }
            let j = choose|j: int| 0 <= j < b.len() && b[j].artifact_id@ == id;
            assert(a[j].artifact_id@ == id);
            lemma_entries_map_lookup(a, j);
        }
    }
    assert(entries_map(a).dom() =~= entries_map(b).dom());
}

impl ArtifactCoverageIndex {
    /// Puts the locations of every artifact in path-then-line order.
    pub fn sort_each(&mut self)
        ensures
            final(self)@.dom() == old(self)@.dom(),
            forall|id: Seq<char>|
                #[trigger] old(self)@.dom().contains(id) ==> sorted_locations(final(self)@[id])
                    && final(self)@[id].to_multiset() == old(self)@[id].to_multiset(),
    {
        proof {
            use_type_invariant(&*self);
        }
        let mut es: Vec<CoverageEntry> = Vec::new();
        std::mem::swap(&mut es, &mut self.entries);
        let ghost e0 = es@;
        let n = es.len();
        let mut out: Vec<CoverageEntry> = Vec::new();
        let mut k: usize = 0;
        while k < n
            invariant
                k <= n,
                n == e0.len(),
                distinct_ids(e0),
                es@ == e0.skip(k as int),
                out@.len() == k,
                forall|j: int| 0 <= j < k ==> #[trigger] out@[j].artifact_id@ == e0[j].artifact_id@,
                forall|j: int|
                    0 <= j < k ==> sorted_locations(locations_view(#[trigger] out@[j].locations@))
                        && locations_view(out@[j].locations@).to_multiset() == locations_view(
                        e0[j].locations@,
                    ).to_multiset(),
            decreases n - k,
        {
            let e = es.remove(0);
            assert(e == e0[k as int]);
            assert(es@ =~= e0.skip(k + 1));
            let sorted = sort_locations(e.locations);
            out.push(CoverageEntry { artifact_id: e.artifact_id, locations: sorted });
            k = k + 1;
        }
        proof {
            lemma_entries_same_ids(e0, out@);
            assert forall|id: Seq<char>| #[trigger] entries_map(e0).dom().contains(id) implies sorted_locations(
                entries_map(out@)[id],
            ) && entries_map(out@)[id].to_multiset() == entries_map(e0)[id].to_multiset() by {
                if forall|i: int| 0 <= i < e0.len() ==> e0[i].artifact_id@ != id {
                    lemma_entries_map_absent(e0, id);
                }
                let j = choose|j: int| 0 <= j < e0.len() && e0[j].artifact_id@ == id;
                assert(out@[j].artifact_id@ == id);
            }
        }
        self.entries = out;
    }
}

} // verus!
