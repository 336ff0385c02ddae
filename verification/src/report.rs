//! The figures of the coverage report: what counts as a bug, the month a date
//! falls in, per-feature and overall counts, the lint issues to show and the
//! growth of the last twelve months.
use vstd::prelude::*;

use chrono::Datelike;

use crate::domain::{
    locations_for, locations_view, Artifact, ArtifactCoverageIndex, ArtifactTestLocation, Coverage,
    FeatureDocument, Priority, UccLintResult,
};
use crate::text::{
    chars_of, contains, contains_str, digits_value, lower, lower_chars, parse_unsigned,
    parse_unsigned_chars,
};

verus! {

/// An artifact type names a bug when, lowercased, it mentions a bug or a
/// regression.
pub open spec fn names_bug(artifact_type: Seq<char>) -> bool {
    contains(lower(artifact_type), "bug"@) || contains(lower(artifact_type), "regression"@)
}

/// Whether an artifact of this type is a bug (or a regression) rather than a
/// use case; an artifact without a type is a use case.
pub fn is_bug(artifact_type: Option<&str>) -> (r: bool)
    ensures
        r == (artifact_type matches Some(t) && names_bug(t@)),
{
    match artifact_type {
        Some(t) => {
            let low = lower_chars(chars_of(t).as_slice());
            contains_str(low.as_slice(), "bug") || contains_str(low.as_slice(), "regression")
        },
        None => false,
    }
}

/// The three-letter name of month `month`, `"??"` outside `1..=12`.
pub open spec fn month_abbreviation(month: u32) -> Seq<char> {
    if month == 1 {
        "Jan"@
    } else if month == 2 {
        "Feb"@
    } else if month == 3 {
        "Mar"@
    } else if month == 4 {
        "Apr"@
    } else if month == 5 {
        "May"@
    } else if month == 6 {
        "Jun"@
    } else if month == 7 {
        "Jul"@
    } else if month == 8 {
        "Aug"@
    } else if month == 9 {
        "Sep"@
    } else if month == 10 {
        "Oct"@
    } else if month == 11 {
        "Nov"@
    } else if month == 12 {
        "Dec"@
    } else {
        "??"@
    }
}

pub fn month_short_name(month: u32) -> (r: &'static str)
    ensures
        r@ == month_abbreviation(month),
{
    match month {
        1 => "Jan",
        2 => "Feb",
        3 => "Mar",
        4 => "Apr",
        5 => "May",
        6 => "Jun",
        7 => "Jul",
        8 => "Aug",
        9 => "Sep",
        10 => "Oct",
        11 => "Nov",
        12 => "Dec",
        _ => "??",
    }
}

/// What `NaiveDate::parse_from_str(date_str, "%Y-%m-%d")` yields, as the
/// year and month of the date read.
pub uninterp spec fn naive_date_year_month(date_str: Seq<char>) -> Option<(i32, u32)>;

/// Reads `date_str` as a full `YYYY-MM-DD` date with `chrono`'s
/// `NaiveDate::parse_from_str`, and gives its year and month (`Datelike::year`,
/// `Datelike::month`). Trusted: that the outcome is a function of the text
/// alone, and that a month read lies in `1..=12`, as `Datelike::month`
/// documents.
#[verifier::external_body]
fn naive_date_parts(date_str: &str) -> (r: Option<(i32, u32)>)
    ensures
        r == naive_date_year_month(date_str@),
        r matches Some(p) ==> 1 <= p.1 <= 12,
{
    match chrono::NaiveDate::parse_from_str(date_str, "%Y-%m-%d") {
        Ok(date) => Some((date.year(), date.month())),
        Err(_) => None,
    }
}

/// The index of the first `'-'` of `s`, or its length when it has none.
pub open spec fn dash_index(s: Seq<char>) -> int
    decreases s.len(),
{
    if s.len() == 0 || s[0] == '-' {
        0
    } else {
        1 + dash_index(s.drop_first())
    }
}

/// `str::parse::<i32>`: an optional sign, then decimal digits, within range.
pub open spec fn parse_i32(s: Seq<char>) -> Option<i32> {
    if s.len() > 0 && s[0] == '-' {
        match digits_value(s.drop_first()) {
            Some(v) => if v <= 0x8000_0000 {
                Some((-v) as i32)
            } else {
                None
            },
            None => None,
        }
    } else {
        match parse_unsigned(s, i32::MAX as nat) {
            Some(v) => Some(v as i32),
            None => None,
        }
    }
}

/// `str::parse::<u32>`.
pub open spec fn parse_u32(s: Seq<char>) -> Option<u32> {
    match parse_unsigned(s, u32::MAX as nat) {
        Some(v) => Some(v as u32),
        None => None,
    }
}

/// The reading of a date as `YYYY-MM`: split at `'-'`, the first part is the
/// year, the second the month, which must lie in `1..=12`.
pub open spec fn year_month_fallback(s: Seq<char>) -> Option<(i32, u32)> {
    let d = dash_index(s);
    match parse_i32(s.take(d)) {
        None => None,
        Some(y) => if d >= s.len() {
            None
        } else {
            let rest = s.skip(d + 1);
            match parse_u32(rest.take(dash_index(rest))) {
                Some(m) => if 1 <= m <= 12 {
                    Some((y, m))
                } else {
                    None
                },
                None => None,
            }
        },
    }
}

/// The year and month of a date: those of the full date when `chrono` reads
/// one (`parsed`), else those of its `YYYY-MM` prefix.
pub open spec fn year_month_given(parsed: Option<(i32, u32)>, s: Seq<char>) -> Option<(i32, u32)> {
    match parsed {
        Some(p) => Some(p),
        None => year_month_fallback(s),
    }
}

/// The year and month of `s`, as `parse_year_month` reads them.
pub open spec fn year_month_of(s: Seq<char>) -> Option<(i32, u32)> {
    year_month_given(naive_date_year_month(s), s)
}

proof fn lemma_dash_index_bounds(s: Seq<char>)
    ensures
        0 <= dash_index(s) <= s.len(),
        dash_index(s) < s.len() ==> s[dash_index(s)] == '-',
        forall|i: int| 0 <= i < dash_index(s) ==> s[i] != '-',
    decreases s.len(),
{
    if s.len() > 0 && s[0] != '-' {
        lemma_dash_index_bounds(s.drop_first());
        assert forall|i: int| 0 <= i < dash_index(s) implies s[i] != '-' by {
            if i > 0 {
                assert(s[i] == s.drop_first()[i - 1]);
            }
        }
    }
}

/// The first index at or after `from` that holds `'-'`, or the length.
fn find_dash(s: &[char], from: usize) -> (r: usize)
    requires
        from <= s@.len(),
    ensures
        r == from + dash_index(s@.skip(from as int)),
        r <= s@.len(),
{
    let mut i = from;
    while i < s.len() && s[i] != '-'
        invariant
            from <= i <= s@.len(),
            forall|j: int| from <= j < i ==> s@[j] != '-',
        decreases s@.len() - i,
    {
        i = i + 1;
    }
    proof {
        let t = s@.skip(from as int);
        lemma_dash_index_bounds(t);
        let d = dash_index(t);
        if d < i - from {
            assert(t[d] == s@[from + d]);
        }
        if i < s@.len() && d > i - from {
            assert(t[i - from] == s@[i as int]);
        }
    }
    i
}

/// The year and month of a date whose full-date reading was `parsed`: that
/// reading when there is one, else the `YYYY-MM` reading of `date_str`.
pub fn year_month_from(parsed: Option<(i32, u32)>, date_str: &str) -> (r: Option<(i32, u32)>)
    ensures
        r == year_month_given(parsed, date_str@),
{
    if let Some(p) = parsed {
        return Some(p);
    }
    let s = chars_of(date_str);
    let d = find_dash(s.as_slice(), 0);
    proof {
        assert(s@.skip(0) =~= s@);
        lemma_dash_index_bounds(s@);
    }
    let year_part = vstd::slice::slice_subrange(s.as_slice(), 0, d);
    assert(year_part@ =~= s@.take(d as int));
    if year_part.len() > 0 && year_part[0] == '-' {
        assert(false);
        return None;
    }
    let year = match parse_unsigned_chars(year_part, 0x7fff_ffff) {
        Some(v) => v as i32,
        None => {
            return None;
        },
    };
    if d >= s.len() {
        return None;
    }
    let e = find_dash(s.as_slice(), d + 1);
    proof {
        lemma_dash_index_bounds(s@.skip(d + 1));
    }
    let month_part = vstd::slice::slice_subrange(s.as_slice(), d + 1, e);
    proof {
        let rest = s@.skip(d + 1);
        assert(month_part@ =~= rest.take(dash_index(rest)));
    }
    match parse_unsigned_chars(month_part, 0xffff_ffff) {
        Some(m) => {
            if 1 <= m && m <= 12 {
                Some((year, m as u32))
            } else {
                None
            }
        },
        None => None,
    }
}

/// The year and month a date falls in: those of a full `YYYY-MM-DD` date, else
/// those of a `YYYY-MM` prefix with a month in `1..=12`; `None` otherwise.
pub fn parse_year_month(date_str: &str) -> (r: Option<(i32, u32)>)
    ensures
        r == year_month_of(date_str@),
        r matches Some(p) ==> 1 <= p.1 <= 12,
{
    let parsed = naive_date_parts(date_str);
    year_month_from(parsed, date_str)
}

/// Whether an artifact is a bug or a regression.
pub open spec fn is_bug_artifact(a: Artifact) -> bool {
    a.artifact_type matches Some(t) && names_bug(t@)
}

/// Whether artifact `a` passes the filters: created in `month` when one is
/// given, of the given kind (bug or not) when one is given, and covered by a
/// test when `covered` asks for it.
pub open spec fn counts_as(
    a: Artifact,
    cov: Coverage,
    month: Option<(i32, u32)>,
    bug: Option<bool>,
    covered: bool,
) -> bool {
    &&& (month matches Some(ym) ==> year_month_of(a.created_at@) == Some(ym))
    &&& (bug matches Some(b) ==> is_bug_artifact(a) == b)
    &&& (covered ==> cov.dom().contains(a.id@))
}

/// The number of artifacts of `arts` that pass the filters.
pub open spec fn count_where(
    arts: Seq<Artifact>,
    cov: Coverage,
    month: Option<(i32, u32)>,
    bug: Option<bool>,
    covered: bool,
) -> nat
    decreases arts.len(),
{
    if arts.len() == 0 {
        0
    } else {
        count_where(arts.drop_last(), cov, month, bug, covered) + if counts_as(
            arts.last(),
            cov,
            month,
            bug,
            covered,
        ) {
            1nat
        } else {
            0nat
        }
    }
}

/// The number of artifacts over all features that pass the filters.
pub open spec fn count_over(
    fs: Seq<FeatureDocument>,
    cov: Coverage,
    month: Option<(i32, u32)>,
    bug: Option<bool>,
    covered: bool,
) -> nat
    decreases fs.len(),
{
    if fs.len() == 0 {
        0
    } else {
        count_over(fs.drop_last(), cov, month, bug, covered) + count_where(
            fs.last().artifacts@,
            cov,
            month,
            bug,
            covered,
        )
    }
}

/// The number of artifacts over all features.
pub open spec fn artifact_total(fs: Seq<FeatureDocument>) -> nat
    decreases fs.len(),
{
    if fs.len() == 0 {
        0
    } else {
        artifact_total(fs.drop_last()) + fs.last().artifacts@.len()
    }
}

/// The number of features created in month `ym`.
pub open spec fn features_in(fs: Seq<FeatureDocument>, ym: (i32, u32)) -> nat
    decreases fs.len(),
{
    if fs.len() == 0 {
        0
    } else {
        features_in(fs.drop_last(), ym) + if year_month_of(fs.last().feature.created_at@) == Some(
            ym,
        ) {
            1nat
        } else {
            0nat
        }
    }
}

/// Counts of a set of artifacts: all of them, the use cases and the bugs,
/// and of each kind those that a test covers.
#[derive(Debug, Clone, Copy, PartialEq, Eq)]
pub struct ArtifactTally {
    pub artifacts: u32,
    pub use_cases: u32,
    pub covered_use_cases: u32,
    pub bugs: u32,
    pub covered_bugs: u32,
}

/// `t` counts the artifacts of `arts` created in `month` (all of them when
/// `month` is `None`).
pub open spec fn tally_matches(
    t: ArtifactTally,
    arts: Seq<Artifact>,
    cov: Coverage,
    month: Option<(i32, u32)>,
) -> bool {
    &&& t.artifacts == count_where(arts, cov, month, None, false)
    &&& t.use_cases == count_where(arts, cov, month, Some(false), false)
    &&& t.covered_use_cases == count_where(arts, cov, month, Some(false), true)
    &&& t.bugs == count_where(arts, cov, month, Some(true), false)
    &&& t.covered_bugs == count_where(arts, cov, month, Some(true), true)
}

/// `t` counts the artifacts of all features created in `month`.
pub open spec fn tally_over(
    t: ArtifactTally,
    fs: Seq<FeatureDocument>,
    cov: Coverage,
    month: Option<(i32, u32)>,
) -> bool {
    &&& t.artifacts == count_over(fs, cov, month, None, false)
    &&& t.use_cases == count_over(fs, cov, month, Some(false), false)
    &&& t.covered_use_cases == count_over(fs, cov, month, Some(false), true)
    &&& t.bugs == count_over(fs, cov, month, Some(true), false)
    &&& t.covered_bugs == count_over(fs, cov, month, Some(true), true)
}

proof fn lemma_count_where_bound(
    arts: Seq<Artifact>,
    cov: Coverage,
    month: Option<(i32, u32)>,
    bug: Option<bool>,
    covered: bool,
)
    ensures
        count_where(arts, cov, month, bug, covered) <= arts.len(),
    decreases arts.len(),
{
    if arts.len() > 0 {
        lemma_count_where_bound(arts.drop_last(), cov, month, bug, covered);
    }
}

proof fn lemma_count_over_bound(
    fs: Seq<FeatureDocument>,
    cov: Coverage,
    month: Option<(i32, u32)>,
    bug: Option<bool>,
    covered: bool,
)
    ensures
        count_over(fs, cov, month, bug, covered) <= artifact_total(fs),
    decreases fs.len(),
{
    if fs.len() > 0 {
        lemma_count_over_bound(fs.drop_last(), cov, month, bug, covered);
        lemma_count_where_bound(fs.last().artifacts@, cov, month, bug, covered);
    }
}

proof fn lemma_artifact_total_prefix(fs: Seq<FeatureDocument>, k: int)
    requires
        0 <= k <= fs.len(),
    ensures
        artifact_total(fs.take(k)) <= artifact_total(fs),
        k < fs.len() ==> artifact_total(fs.take(k)) + fs[k].artifacts@.len() <= artifact_total(fs),
    decreases fs.len() - k,
{
    if k < fs.len() {
        lemma_artifact_total_prefix(fs, k + 1);
        assert(fs.take(k + 1).drop_last() =~= fs.take(k));
    } else {
        assert(fs.take(k) =~= fs);
    }
}

proof fn lemma_features_in_bound(fs: Seq<FeatureDocument>, ym: (i32, u32))
    ensures
        features_in(fs, ym) <= fs.len(),
    decreases fs.len(),
{
    if fs.len() > 0 {
        lemma_features_in_bound(fs.drop_last(), ym);
    }
}

/// Whether the artifact was created in `month`; always when `month` is `None`.
fn created_in(a: &Artifact, month: Option<(i32, u32)>) -> (r: bool)
    ensures
        r == (month matches Some(ym) ==> year_month_of(a.created_at@) == Some(ym)),
{
    match month {
        None => true,
        Some((y, m)) => match parse_year_month(a.created_at.as_str()) {
            Some((ay, am)) => ay == y && am == m,
            None => false,
        },
    }
}

/// Counts the artifacts of `arts` created in `month`, by kind and coverage.
pub fn tally_artifacts(
    arts: &Vec<Artifact>,
    index: &ArtifactCoverageIndex,
    month: Option<(i32, u32)>,
) -> (r: ArtifactTally)
    requires
        arts@.len() <= u32::MAX,
    ensures
        tally_matches(r, arts@, index@, month),
{
    let mut t = ArtifactTally {
        artifacts: 0,
        use_cases: 0,
        covered_use_cases: 0,
        bugs: 0,
        covered_bugs: 0,
    };
    let mut j: usize = 0;
    while j < arts.len()
        invariant
            j <= arts@.len() <= u32::MAX,
            tally_matches(t, arts@.take(j as int), index@, month),
        decreases arts@.len() - j,
    {
        let ghost prev = arts@.take(j as int);
        let ghost next = arts@.take(j + 1);
        assert(next.drop_last() =~= prev);
        proof {
            lemma_count_where_bound(prev, index@, month, None, false);
            lemma_count_where_bound(prev, index@, month, Some(false), false);
            lemma_count_where_bound(prev, index@, month, Some(false), true);
            lemma_count_where_bound(prev, index@, month, Some(true), false);
            lemma_count_where_bound(prev, index@, month, Some(true), true);
        }
        let a = &arts[j];
        if created_in(a, month) {
            t.artifacts = t.artifacts + 1;
            let covered = index.is_covered(a.id.as_str());
            let kind: Option<&str> = match &a.artifact_type {
                Some(k) => Some(k.as_str()),
                None => None,
            };
            if is_bug(kind) {
                t.bugs = t.bugs + 1;
                if covered {
                    t.covered_bugs = t.covered_bugs + 1;
                }
            } else {
                t.use_cases = t.use_cases + 1;
                if covered {
                    t.covered_use_cases = t.covered_use_cases + 1;
                }
            }
        }
        j = j + 1;
    }
    assert(arts@.take(arts@.len() as int) =~= arts@);
    t
}

/// The features created in month `ym`, and the artifacts created in it.
pub fn month_tally(
    features: &[FeatureDocument],
    index: &ArtifactCoverageIndex,
    year: i32,
    month: u32,
) -> (r: (u32, ArtifactTally))
    requires
        features@.len() <= u32::MAX,
        artifact_total(features@) <= u32::MAX,
    ensures
        r.0 == features_in(features@, (year, month)),
        tally_over(r.1, features@, index@, Some((year, month))),
{
    let ghost ym = (year, month);
    let ghost cov = index@;
    let mut n: u32 = 0;
    let mut t = ArtifactTally {
        artifacts: 0,
        use_cases: 0,
        covered_use_cases: 0,
        bugs: 0,
        covered_bugs: 0,
    };
    let mut k: usize = 0;
    while k < features.len()
        invariant
            k <= features@.len() <= u32::MAX,
            artifact_total(features@) <= u32::MAX,
            ym == (year, month),
            cov == index@,
            n == features_in(features@.take(k as int), ym),
            tally_over(t, features@.take(k as int), cov, Some(ym)),
        decreases features@.len() - k,
    {
        let ghost prev = features@.take(k as int);
        let ghost next = features@.take(k + 1);
        assert(next.drop_last() =~= prev);
        proof {
            lemma_features_in_bound(prev, ym);
            lemma_artifact_total_prefix(features@, k as int);
            lemma_artifact_total_prefix(features@, k + 1);
            lemma_count_over_bound(next, cov, Some(ym), None, false);
            lemma_count_over_bound(next, cov, Some(ym), Some(false), false);
            lemma_count_over_bound(next, cov, Some(ym), Some(false), true);
            lemma_count_over_bound(next, cov, Some(ym), Some(true), false);
            lemma_count_over_bound(next, cov, Some(ym), Some(true), true);
        }
        let f = &features[k];
        match parse_year_month(f.feature.created_at.as_str()) {
            Some((fy, fm)) => {
                if fy == year && fm == month {
                    n = n + 1;
                }
            },
            None => {},
        }
        let a = tally_artifacts(&f.artifacts, index, Some((year, month)));
        t = ArtifactTally {
            artifacts: t.artifacts + a.artifacts,
            use_cases: t.use_cases + a.use_cases,
            covered_use_cases: t.covered_use_cases + a.covered_use_cases,
            bugs: t.bugs + a.bugs,
            covered_bugs: t.covered_bugs + a.covered_bugs,
        };
        k = k + 1;
    }
    assert(features@.take(features@.len() as int) =~= features@);
    (n, t)
}

/// The year and month of column `idx` of a growth chart whose last column is
/// month `now_month` of `now_year`: column 0 is eleven months earlier.
pub open spec fn column_month(now_year: i32, now_month: u32, idx: int) -> (i32, u32) {
    let t = now_year * 12 + (now_month - 1) - 11 + idx;
    ((t / 12) as i32, (t % 12 + 1) as u32)
}

/// Per month, over twelve months: the name of the month, the features
/// created in it, and the artifacts created in it by kind and coverage.
#[derive(Debug, Clone, PartialEq, Eq)]
pub struct GrowthData {
    pub months: Vec<String>,
    pub features: Vec<u32>,
    pub use_cases: Vec<u32>,
    pub bugs: Vec<u32>,
    pub artifacts: Vec<u32>,
    pub covered_use_cases: Vec<u32>,
    pub covered_bugs: Vec<u32>,
}

/// Column `i` of `g` describes month `ym`.
pub open spec fn growth_column(
    g: GrowthData,
    fs: Seq<FeatureDocument>,
    cov: Coverage,
    ym: (i32, u32),
    i: int,
) -> bool {
    &&& g.months@[i]@ == month_abbreviation(ym.1)
    &&& g.features@[i] == features_in(fs, ym)
    &&& g.artifacts@[i] == count_over(fs, cov, Some(ym), None, false)
    &&& g.use_cases@[i] == count_over(fs, cov, Some(ym), Some(false), false)
    &&& g.covered_use_cases@[i] == count_over(fs, cov, Some(ym), Some(false), true)
    &&& g.bugs@[i] == count_over(fs, cov, Some(ym), Some(true), false)
    &&& g.covered_bugs@[i] == count_over(fs, cov, Some(ym), Some(true), true)
}

/// `g` is the growth chart of the twelve months that end in month
/// `now_month` of `now_year`.
pub open spec fn growth_matches(
    g: GrowthData,
    fs: Seq<FeatureDocument>,
    cov: Coverage,
    now_year: i32,
    now_month: u32,
) -> bool {
    &&& g.months@.len() == 12
    &&& g.features@.len() == 12
    &&& g.use_cases@.len() == 12
    &&& g.bugs@.len() == 12
    &&& g.artifacts@.len() == 12
    &&& g.covered_use_cases@.len() == 12
    &&& g.covered_bugs@.len() == 12
    &&& forall|i: int|
        0 <= i < 12 ==> #[trigger] growth_column(g, fs, cov, column_month(now_year, now_month, i), i)
}

proof fn lemma_month_of_index(y: int, m: int)
    requires
        1 <= m <= 12,
    ensures
        (y * 12 + (m - 1)) / 12 == y,
        (y * 12 + (m - 1)) % 12 == m - 1,
{
    vstd::arithmetic::div_mod::lemma_fundamental_div_mod_converse(y * 12 + (m - 1), 12, y, m - 1);
}

/// The growth chart of the twelve months that end in month `now_month` of
/// `now_year` (the current month, which the caller reads from the clock).
pub fn build_growth_data(
    features: &[FeatureDocument],
    index: &ArtifactCoverageIndex,
    now_year: i32,
    now_month: u32,
) -> (r: GrowthData)
    requires
        1 <= now_month <= 12,
        i32::MIN < now_year < i32::MAX,
        features@.len() <= u32::MAX,
        artifact_total(features@) <= u32::MAX,
    ensures
        growth_matches(r, features@, index@, now_year, now_month),
{
    let mut start_year = now_year;
    let mut start_month = now_month;
    let mut back: usize = 0;
    while back < 11
        invariant
            back <= 11,
            1 <= start_month <= 12,
            i32::MIN < now_year < i32::MAX,
            now_year - 1 <= start_year <= now_year,
            start_year * 12 + (start_month - 1) == now_year * 12 + (now_month - 1) - back,
        decreases 11 - back,
    {
        if start_month == 1 {
            start_month = 12;
            start_year = start_year - 1;
        } else {
            start_month = start_month - 1;
        }
        back = back + 1;
    }
    let mut g = GrowthData {
        months: Vec::new(),
        features: Vec::new(),
        use_cases: Vec::new(),
        bugs: Vec::new(),
        artifacts: Vec::new(),
        covered_use_cases: Vec::new(),
        covered_bugs: Vec::new(),
    };
    let mut y = start_year;
    let mut m = start_month;
    let mut idx: usize = 0;
    while idx < 12
        invariant
            idx <= 12,
            1 <= m <= 12,
            1 <= now_month <= 12,
            i32::MIN < now_year < i32::MAX,
            now_year - 1 <= y <= now_year + 1,
            y * 12 + (m - 1) == now_year * 12 + (now_month - 1) - 11 + idx,
            features@.len() <= u32::MAX,
            artifact_total(features@) <= u32::MAX,
            g.months@.len() == idx,
            g.features@.len() == idx,
            g.use_cases@.len() == idx,
            g.bugs@.len() == idx,
            g.artifacts@.len() == idx,
            g.covered_use_cases@.len() == idx,
            g.covered_bugs@.len() == idx,
            forall|i: int|
                0 <= i < idx ==> #[trigger] growth_column(
                    g,
                    features@,
                    index@,
                    column_month(now_year, now_month, i),
                    i,
                ),
        decreases 12 - idx,
    {
        proof {
            lemma_month_of_index(y as int, m as int);
        }
        assert(y <= now_year) by (nonlinear_arith)
            requires
                y * 12 + (m - 1) == now_year * 12 + (now_month - 1) - 11 + idx,
                idx < 12,
                1 <= m,
                now_month <= 12,
        ;
        assert(column_month(now_year, now_month, idx as int) == (y, m));
        let ghost old_g = g;
        let (nf, t) = month_tally(features, index, y, m);
        g.months.push(crate::text::owned(month_short_name(m)));
        g.features.push(nf);
        g.use_cases.push(t.use_cases);
        g.bugs.push(t.bugs);
        g.artifacts.push(t.artifacts);
        g.covered_use_cases.push(t.covered_use_cases);
        g.covered_bugs.push(t.covered_bugs);
        assert forall|i: int| 0 <= i <= idx implies #[trigger] growth_column(
            g,
            features@,
            index@,
            column_month(now_year, now_month, i),
            i,
        ) by {
            if i < idx {
                assert(growth_column(
                    old_g,
                    features@,
                    index@,
                    column_month(now_year, now_month, i),
                    i,
                ));
            }
        }
        if m == 12 {
            m = 1;
            y = y + 1;
        } else {
            m = m + 1;
        }
        idx = idx + 1;
    }
    g
}

fn clone_strings(v: &Vec<String>) -> (r: Vec<String>)
    ensures
        r@ == v@,
{
    let mut out: Vec<String> = Vec::new();
    let mut k: usize = 0;
    while k < v.len()
        invariant
            k <= v@.len(),
            out@ == v@.take(k as int),
        decreases v@.len() - k,
    {
        out.push(v[k].clone());
        k = k + 1;
        assert(out@ =~= v@.take(k as int));
    }
    assert(v@.take(v@.len() as int) =~= v@);
    out
}

fn clone_text(o: &Option<String>) -> (r: Option<String>)
    ensures
        r == *o,
{
    match o {
        Some(s) => Some(s.clone()),
        None => None,
    }
}

fn clone_locations(s: &[ArtifactTestLocation]) -> (r: Vec<ArtifactTestLocation>)
    ensures
        r@ == s@,
{
    let mut out: Vec<ArtifactTestLocation> = Vec::new();
    let mut k: usize = 0;
    while k < s.len()
        invariant
            k <= s@.len(),
            out@ == s@.take(k as int),
        decreases s@.len() - k,
    {
        out.push(ArtifactTestLocation { file_path: s[k].file_path.clone(), line: s[k].line });
        k = k + 1;
        assert(out@ =~= s@.take(k as int));
    }
    assert(s@.take(s@.len() as int) =~= s@);
    out
}

/// An artifact as the report lists it.
#[derive(Debug, Clone, PartialEq, Eq)]
pub struct ArtifactRow {
    pub id: String,
    pub title: String,
    pub created_at: String,
    pub updated_at: Option<String>,
    pub artifact_type: String,
    pub priority: Priority,
    pub is_covered: bool,
    pub coverage_locations: Vec<ArtifactTestLocation>,
    pub steps: Vec<String>,
    pub expected: Vec<String>,
    pub platforms: Vec<String>,
    pub tags: Vec<String>,
    pub coverage_gap_reason: Option<String>,
}

/// `r` lists artifact `a`: its fields, its type (`"usecase"` when it has
/// none), whether a test covers it and the locations of those tests.
pub open spec fn artifact_row_of(r: ArtifactRow, a: Artifact, cov: Coverage) -> bool {
    &&& r.id == a.id
    &&& r.title == a.title
    &&& r.created_at == a.created_at
    &&& r.updated_at == a.updated_at
    &&& r.artifact_type@ == match a.artifact_type {
        Some(t) => t@,
        None => "usecase"@,
    }
    &&& r.priority == a.priority
    &&& r.is_covered == cov.dom().contains(a.id@)
    &&& locations_view(r.coverage_locations@) == locations_for(cov, a.id@)
    &&& r.steps@ == a.steps@
    &&& r.expected@ == a.expected@
    &&& r.platforms@ == a.platforms@
    &&& r.tags@ == a.tags@
    &&& r.coverage_gap_reason == a.coverage_gap_reason
}

pub fn artifact_row(a: &Artifact, index: &ArtifactCoverageIndex) -> (r: ArtifactRow)
    ensures
        artifact_row_of(r, *a, index@),
{
    let artifact_type = match &a.artifact_type {
        Some(t) => t.clone(),
        None => crate::text::owned("usecase"),
    };
    let is_covered = index.is_covered(a.id.as_str());
    let coverage_locations = clone_locations(index.for_artifact(a.id.as_str()));
    ArtifactRow {
        id: a.id.clone(),
        title: a.title.clone(),
        created_at: a.created_at.clone(),
        updated_at: clone_text(&a.updated_at),
        artifact_type,
        priority: a.priority,
        is_covered,
        coverage_locations,
        steps: clone_strings(&a.steps),
        expected: clone_strings(&a.expected),
        platforms: clone_strings(&a.platforms),
        tags: clone_strings(&a.tags),
        coverage_gap_reason: clone_text(&a.coverage_gap_reason),
    }
}

/// A feature as the report lists it, with the counts of its use cases and
/// bugs.
#[derive(Debug, Clone, PartialEq, Eq)]
pub struct FeatureRow {
    pub id: String,
    pub title: String,
    pub description: String,
    pub created_at: String,
    pub updated_at: String,
    pub use_cases: u32,
    pub use_cases_covered: u32,
    pub bugs: u32,
    pub bugs_covered: u32,
    pub platforms: Vec<String>,
    pub artifacts: Vec<ArtifactRow>,
}

/// `r` lists feature `f`: its fields (no update date reads as empty), the
/// counts of its use cases and bugs, covered or not, and a row per artifact.
pub open spec fn feature_row_of(r: FeatureRow, f: FeatureDocument, cov: Coverage) -> bool {
    &&& r.id == f.feature.id
    &&& r.title == f.feature.title
    &&& r.description == f.feature.description
    &&& r.created_at == f.feature.created_at
    &&& r.updated_at@ == match f.feature.updated_at {
        Some(u) => u@,
        None => Seq::empty(),
    }
    &&& r.use_cases == count_where(f.artifacts@, cov, None, Some(false), false)
    &&& r.use_cases_covered == count_where(f.artifacts@, cov, None, Some(false), true)
    &&& r.bugs == count_where(f.artifacts@, cov, None, Some(true), false)
    &&& r.bugs_covered == count_where(f.artifacts@, cov, None, Some(true), true)
    &&& r.platforms@ == f.platforms@
    &&& r.artifacts@.len() == f.artifacts@.len()
    &&& forall|j: int|
        0 <= j < r.artifacts@.len() ==> #[trigger] artifact_row_of(
            r.artifacts@[j],
            f.artifacts@[j],
            cov,
        )
}

pub fn feature_row(f: &FeatureDocument, index: &ArtifactCoverageIndex) -> (r: FeatureRow)
    requires
        f.artifacts@.len() <= u32::MAX,
    ensures
        feature_row_of(r, *f, index@),
{
    let t = tally_artifacts(&f.artifacts, index, None);
    let mut artifacts: Vec<ArtifactRow> = Vec::new();
    let mut j: usize = 0;
    while j < f.artifacts.len()
        invariant
            j <= f.artifacts@.len(),
            artifacts@.len() == j,
            forall|i: int|
                0 <= i < j ==> #[trigger] artifact_row_of(
                    artifacts@[i],
                    f.artifacts@[i],
                    index@,
                ),
        decreases f.artifacts@.len() - j,
    {
        artifacts.push(artifact_row(&f.artifacts[j], index));
        j = j + 1;
    }
    let updated_at = match &f.feature.updated_at {
        Some(u) => u.clone(),
        None => String::new(),
    };
    FeatureRow {
        id: f.feature.id.clone(),
        title: f.feature.title.clone(),
        description: f.feature.description.clone(),
        created_at: f.feature.created_at.clone(),
        updated_at,
        use_cases: t.use_cases,
        use_cases_covered: t.covered_use_cases,
        bugs: t.bugs,
        bugs_covered: t.covered_bugs,
        platforms: clone_strings(&f.platforms),
        artifacts,
    }
}

/// A lint failure as the report lists it.
#[derive(Debug, Clone, PartialEq, Eq)]
pub struct LintIssueRow {
    pub file: String,
    pub message: String,
    pub line: Option<usize>,
    pub column: Option<usize>,
    pub suggestion: Option<String>,
}

/// `r` lists the failed lint `res`: its file and, when it has an issue, the
/// issue's message, location and hint (an empty message otherwise).
pub open spec fn lint_row_of(r: LintIssueRow, res: UccLintResult) -> bool {
    &&& r.file == res.file_path
    &&& match res.issue {
        Some(i) => {
            &&& r.message == i.message
            &&& r.line == i.line
            &&& r.column == i.column
            &&& r.suggestion == i.suggestion
        },
        None => {
            &&& r.message@ == Seq::<char>::empty()
            &&& r.line is None
            &&& r.column is None
            &&& r.suggestion is None
        },
    }
}

/// The results that are not valid, in order.
pub open spec fn invalid_results(rs: Seq<UccLintResult>) -> Seq<UccLintResult>
    decreases rs.len(),
{
    if rs.len() == 0 {
        seq![]
    } else {
        invalid_results(rs.drop_last()) + if rs.last().is_valid {
            Seq::<UccLintResult>::empty()
        } else {
            seq![rs.last()]
        }
    }
}

/// The number of valid results.
pub open spec fn valid_count(rs: Seq<UccLintResult>) -> nat
    decreases rs.len(),
{
    if rs.len() == 0 {
        0
    } else {
        valid_count(rs.drop_last()) + if rs.last().is_valid {
            1nat
        } else {
            0nat
        }
    }
}

pub(crate) proof fn lemma_valid_count_bound(rs: Seq<UccLintResult>)
    ensures
        valid_count(rs) <= rs.len(),
        valid_count(rs) + invalid_results(rs).len() == rs.len(),
    decreases rs.len(),
{
    if rs.len() > 0 {
        lemma_valid_count_bound(rs.drop_last());
    }
}

/// A row per lint result that is not valid, in order.
pub fn lint_issue_rows(lint_results: &[UccLintResult]) -> (r: Vec<LintIssueRow>)
    ensures
        r@.len() == invalid_results(lint_results@).len(),
        forall|i: int|
            0 <= i < r@.len() ==> #[trigger] lint_row_of(r@[i], invalid_results(lint_results@)[i]),
{
    let mut rows: Vec<LintIssueRow> = Vec::new();
    let mut k: usize = 0;
    while k < lint_results.len()
        invariant
            k <= lint_results@.len(),
            rows@.len() == invalid_results(lint_results@.take(k as int)).len(),
            forall|i: int|
                0 <= i < rows@.len() ==> #[trigger] lint_row_of(
                    rows@[i],
                    invalid_results(lint_results@.take(k as int))[i],
                ),
        decreases lint_results@.len() - k,
    {
        let ghost prev = lint_results@.take(k as int);
        let ghost next = lint_results@.take(k + 1);
        assert(next.drop_last() =~= prev);
        let res = &lint_results[k];
        if !res.is_valid {
            let row = match &res.issue {
                Some(issue) => LintIssueRow {
                    file: res.file_path.clone(),
                    message: issue.message.clone(),
                    line: issue.line,
                    column: issue.column,
                    suggestion: clone_text(&issue.suggestion),
                },
                None => LintIssueRow {
                    file: res.file_path.clone(),
                    message: String::new(),
                    line: None,
                    column: None,
                    suggestion: None,
                },
            };
            rows.push(row);
        }
        k = k + 1;
        assert forall|i: int| 0 <= i < rows@.len() implies #[trigger] lint_row_of(
            rows@[i],
            invalid_results(next)[i],
        ) by {
            assert(invalid_results(next)[i] == if i < invalid_results(prev).len() {
                invalid_results(prev)[i]
            } else {
                lint_results@[k - 1]
            });
        }
    }
    assert(lint_results@.take(lint_results@.len() as int) =~= lint_results@);
    rows
}

/// The headline figures of the report.
#[derive(Debug, Clone, Copy, PartialEq, Eq)]
pub struct ReportSummary {
    pub total_features: usize,
    pub total_use_cases: u32,
    pub covered_use_cases: u32,
    pub total_bugs: u32,
    pub covered_bugs: u32,
    pub valid_ucc_files: usize,
    pub invalid_ucc_files: usize,
}

/// Everything the report shows, but for the coverage percentages.
#[derive(Debug, Clone, PartialEq, Eq)]
pub struct ReportData {
    pub summary: ReportSummary,
    pub features: Vec<FeatureRow>,
    pub lint_issues: Vec<LintIssueRow>,
    pub growth: GrowthData,
}

/// `s` sums up the features and lint results: the number of features, use
/// cases and bugs over all of them, covered or not, and the valid and
/// invalid files.
pub open spec fn summary_of(
    s: ReportSummary,
    fs: Seq<FeatureDocument>,
    rs: Seq<UccLintResult>,
    cov: Coverage,
) -> bool {
    &&& s.total_features == fs.len()
    &&& s.total_use_cases == count_over(fs, cov, None, Some(false), false)
    &&& s.covered_use_cases == count_over(fs, cov, None, Some(false), true)
    &&& s.total_bugs == count_over(fs, cov, None, Some(true), false)
    &&& s.covered_bugs == count_over(fs, cov, None, Some(true), true)
    &&& s.valid_ucc_files == valid_count(rs)
    &&& s.invalid_ucc_files == rs.len() - valid_count(rs)
}

/// `d` is the report of the features, lint results and coverage index,
/// with the growth chart of the twelve months ending in the given month.
pub open spec fn report_matches(
    d: ReportData,
    fs: Seq<FeatureDocument>,
    rs: Seq<UccLintResult>,
    cov: Coverage,
    now_year: i32,
    now_month: u32,
) -> bool {
    &&& summary_of(d.summary, fs, rs, cov)
    &&& d.features@.len() == fs.len()
    &&& forall|i: int| 0 <= i < fs.len() ==> #[trigger] feature_row_of(d.features@[i], fs[i], cov)
    &&& d.lint_issues@.len() == invalid_results(rs).len()
    &&& forall|i: int|
        0 <= i < d.lint_issues@.len() ==> #[trigger] lint_row_of(
            d.lint_issues@[i],
            invalid_results(rs)[i],
        )
    &&& growth_matches(d.growth, fs, cov, now_year, now_month)
}

/// The figures of the report: summary, one row per feature, one per failed
/// lint, and the growth chart of the twelve months ending in month
/// `now_month` of `now_year` (the current month, which the caller reads from
/// the clock).
pub fn build_report_data(
    features: &[FeatureDocument],
    lint_results: &[UccLintResult],
    index: &ArtifactCoverageIndex,
    now_year: i32,
    now_month: u32,
) -> (r: ReportData)
    requires
        features@.len() <= u32::MAX,
        artifact_total(features@) <= u32::MAX,
        1 <= now_month <= 12,
        i32::MIN < now_year < i32::MAX,
    ensures
        report_matches(r, features@, lint_results@, index@, now_year, now_month),
{
    let ghost cov = index@;
    let mut total_use_cases: u32 = 0;
    let mut total_use_cases_covered: u32 = 0;
    let mut total_bugs: u32 = 0;
    let mut total_bugs_covered: u32 = 0;
    let mut rows: Vec<FeatureRow> = Vec::new();
    let mut k: usize = 0;
    while k < features.len()
        invariant
            k <= features@.len() <= u32::MAX,
            artifact_total(features@) <= u32::MAX,
            cov == index@,
            total_use_cases == count_over(features@.take(k as int), cov, None, Some(false), false),
            total_use_cases_covered == count_over(
                features@.take(k as int),
                cov,
                None,
                Some(false),
                true,
            ),
            total_bugs == count_over(features@.take(k as int), cov, None, Some(true), false),
            total_bugs_covered == count_over(features@.take(k as int), cov, None, Some(true), true),
            rows@.len() == k,
            forall|i: int| 0 <= i < k ==> #[trigger] feature_row_of(rows@[i], features@[i], cov),
        decreases features@.len() - k,
    {
        let ghost prev = features@.take(k as int);
        let ghost next = features@.take(k + 1);
        assert(next.drop_last() =~= prev);
        proof {
            lemma_artifact_total_prefix(features@, k as int);
            lemma_artifact_total_prefix(features@, k + 1);
            lemma_count_over_bound(next, cov, None, Some(false), false);
            lemma_count_over_bound(next, cov, None, Some(false), true);
            lemma_count_over_bound(next, cov, None, Some(true), false);
            lemma_count_over_bound(next, cov, None, Some(true), true);
        }
        let row = feature_row(&features[k], index);
        total_use_cases = total_use_cases + row.use_cases;
        total_use_cases_covered = total_use_cases_covered + row.use_cases_covered;
        total_bugs = total_bugs + row.bugs;
        total_bugs_covered = total_bugs_covered + row.bugs_covered;
        rows.push(row);
        k = k + 1;
    }
    assert(features@.take(features@.len() as int) =~= features@);
    let lint_issues = lint_issue_rows(lint_results);
    let mut valid: usize = 0;
    let mut k: usize = 0;
    while k < lint_results.len()
        invariant
            k <= lint_results@.len(),
            valid == valid_count(lint_results@.take(k as int)),
        decreases lint_results@.len() - k,
    {
        let ghost prev = lint_results@.take(k as int);
        assert(lint_results@.take(k + 1).drop_last() =~= prev);
        proof {
            lemma_valid_count_bound(prev);
        }
        if lint_results[k].is_valid {
            valid = valid + 1;
        }
        k = k + 1;
    }
    assert(lint_results@.take(lint_results@.len() as int) =~= lint_results@);
    proof {
        lemma_valid_count_bound(lint_results@);
    }
    let summary = ReportSummary {
        total_features: features.len(),
        total_use_cases,
        covered_use_cases: total_use_cases_covered,
        total_bugs,
        covered_bugs: total_bugs_covered,
        valid_ucc_files: valid,
        invalid_ucc_files: lint_results.len() - valid,
    };
    let growth = build_growth_data(features, index, now_year, now_month);
    ReportData { summary, features: rows, lint_issues, growth }
}

} // verus!
