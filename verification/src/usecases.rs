//! The use cases: collecting features, linting `.ucc` files, and finding the
//! tests that cover artifacts. Each reads through the traits of `ports` and
//! hands what it read to the verified functions that do the work.
use vstd::prelude::*;

use crate::coverage::{
    all_references, build_coverage_index, indexes, references_to, scan_test_file, scanned,
};
use crate::domain::{
    ArtifactCoverageIndex, ArtifactTestLocation, Coverage, FeatureDocument, UccLintResult,
};
use crate::lint::{lint_parsed_files, lint_result_for, no_io, ParsedFile};
use crate::matcher::{matcher_for, strings_view, ArtifactIdMatcher};
use crate::paths::{
    deduplicate_roots, flatten_views, merge_paths, minimal_roots, strictly_sorted_paths, views,
};
use crate::ports::{CoreError, TestFileRepository, UccFileRepository, UccParser};

verus! {

/// The roots as a list.
fn roots_vec(roots: &[String]) -> (r: Vec<String>)
    ensures
        views(r@) == views(roots@),
{
    let mut out: Vec<String> = Vec::new();
    let mut k: usize = 0;
    while k < roots.len()
        invariant
            k <= roots@.len(),
            views(out@) == views(roots@.take(k as int)),
        decreases roots@.len() - k,
    {
        let ghost before = out@;
        let c = roots[k].clone();
        assert(c@ == roots@[k as int]@);
        out.push(c);
        assert(views(out@) =~= views(before).push(c@));
        assert(roots@.take(k + 1) =~= roots@.take(k as int).push(roots@[k as int]));
        assert(views(roots@.take(k + 1)) =~= views(roots@.take(k as int)).push(c@));
        k = k + 1;
    }
    assert(roots@.take(roots@.len() as int) =~= roots@);
    out
}

/// The `.ucc` files under the roots, once each, in path order.
fn find_all_ucc_files<R: UccFileRepository>(repository: &R, roots: &[String], recursive: bool) -> (r:
    Result<Vec<String>, CoreError>)
    ensures
        r matches Ok(paths) ==> strictly_sorted_paths(views(paths@)),
        roots@.len() == 0 ==> (r matches Ok(paths) && paths@.len() == 0),
{
    let kept = deduplicate_roots(&roots_vec(roots));
    proof {
        lemma_no_roots_kept(views(kept@), views(roots@));
    }
    let mut found: Vec<Vec<String>> = Vec::new();
    let mut k: usize = 0;
    while k < kept.len()
        invariant
            k <= kept@.len(),
            found@.len() == k,
            roots@.len() == 0 ==> kept@.len() == 0,
        decreases kept@.len() - k,
    {
        let paths = repository.find_ucc_files(kept[k].as_str(), recursive)?;
        found.push(paths);
        k = k + 1;
    }
    let merged = merge_paths(&found);
    proof {
        if roots@.len() == 0 {
            assert(found@.len() == 0);
            assert(flatten_views(found@) =~= Seq::<Seq<char>>::empty());
            if merged@.len() > 0 {
                assert(flatten_views(found@).contains(views(merged@)[0]));
            }
        }
    }
    Ok(merged)
}

/// Deduplicating no roots keeps none.
proof fn lemma_no_roots_kept(kept: Seq<Seq<char>>, given: Seq<Seq<char>>)
    requires
        minimal_roots(kept, given),
    ensures
        given.len() == 0 ==> kept.len() == 0,
{
    if given.len() == 0 && kept.len() > 0 {
        assert(given.contains(kept[0]));
    }
}

/// The paths of parsed files.
pub open spec fn parsed_paths(ps: Seq<ParsedFile>) -> Seq<Seq<char>> {
    ps.map_values(|p: ParsedFile| p.0@)
}

/// `rs` is the lint of the files `ps`, read and parsed in path order, each
/// once (see `lint_parsed_files`).
pub open spec fn lints(ps: Seq<ParsedFile>, rs: Seq<UccLintResult>) -> bool {
    &&& strictly_sorted_paths(parsed_paths(ps))
    &&& no_io(ps)
    &&& rs.len() == ps.len()
    &&& forall|k: int| 0 <= k < rs.len() ==> lint_result_for(ps, k, #[trigger] rs[k])
}

/// `m` is the matcher of `features`, `files` the test files in path order,
/// each once, `contents` their lines, `per_file` what the scan of each found,
/// and `index` groups all of it by artifact id.
pub open spec fn covers(
    index: Coverage,
    features: Seq<FeatureDocument>,
    m: ArtifactIdMatcher,
    files: Seq<Seq<char>>,
    contents: Seq<Seq<Seq<char>>>,
    per_file: Seq<Vec<(String, ArtifactTestLocation)>>,
) -> bool {
    &&& matcher_for(m, features)
    &&& strictly_sorted_paths(files)
    &&& contents.len() == files.len()
    &&& per_file.len() == files.len()
    &&& forall|i: int|
        0 <= i < files.len() ==> scanned(m, files[i], contents[i], #[trigger] per_file[i]@)
    &&& indexes(index, all_references(per_file))
}

/// Entry `k` holds the first file that could not be parsed.
pub open spec fn first_failure_at(ps: Seq<ParsedFile>, k: int) -> bool {
    &&& 0 <= k < ps.len()
    &&& ps[k].1 is Err
    &&& forall|j: int| 0 <= j < k ==> (#[trigger] ps[j]).1 is Ok
}

/// The documents of the parsed files, in order, when every file parsed;
/// otherwise the error of the first that did not.
pub fn collect_parsed(parsed: Vec<ParsedFile>) -> (r: Result<Vec<FeatureDocument>, CoreError>)
    ensures
        r is Ok <==> forall|i: int| 0 <= i < parsed@.len() ==> (#[trigger] parsed@[i]).1 is Ok,
        r matches Ok(docs) ==> docs@.len() == parsed@.len() && forall|i: int|
            0 <= i < parsed@.len() ==> (#[trigger] parsed@[i]).1 == Ok::<
                FeatureDocument,
                CoreError,
            >(docs@[i]),
        r matches Err(e) ==> exists|k: int|
            #[trigger] first_failure_at(parsed@, k) && parsed@[k].1 == Err::<
                FeatureDocument,
                CoreError,
            >(e),
{
    let ghost ps = parsed@;
    let mut docs: Vec<FeatureDocument> = Vec::new();
    for entry in it: parsed.into_iter()
        invariant
            it.seq() == ps,
            docs@.len() == it.index(),
            forall|j: int|
                0 <= j < it.index() ==> (#[trigger] ps[j]).1 == Ok::<FeatureDocument, CoreError>(
                    docs@[j],
                ),
    {
        let ghost i = it.index();
        assert(entry == ps[i]);
        match entry.1 {
            Ok(doc) => {
                docs.push(doc);
            },
            Err(e) => {
                assert(first_failure_at(ps, i));
                return Err(e);
            },
        }
    }
    Ok(docs)
}

/// `docs` are the documents of the files `ps`, read and parsed in path
/// order, each once, every one of which parsed.
pub open spec fn collects(ps: Seq<ParsedFile>, docs: Seq<FeatureDocument>) -> bool {
    &&& strictly_sorted_paths(parsed_paths(ps))
    &&& docs.len() == ps.len()
    &&& forall|i: int|
        0 <= i < ps.len() ==> (#[trigger] ps[i]).1 == Ok::<FeatureDocument, CoreError>(docs[i])
}

/// Discovers and parses all `.ucc` files under a set of roots.
pub struct CollectFeaturesUseCase<R, P> {
    pub repository: R,
    pub parser: P,
}

impl<R: UccFileRepository, P: UccParser> CollectFeaturesUseCase<R, P> {
    pub fn new(repository: R, parser: P) -> (r: Self)
        ensures
            r.repository == repository,
            r.parser == parser,
    {
        CollectFeaturesUseCase { repository, parser }
    }

    /// The documents of the `.ucc` files under `roots` (under their
    /// subdirectories too when `recursive`), one per distinct file, in path
    /// order; the first error in discovering, reading or parsing a file
    /// otherwise.
    pub fn execute(&self, roots: &[String], recursive: bool) -> (r: Result<
        Vec<FeatureDocument>,
        CoreError,
    >)
        ensures
            roots@.len() == 0 ==> (r matches Ok(docs) && docs@.len() == 0),
            r matches Ok(docs) ==> exists|ps: Seq<ParsedFile>| #[trigger] collects(ps, docs@),
    {
        let paths = find_all_ucc_files(&self.repository, roots, recursive)?;
        let mut parsed: Vec<ParsedFile> = Vec::new();
        let mut failed = false;
        let mut k: usize = 0;
        while k < paths.len() && !failed
            invariant
                k <= paths@.len(),
                parsed@.len() == k,
                parsed_paths(parsed@) == views(paths@).take(k as int),
                roots@.len() == 0 ==> paths@.len() == 0,
            decreases paths@.len() - k,
        {
            let path = paths[k].as_str();
            let content = self.repository.read_file(path)?;
            let res = self.parser.parse(path, content.as_str());
            failed = res.is_err();
            let ghost before = parsed@;
            parsed.push((paths[k].clone(), res));
            assert(parsed_paths(parsed@) =~= parsed_paths(before).push(paths@[k as int]@));
            k = k + 1;
            assert(views(paths@).take(k as int) =~= views(paths@).take(k - 1).push(
                paths@[k - 1]@,
            ));
        }
        let ghost ps = parsed@;
        proof {
            let pp = parsed_paths(ps);
            assert forall|i: int, j: int| 0 <= i < j < pp.len() implies crate::paths::path_lt(
                #[trigger] pp[i],
                #[trigger] pp[j],
            ) by {
                assert(pp[i] == views(paths@)[i] && pp[j] == views(paths@)[j]);
            }
        }
        let r = collect_parsed(parsed);
        if let Ok(docs) = &r {
            assert(collects(ps, docs@));
        }
        proof {
            if roots@.len() == 0 {
                assert(ps.len() == 0);
            }
        }
        r
    }
}

/// Validates the format of all discovered `.ucc` files.
pub struct LintUccFormatsUseCase<R, P> {
    pub repository: R,
    pub parser: P,
}

impl<R: UccFileRepository, P: UccParser> LintUccFormatsUseCase<R, P> {
    pub fn new(repository: R, parser: P) -> (r: Self)
        ensures
            r.repository == repository,
            r.parser == parser,
    {
        LintUccFormatsUseCase { repository, parser }
    }

    /// One verdict per `.ucc` file under `roots`, in path order (see
    /// `lint_parsed_files`); the first error in discovering or reading a file
    /// otherwise.
    pub fn execute(&self, roots: &[String], recursive: bool) -> (r: Result<
        Vec<UccLintResult>,
        CoreError,
    >)
        ensures
            r matches Ok(results) ==> exists|parsed: Seq<ParsedFile>|
                #[trigger] lints(parsed, results@),
            roots@.len() == 0 ==> (r matches Ok(results) && results@.len() == 0),
    {
        let paths = find_all_ucc_files(&self.repository, roots, recursive)?;
        let mut parsed: Vec<ParsedFile> = Vec::new();
        let mut k: usize = 0;
        while k < paths.len()
            invariant
                k <= paths@.len(),
                parsed@.len() == k,
                roots@.len() == 0 ==> paths@.len() == 0,
                forall|j: int| 0 <= j < k ==> (#[trigger] parsed@[j]).0@ == paths@[j]@,
            decreases paths@.len() - k,
        {
            let path = paths[k].as_str();
            let content = self.repository.read_file(path)?;
            let res = self.parser.parse(path, content.as_str());
            parsed.push((paths[k].clone(), res));
            k = k + 1;
        }
        assert(parsed_paths(parsed@) =~= views(paths@));
        let ghost ps = parsed@;
        assert(paths@.len() == 0 ==> no_io(ps));
        let r = lint_parsed_files(parsed);
        if let Ok(results) = &r {
            assert(lints(ps, results@));
        }
        r
    }
}

/// Searches automated tests for references to artifacts.
pub struct FindArtifactCoverageUseCase<R> {
    pub repository: R,
}

impl<R: TestFileRepository> FindArtifactCoverageUseCase<R> {
    pub fn new(repository: R) -> (r: Self)
        ensures
            r.repository == repository,
    {
        FindArtifactCoverageUseCase { repository }
    }

    /// The index of the references to the artifacts of `features` in the test
    /// files under `roots`; each distinct file is scanned once (see
    /// `scan_test_file` and `build_coverage_index`). The first error in
    /// discovering or reading a file otherwise.
    pub fn execute(&self, roots: &[String], features: &[FeatureDocument]) -> (r: Result<
        ArtifactCoverageIndex,
        CoreError,
    >)
        ensures
            r matches Ok(index) ==> exists|
                m: ArtifactIdMatcher,
                files: Seq<Seq<char>>,
                contents: Seq<Seq<Seq<char>>>,
                per_file: Seq<Vec<(String, ArtifactTestLocation)>>,
            | #[trigger] covers(index@, features@, m, files, contents, per_file),
            roots@.len() == 0 ==> (r matches Ok(index) && index@ == Coverage::empty()),
    {
            let kept = deduplicate_roots(&roots_vec(roots));
        proof {
            lemma_no_roots_kept(views(kept@), views(roots@));
        }
        let matcher = ArtifactIdMatcher::from_features(features);
        let mut found: Vec<Vec<String>> = Vec::new();
        let mut k: usize = 0;
        while k < kept.len()
            invariant
                k <= kept@.len(),
                found@.len() == k,
                roots@.len() == 0 ==> kept@.len() == 0,
            decreases kept@.len() - k,
        {
            let paths = self.repository.find_test_files(kept[k].as_str())?;
            found.push(paths);
            k = k + 1;
        }
        let files = merge_paths(&found);
        proof {
            if roots@.len() == 0 {
                assert(flatten_views(found@) =~= Seq::<Seq<char>>::empty());
                if files@.len() > 0 {
                    assert(flatten_views(found@).contains(views(files@)[0]));
                }
            }
        }
        let mut per_file: Vec<Vec<(String, ArtifactTestLocation)>> = Vec::new();
        let ghost mut contents: Seq<Seq<Seq<char>>> = seq![];
        let mut f: usize = 0;
        while f < files.len()
            invariant
                f <= files@.len(),
                per_file@.len() == f,
                roots@.len() == 0 ==> files@.len() == 0,
                contents.len() == f,
                forall|i: int|
                    0 <= i < f ==> scanned(
                        matcher,
                        files@[i]@,
                        contents[i],
                        #[trigger] per_file@[i]@,
                    ),
            decreases files@.len() - f,
        {
            let lines = self.repository.read_lines(files[f].as_str())?;
            per_file.push(scan_test_file(&matcher, &files[f], &lines));
            proof {
                contents = contents.push(strings_view(lines@));
            }
            f = f + 1;
        }
        let index = build_coverage_index(&per_file);
        proof {
            if roots@.len() == 0 {
                assert(all_references(per_file@) =~= Seq::empty());
                assert(index@ =~= Coverage::empty()) by {
                    assert forall|id: Seq<char>| !index@.dom().contains(id) by {
                        assert(references_to(all_references(per_file@), id).len() == 0);
                    }
                }
            }
        }
        assert(covers(index@, features@, matcher, views(files@), contents, per_file@));
        let r: Result<ArtifactCoverageIndex, CoreError> = Ok(index);
        assert(r matches Ok(i) && covers(i@, features@, matcher, views(files@), contents, per_file@));
        r
    }
}

} // verus!
