//! Paths as the library compares them: by their components, as
//! `std::path::Path` does on Unix, so that `a/b`, `a//b` and `a/./b` are
//! one path.
use vstd::prelude::*;

use crate::text::chars_of;

verus! {

/// Kinds of a path component, in the order in which components compare.
pub const ROOT_DIR: u8 = 1;

pub const CUR_DIR: u8 = 2;

pub const PARENT_DIR: u8 = 3;

pub const NORMAL: u8 = 4;

/// The `/`-separated pieces of `s`; `""` has one empty piece.
pub open spec fn pieces(s: Seq<char>) -> Seq<Seq<char>>
    decreases s.len(),
{
    if s.len() == 0 {
        seq![Seq::<char>::empty()]
    } else {
        let p = pieces(s.drop_last());
        if s.last() == '/' {
            p.push(Seq::<char>::empty())
        } else {
            p.update(p.len() - 1, p.last().push(s.last()))
        }
    }
}

/// The component that a piece stands for, if any.
pub open spec fn piece_component(piece: Seq<char>, first: bool, has_root: bool) -> Seq<
    (u8, Seq<char>),
> {
    if piece.len() == 0 {
        seq![]
    } else if piece == seq!['.'] {
        if first && !has_root {
            seq![(CUR_DIR, Seq::<char>::empty())]
        } else {
            seq![]
        }
    } else if piece == seq!['.', '.'] {
        seq![(PARENT_DIR, Seq::<char>::empty())]
    } else {
        seq![(NORMAL, piece)]
    }
}

/// The components of the first `k` pieces.
pub open spec fn piece_components(ps: Seq<Seq<char>>, k: int, has_root: bool) -> Seq<
    (u8, Seq<char>),
>
    decreases k,
{
    if k <= 0 {
        seq![]
    } else {
        piece_components(ps, k - 1, has_root) + piece_component(ps[k - 1], k == 1, has_root)
    }
}

/// The components of a path, each a kind and, for a normal component, its name.
#[verifier::opaque]
pub open spec fn components(s: Seq<char>) -> Seq<(u8, Seq<char>)> {
    let has_root = s.len() > 0 && s[0] == '/';
    let ps = pieces(s);
    (if has_root {
        seq![(ROOT_DIR, Seq::<char>::empty())]
    } else {
        seq![]
    }) + piece_components(ps, ps.len() as int, has_root)
}

/// `Path::starts_with`: the components of `base` begin the components of `p`.
pub open spec fn path_starts_with(p: Seq<char>, base: Seq<char>) -> bool {
    components(base).is_prefix_of(components(p))
}

/// `Path == Path`.
pub open spec fn path_eq(a: Seq<char>, b: Seq<char>) -> bool {
    components(a) == components(b)
}

/// `Path::file_name`: the last component, when it is a normal one.
pub open spec fn file_name(p: Seq<char>) -> Option<Seq<char>> {
    let c = components(p);
    if c.len() > 0 && c.last().0 == NORMAL {
        Some(c.last().1)
    } else {
        None
    }
}

/// Strict lexicographic order on character sequences (the order of `str`).
pub open spec fn chars_lt(a: Seq<char>, b: Seq<char>) -> bool
    decreases a.len(),
{
    if a.len() == 0 {
        b.len() > 0
    } else if b.len() == 0 {
        false
    } else if a[0] != b[0] {
        a[0] < b[0]
    } else {
        chars_lt(a.drop_first(), b.drop_first())
    }
}

pub open spec fn component_lt(a: (u8, Seq<char>), b: (u8, Seq<char>)) -> bool {
    a.0 < b.0 || (a.0 == b.0 && chars_lt(a.1, b.1))
}

/// Strict lexicographic order on component sequences.
pub open spec fn components_lt(a: Seq<(u8, Seq<char>)>, b: Seq<(u8, Seq<char>)>) -> bool
    decreases a.len(),
{
    if a.len() == 0 {
        b.len() > 0
    } else if b.len() == 0 {
        false
    } else if a[0] != b[0] {
        component_lt(a[0], b[0])
    } else {
        components_lt(a.drop_first(), b.drop_first())
    }
}

/// `Path < Path`.
pub open spec fn path_lt(a: Seq<char>, b: Seq<char>) -> bool {
    components_lt(components(a), components(b))
}

/// A component as the library holds it.
pub struct Component {
    pub kind: u8,
    pub name: Vec<char>,
}

pub open spec fn component_view(c: Component) -> (u8, Seq<char>) {
    (c.kind, c.name@)
}

pub open spec fn components_view(cs: Seq<Component>) -> Seq<(u8, Seq<char>)> {
    cs.map_values(|c: Component| component_view(c))
}

fn piece_is(piece: &Vec<char>, dots: usize) -> (r: bool)
    requires
        dots == 1 || dots == 2,
    ensures
        r == (if dots == 1 {
            piece@ == seq!['.']
        } else {
            piece@ == seq!['.', '.']
        }),
{
    if piece.len() != dots {
        return false;
    }
    if dots == 1 {
        let r = piece[0] == '.';
        assert(r ==> piece@ =~= seq!['.']);
        r
    } else {
        let r = piece[0] == '.' && piece[1] == '.';
        assert(r ==> piece@ =~= seq!['.', '.']);
        r
    }
}

fn push_piece(out: &mut Vec<Component>, piece: Vec<char>, first: bool, has_root: bool)
    ensures
        components_view(final(out)@) == components_view(old(out)@) + piece_component(
            piece@,
            first,
            has_root,
        ),
{
    let ghost pv = piece@;
    let ghost before = out@;
    if piece.len() == 0 {
        assert(components_view(out@) =~= components_view(before) + piece_component(pv, first, has_root));
        return ;
    }
    if piece_is(&piece, 1) {
        if first && !has_root {
            out.push(Component { kind: CUR_DIR, name: Vec::new() });
        }
    } else if piece_is(&piece, 2) {
        out.push(Component { kind: PARENT_DIR, name: Vec::new() });
    } else {
        out.push(Component { kind: NORMAL, name: piece });
    }
    assert(components_view(out@) =~= components_view(before) + piece_component(pv, first, has_root));
}

proof fn lemma_pieces_len(s: Seq<char>)
    ensures
        pieces(s).len() >= 1,
    decreases s.len(),
{
    if s.len() > 0 {
        lemma_pieces_len(s.drop_last());
    }
}

/// The components of the path `s`.
pub fn path_components(s: &str) -> (r: Vec<Component>)
    ensures
        components_view(r@) == components(s@),
{
    let cs = chars_of(s);
    let has_root = cs.len() > 0 && cs[0] == '/';
    let mut out: Vec<Component> = Vec::new();
    if has_root {
        out.push(Component { kind: ROOT_DIR, name: Vec::new() });
    }
    let ghost root_part = if has_root {
        seq![(ROOT_DIR, Seq::<char>::empty())]
    } else {
        seq![]
    };
    assert(components_view(out@) =~= root_part);
    let mut cur: Vec<char> = Vec::new();
    let mut done: usize = 0;
    let mut i: usize = 0;
    proof {
        assert(cs@.take(0) =~= Seq::<char>::empty());
        assert(pieces(cs@.take(0)) =~= seq![Seq::<char>::empty()]);
    }
    while i < cs.len()
        invariant
            i <= cs@.len(),
            done <= i,
            cs@ == s@,
            has_root == (cs@.len() > 0 && cs@[0] == '/'),
            pieces(cs@.take(i as int)).len() == done + 1,
            pieces(cs@.take(i as int)).last() == cur@,
            components_view(out@) == root_part + piece_components(
                pieces(cs@.take(i as int)),
                done as int,
                has_root,
            ),
            root_part == (if has_root {
                seq![(ROOT_DIR, Seq::<char>::empty())]
            } else {
                seq![]
            }),
        decreases cs@.len() - i,
    {
        let ghost ps = pieces(cs@.take(i as int));
        let c = cs[i];
        assert(cs@.take(i + 1).drop_last() =~= cs@.take(i as int));
        let ghost ps2 = pieces(cs@.take(i + 1));
        if c == '/' {
            let piece = cur;
            cur = Vec::new();
            assert(ps2 == ps.push(Seq::<char>::empty()));
            proof {
                assert forall|k: int| 0 <= k <= done implies piece_components(ps2, k, has_root)
                    == piece_components(ps, k, has_root) by {
                    lemma_piece_components_prefix(ps, ps2, k, has_root);
                }
            }
            push_piece(&mut out, piece, done == 0, has_root);
            assert(ps2[done as int] == ps[done as int]);
            assert(piece_components(ps2, done + 1, has_root) == piece_components(ps2, done as int, has_root)
                + piece_component(ps2[done as int], done == 0, has_root));
            done = done + 1;
        } else {
            cur.push(c);
            assert(ps2 == ps.update(ps.len() - 1, ps.last().push(c)));
            proof {
                assert forall|k: int| 0 <= k <= done implies piece_components(ps2, k, has_root)
                    == piece_components(ps, k, has_root) by {
                    lemma_piece_components_prefix(ps, ps2, k, has_root);
                }
            }
        }
        i = i + 1;
    }
    assert(cs@.take(cs@.len() as int) =~= cs@);
    let ghost ps = pieces(cs@);
    let last_piece = cur;
    push_piece(&mut out, last_piece, done == 0, has_root);
    assert(piece_components(ps, done + 1, has_root) == piece_components(ps, done as int, has_root)
        + piece_component(ps[done as int], done == 0, has_root));
    assert(components_view(out@) =~= components(s@)) by {
        reveal(components);
    }
    out
}

proof fn lemma_piece_components_prefix(
    a: Seq<Seq<char>>,
    b: Seq<Seq<char>>,
    k: int,
    has_root: bool,
)
    requires
        0 <= k <= a.len(),
        k <= b.len(),
        forall|j: int| 0 <= j < k ==> a[j] == b[j],
    ensures
        piece_components(a, k, has_root) == piece_components(b, k, has_root),
    decreases k,
{
    if k > 0 {
        lemma_piece_components_prefix(a, b, k - 1, has_root);
    }
}

/// Whether two components are equal.
fn component_equal(a: &Component, b: &Component) -> (r: bool)
    ensures
        r == (component_view(*a) == component_view(*b)),
{
    if a.kind != b.kind || a.name.len() != b.name.len() {
        return false;
    }
    let mut k: usize = 0;
    while k < a.name.len()
        invariant
            a.name@.len() == b.name@.len(),
            k <= a.name@.len(),
            forall|j: int| 0 <= j < k ==> a.name@[j] == b.name@[j],
        decreases a.name@.len() - k,
    {
        if a.name[k] != b.name[k] {
            return false;
        }
        k = k + 1;
    }
    assert(a.name@ =~= b.name@);
    true
}

/// Whether the component list `base` begins `p`.
fn components_start_with(p: &Vec<Component>, base: &Vec<Component>) -> (r: bool)
    ensures
        r == components_view(base@).is_prefix_of(components_view(p@)),
{
    if base.len() > p.len() {
        return false;
    }
    let mut k: usize = 0;
    while k < base.len()
        invariant
            base@.len() <= p@.len(),
            k <= base@.len(),
            forall|j: int| 0 <= j < k ==> component_view(base@[j]) == component_view(p@[j]),
        decreases base@.len() - k,
    {
        if !component_equal(&p[k], &base[k]) {
            assert(components_view(base@)[k as int] != components_view(p@)[k as int]);
            return false;
        }
        k = k + 1;
    }
    assert(components_view(base@) =~= components_view(p@).subrange(0, base@.len() as int));
    true
}

/// `Path::starts_with`.
pub fn starts_with_path(p: &str, base: &str) -> (r: bool)
    ensures
        r == path_starts_with(p@, base@),
{
    let pc = path_components(p);
    let bc = path_components(base);
    components_start_with(&pc, &bc)
}

/// `Path == Path`.
pub fn paths_equal(a: &str, b: &str) -> (r: bool)
    ensures
        r == path_eq(a@, b@),
{
    let ac = path_components(a);
    let bc = path_components(b);
    assert(components_view(ac@).len() == ac@.len());
    assert(components_view(bc@).len() == bc@.len());
    if ac.len() != bc.len() {
        return false;
    }
    let r = components_start_with(&ac, &bc);
    assert(components_view(ac@).len() == components_view(bc@).len());
    assert(r ==> components_view(bc@) =~= components_view(ac@));
    assert(components_view(ac@) == components_view(bc@) ==> components_view(bc@).is_prefix_of(
        components_view(ac@),
    ));
    r
}

/// `Path::file_name`, as a string.
pub fn path_file_name(p: &str) -> (r: Option<Vec<char>>)
    ensures
        r matches Some(n) ==> file_name(p@) == Some(n@),
        r is None ==> file_name(p@) is None,
{
    let mut cs = path_components(p);
    if cs.len() == 0 {
        return None;
    }
    let ghost v = components_view(cs@);
    let last = cs.pop().unwrap();
    assert(component_view(last) == v.last());
    if last.kind == NORMAL {
        Some(last.name)
    } else {
        None
    }
}

/// Strict order on character sequences.
pub fn chars_less(a: &[char], b: &[char]) -> (r: bool)
    ensures
        r == chars_lt(a@, b@),
{
    let mut k: usize = 0;
    assert(a@.skip(0) =~= a@);
    assert(b@.skip(0) =~= b@);
    while k < a.len() && k < b.len() && a[k] == b[k]
        invariant
            k <= a@.len(),
            k <= b@.len(),
            forall|j: int| 0 <= j < k ==> a@[j] == b@[j],
            chars_lt(a@, b@) == chars_lt(a@.skip(k as int), b@.skip(k as int)),
        decreases a@.len() - k,
    {
        assert(a@.skip(k as int).drop_first() =~= a@.skip(k + 1));
        assert(b@.skip(k as int).drop_first() =~= b@.skip(k + 1));
        k = k + 1;
    }
    if k == a.len() {
        k < b.len()
    } else if k == b.len() {
        false
    } else {
        a[k] < b[k]
    }
}

fn component_less(a: &Component, b: &Component) -> (r: bool)
    ensures
        r == component_lt(component_view(*a), component_view(*b)),
{
    a.kind < b.kind || (a.kind == b.kind && chars_less(a.name.as_slice(), b.name.as_slice()))
}

/// `Path < Path`.
pub fn path_less(a: &str, b: &str) -> (r: bool)
    ensures
        r == path_lt(a@, b@),
{
    let ac = path_components(a);
    let bc = path_components(b);
    let ghost av = components_view(ac@);
    let ghost bv = components_view(bc@);
    let mut k: usize = 0;
    assert(av.skip(0) =~= av);
    assert(bv.skip(0) =~= bv);
    while k < ac.len() && k < bc.len() && component_equal(&ac[k], &bc[k])
        invariant
            av == components_view(ac@),
            bv == components_view(bc@),
            k <= ac@.len(),
            k <= bc@.len(),
            components_lt(av, bv) == components_lt(av.skip(k as int), bv.skip(k as int)),
        decreases ac@.len() - k,
    {
        assert(av.skip(k as int)[0] == av[k as int]);
        assert(bv.skip(k as int)[0] == bv[k as int]);
        assert(av.skip(k as int).drop_first() =~= av.skip(k + 1));
        assert(bv.skip(k as int).drop_first() =~= bv.skip(k + 1));
        k = k + 1;
    }
    if k == ac.len() {
        k < bc.len()
    } else if k == bc.len() {
        false
    } else {
        assert(av.skip(k as int)[0] == av[k as int]);
        assert(bv.skip(k as int)[0] == bv[k as int]);
        component_less(&ac[k], &bc[k])
    }
}

} // verus!

verus! {

pub proof fn lemma_chars_lt_irreflexive(a: Seq<char>)
    ensures
        !chars_lt(a, a),
    decreases a.len(),
{
    if a.len() > 0 {
        lemma_chars_lt_irreflexive(a.drop_first());
    }
}

pub proof fn lemma_chars_lt_transitive(a: Seq<char>, b: Seq<char>, c: Seq<char>)
    requires
        chars_lt(a, b),
        chars_lt(b, c),
    ensures
        chars_lt(a, c),
    decreases a.len(),
{
    if a.len() > 0 && b.len() > 0 && c.len() > 0 && a[0] == b[0] && b[0] == c[0] {
        lemma_chars_lt_transitive(a.drop_first(), b.drop_first(), c.drop_first());
    }
}

pub proof fn lemma_chars_lt_total(a: Seq<char>, b: Seq<char>)
    ensures
        a == b || chars_lt(a, b) || chars_lt(b, a),
    decreases a.len(),
{
    if a.len() > 0 && b.len() > 0 && a[0] == b[0] {
        lemma_chars_lt_total(a.drop_first(), b.drop_first());
        if a.drop_first() == b.drop_first() {
            assert(a =~= seq![a[0]] + a.drop_first());
            assert(b =~= seq![b[0]] + b.drop_first());
        }
    } else if a.len() == 0 && b.len() == 0 {
        assert(a =~= b);
    }
}

proof fn lemma_component_lt_facts()
    ensures
        forall|a: (u8, Seq<char>)| !#[trigger] component_lt(a, a),
        forall|a: (u8, Seq<char>), b: (u8, Seq<char>), c: (u8, Seq<char>)|
            #[trigger] component_lt(a, b) && #[trigger] component_lt(b, c) ==> component_lt(a, c),
        forall|a: (u8, Seq<char>), b: (u8, Seq<char>)|
            a == b || #[trigger] component_lt(a, b) || #[trigger] component_lt(b, a),
{
    assert forall|a: (u8, Seq<char>)| !#[trigger] component_lt(a, a) by {
        lemma_chars_lt_irreflexive(a.1);
    }
    assert forall|a: (u8, Seq<char>), b: (u8, Seq<char>), c: (u8, Seq<char>)|
        #[trigger] component_lt(a, b) && #[trigger] component_lt(b, c) implies component_lt(
        a,
        c,
    ) by {
        if a.0 == b.0 && b.0 == c.0 {
            lemma_chars_lt_transitive(a.1, b.1, c.1);
        }
    }
    assert forall|a: (u8, Seq<char>), b: (u8, Seq<char>)|
        a == b || #[trigger] component_lt(a, b) || #[trigger] component_lt(b, a) by {
        lemma_chars_lt_total(a.1, b.1);
    }
}

pub proof fn lemma_components_lt_irreflexive(a: Seq<(u8, Seq<char>)>)
    ensures
        !components_lt(a, a),
    decreases a.len(),
{
    if a.len() > 0 {
        lemma_components_lt_irreflexive(a.drop_first());
    }
}

pub proof fn lemma_components_lt_transitive(
    a: Seq<(u8, Seq<char>)>,
    b: Seq<(u8, Seq<char>)>,
    c: Seq<(u8, Seq<char>)>,
)
    requires
        components_lt(a, b),
        components_lt(b, c),
    ensures
        components_lt(a, c),
    decreases a.len(),
{
    lemma_component_lt_facts();
    if a.len() > 0 && b.len() > 0 && c.len() > 0 && a[0] == b[0] && b[0] == c[0] {
        lemma_components_lt_transitive(a.drop_first(), b.drop_first(), c.drop_first());
    }
}

pub proof fn lemma_components_lt_total(a: Seq<(u8, Seq<char>)>, b: Seq<(u8, Seq<char>)>)
    ensures
        a == b || components_lt(a, b) || components_lt(b, a),
    decreases a.len(),
{
    lemma_component_lt_facts();
    if a.len() > 0 && b.len() > 0 && a[0] == b[0] {
        lemma_components_lt_total(a.drop_first(), b.drop_first());
        if a.drop_first() == b.drop_first() {
            assert(a =~= seq![a[0]] + a.drop_first());
            assert(b =~= seq![b[0]] + b.drop_first());
        }
    } else if a.len() == 0 && b.len() == 0 {
        assert(a =~= b);
    }
}

/// `path_lt` is a strict total order up to `path_eq`.
pub proof fn lemma_path_order()
    ensures
        forall|a: Seq<char>| !#[trigger] path_lt(a, a),
        forall|a: Seq<char>, b: Seq<char>, c: Seq<char>|
            #[trigger] path_lt(a, b) && #[trigger] path_lt(b, c) ==> path_lt(a, c),
        forall|a: Seq<char>, b: Seq<char>|
            path_eq(a, b) || #[trigger] path_lt(a, b) || #[trigger] path_lt(b, a),
        forall|a: Seq<char>, b: Seq<char>| #[trigger] path_eq(a, b) ==> !path_lt(a, b),
{
    assert forall|a: Seq<char>| !#[trigger] path_lt(a, a) by {
        lemma_components_lt_irreflexive(components(a));
    }
    assert forall|a: Seq<char>, b: Seq<char>, c: Seq<char>|
        #[trigger] path_lt(a, b) && #[trigger] path_lt(b, c) implies path_lt(a, c) by {
        lemma_components_lt_transitive(components(a), components(b), components(c));
    }
    assert forall|a: Seq<char>, b: Seq<char>|
        path_eq(a, b) || #[trigger] path_lt(a, b) || #[trigger] path_lt(b, a) by {
        lemma_components_lt_total(components(a), components(b));
    }
    assert forall|a: Seq<char>, b: Seq<char>| #[trigger] path_eq(a, b) implies !path_lt(a, b) by {
        lemma_components_lt_irreflexive(components(a));
    }
}

} // verus!

verus! {

/// The views of a list of strings.
pub open spec fn views(v: Seq<String>) -> Seq<Seq<char>> {
    v.map_values(|s: String| s@)
}

/// All strings of a list of lists, in order.
pub open spec fn flatten_views(v: Seq<Vec<String>>) -> Seq<Seq<char>>
    decreases v.len(),
{
    if v.len() == 0 {
        seq![]
    } else {
        flatten_views(v.drop_last()) + views(v.last()@)
    }
}

/// Strictly increasing in path order (so no two are the same path).
pub open spec fn strictly_sorted_paths(s: Seq<Seq<char>>) -> bool {
    forall|i: int, j: int| 0 <= i < j < s.len() ==> path_lt(#[trigger] s[i], #[trigger] s[j])
}

/// `s` holds, once each and in path order, the distinct paths of `input`:
/// each element is one of the inputs, and each input is one of the elements
/// as a path.
pub open spec fn sorted_distinct_paths_of(s: Seq<Seq<char>>, input: Seq<Seq<char>>) -> bool {
    &&& strictly_sorted_paths(s)
    &&& forall|i: int| 0 <= i < s.len() ==> input.contains(#[trigger] s[i])
    &&& forall|k: int| 0 <= k < input.len() ==> exists|i: int| 0 <= i < s.len() && path_eq(#[trigger] input[k], s[i])
}

fn copy_string(s: &String) -> (r: String)
    ensures
        r@ == s@,
{
    s.clone()
}

/// Adds the path `x` to a strictly sorted list unless the list already has it.
fn insert_path(out: &mut Vec<String>, x: String)
    requires
        strictly_sorted_paths(views(old(out)@)),
    ensures
        strictly_sorted_paths(views(final(out)@)),
        forall|i: int|
            0 <= i < final(out)@.len() ==> views(old(out)@).push(x@).contains(
                #[trigger] views(final(out)@)[i],
            ),
        exists|i: int| 0 <= i < final(out)@.len() && path_eq(x@, #[trigger] views(final(out)@)[i]),
        forall|k: int|
            0 <= k < old(out)@.len() ==> exists|i: int|
                0 <= i < final(out)@.len() && path_eq(
                    #[trigger] views(old(out)@)[k],
                    views(final(out)@)[i],
                ),
{
    proof {
        lemma_path_order();
    }
    let ghost before = views(out@);
    let mut p: usize = 0;
    while p < out.len() && path_less(out[p].as_str(), x.as_str())
        invariant
            p <= out@.len(),
            before == views(out@),
            forall|q: int| 0 <= q < p ==> path_lt(#[trigger] before[q], x@),
        decreases out@.len() - p,
    {
        p = p + 1;
    }
    if p < out.len() && paths_equal(out[p].as_str(), x.as_str()) {
        assert(path_eq(x@, before[p as int]));
        assert forall|k: int| 0 <= k < out@.len() implies exists|i: int|
            0 <= i < out@.len() && path_eq(#[trigger] before[k], views(out@)[i]) by {
            assert(path_eq(before[k], views(out@)[k]));
        }
        assert forall|i: int| 0 <= i < out@.len() implies before.push(x@).contains(
            #[trigger] views(out@)[i],
        ) by {
            assert(before.push(x@)[i] == views(out@)[i]);
        }
        return ;
    }
    proof {
        if p < out@.len() {
            assert(!path_lt(before[p as int], x@));
            assert(!path_eq(before[p as int], x@));
            assert(path_lt(x@, before[p as int]));
        }
    }
    let ghost xv = x@;
    out.insert(p, x);
    let ghost after = views(out@);
    assert(after =~= before.insert(p as int, xv));
    assert forall|i: int, j: int| 0 <= i < j < after.len() implies path_lt(
        #[trigger] after[i],
        #[trigger] after[j],
    ) by {
        if j < p {
        } else if j == p {
        } else if i < p {
            assert(after[j] == before[j - 1]);
            if j - 1 > p {
                assert(path_lt(before[p as int], before[j - 1]));
            }
            assert(path_lt(xv, before[p as int]));
        } else if i == p {
            assert(after[j] == before[j - 1]);
            if j - 1 > p {
                assert(path_lt(before[p as int], before[j - 1]));
            }
        } else {
            assert(after[i] == before[i - 1]);
            assert(after[j] == before[j - 1]);
        }
    }
    assert forall|i: int| 0 <= i < after.len() implies before.push(xv).contains(
        #[trigger] after[i],
    ) by {
        if i < p {
            assert(before.push(xv)[i] == after[i]);
        } else if i == p {
            assert(before.push(xv)[before.len() as int] == after[i]);
        } else {
            assert(before.push(xv)[i - 1] == after[i]);
        }
    }
    assert(path_eq(xv, after[p as int]));
    assert forall|k: int| 0 <= k < before.len() implies exists|i: int|
        0 <= i < after.len() && path_eq(#[trigger] before[k], after[i]) by {
        if k < p {
            assert(path_eq(before[k], after[k]));
        } else {
            assert(path_eq(before[k], after[k + 1]));
        }
    }
}

/// The distinct paths of several lists, once each, in path order. Of two
/// inputs that are the same path, the first one given is kept.
pub fn merge_paths(found: &Vec<Vec<String>>) -> (r: Vec<String>)
    ensures
        sorted_distinct_paths_of(views(r@), flatten_views(found@)),
{
    let mut out: Vec<String> = Vec::new();
    let mut f: usize = 0;
    let ghost mut seen: Seq<Seq<char>> = seq![];
    while f < found.len()
        invariant
            f <= found@.len(),
            seen == flatten_views(found@.take(f as int)),
            sorted_distinct_paths_of(views(out@), seen),
        decreases found@.len() - f,
    {
        let list = &found[f];
        let ghost base = seen;
        let mut k: usize = 0;
        assert(views(list@).take(0) =~= Seq::<Seq<char>>::empty());
        assert(seen =~= base + views(list@).take(0));
        while k < list.len()
            invariant
                k <= list@.len(),
                seen == base + views(list@).take(k as int),
                sorted_distinct_paths_of(views(out@), seen),
            decreases list@.len() - k,
        {
            let x = copy_string(&list[k]);
            let ghost old_out = views(out@);
            insert_path(&mut out, x);
            proof {
                let new_seen = seen.push(x@);
                assert forall|i: int| 0 <= i < views(out@).len() implies new_seen.contains(
                    #[trigger] views(out@)[i],
                ) by {
                    assert(old_out.push(x@).contains(views(out@)[i]));
                    let j = choose|j: int| 0 <= j < old_out.push(x@).len() && old_out.push(x@)[j]
                        == views(out@)[i];
                    if j < old_out.len() {
                        assert(seen.contains(old_out[j]));
                        let m = choose|m: int| 0 <= m < seen.len() && seen[m] == old_out[j];
                        assert(new_seen[m] == seen[m]);
                    } else {
                        assert(new_seen[seen.len() as int] == x@);
                    }
                }
                assert forall|m: int| 0 <= m < new_seen.len() implies exists|i: int|
                    0 <= i < views(out@).len() && path_eq(#[trigger] new_seen[m], views(out@)[i]) by {
                    if m < seen.len() {
                        assert(new_seen[m] == seen[m]);
                        let i0 = choose|i0: int| 0 <= i0 < old_out.len() && path_eq(seen[m], old_out[i0]);
                        let i1 = choose|i1: int|
                            0 <= i1 < views(out@).len() && path_eq(old_out[i0], views(out@)[i1]);
                        assert(path_eq(seen[m], views(out@)[i1]));
                    } else {
                        assert(new_seen[m] == x@);
                    }
                }
                seen = new_seen;
                assert(views(list@).take(k + 1) =~= views(list@).take(k as int).push(x@));
                assert(seen =~= base + views(list@).take(k + 1));
            }
            k = k + 1;
        }
        proof {
            assert(views(list@).take(list@.len() as int) =~= views(list@));
            assert(found@.take(f + 1).drop_last() =~= found@.take(f as int));
            assert(found@.take(f + 1).last() == *list);
        }
        f = f + 1;
    }
    assert(found@.take(found@.len() as int) =~= found@);
    out
}

} // verus!

verus! {

/// Length of a path in bytes.
pub open spec fn byte_len(s: Seq<char>) -> nat {
    vstd::utf8::encode_utf8(s).len()
}

/// Some element of `b` contains the path `x`.
pub open spec fn lies_under_one_of(b: Seq<Seq<char>>, x: Seq<char>) -> bool {
    exists|i: int| 0 <= i < b.len() && path_starts_with(x, #[trigger] b[i])
}

/// `r` is a minimal set of roots for `roots`: each is one of the roots, every
/// root lies under one of them, none lies under one listed before it, and they
/// come shortest first.
pub open spec fn minimal_roots(r: Seq<Seq<char>>, roots: Seq<Seq<char>>) -> bool {
    &&& all_among(r, roots)
    &&& forall|k: int| 0 <= k < roots.len() ==> #[trigger] lies_under_one_of(r, roots[k])
    &&& forall|i: int, j: int|
        0 <= i < j < r.len() ==> !path_starts_with(#[trigger] r[j], #[trigger] r[i])
    &&& forall|i: int, j: int|
        0 <= i < j < r.len() ==> byte_len(#[trigger] r[i]) <= byte_len(#[trigger] r[j])
}

fn byte_length(s: &String) -> (r: usize)
    ensures
        r == byte_len(s@),
{
    let b = s.as_str().as_bytes();
    b.len()
}

/// The index of an element of `v` that is the path `x`, if any.
fn find_same_path(v: &Vec<String>, x: &String) -> (r: Option<usize>)
    ensures
        r matches Some(p) ==> p < v@.len() && path_eq(views(v@)[p as int], x@),
        r is None ==> forall|i: int| 0 <= i < v@.len() ==> !path_eq(#[trigger] views(v@)[i], x@),
{
    let mut p: usize = 0;
    while p < v.len()
        invariant
            p <= v@.len(),
            forall|i: int| 0 <= i < p ==> !path_eq(#[trigger] views(v@)[i], x@),
        decreases v@.len() - p,
    {
        if paths_equal(v[p].as_str(), x.as_str()) {
            return Some(p);
        }
        p = p + 1;
    }
    None
}

/// Whether `x` lies under one of the paths of `v`.
fn lies_under_any(v: &Vec<String>, x: &String) -> (r: bool)
    ensures
        r == exists|i: int| 0 <= i < v@.len() && path_starts_with(x@, #[trigger] views(v@)[i]),
{
    let mut p: usize = 0;
    while p < v.len()
        invariant
            p <= v@.len(),
            forall|i: int| 0 <= i < p ==> !path_starts_with(x@, #[trigger] views(v@)[i]),
        decreases v@.len() - p,
    {
        if starts_with_path(x.as_str(), v[p].as_str()) {
            assert(path_starts_with(x@, views(v@)[p as int]));
            return true;
        }
        p = p + 1;
    }
    false
}

/// Every element of `s` is one of `input`.
pub open spec fn all_among(s: Seq<Seq<char>>, input: Seq<Seq<char>>) -> bool {
    forall|i: int| 0 <= i < s.len() ==> input.contains(#[trigger] s[i])
}

/// Every element of `input` is, as a path, one of `s`.
pub open spec fn each_same_path_as_one_of(a: Seq<Seq<char>>, b: Seq<Seq<char>>) -> bool {
    forall|m: int| 0 <= m < a.len() ==> #[trigger] has_same_path(b, a[m])
}

/// Some element of `b` is the path `x`.
pub open spec fn has_same_path(b: Seq<Seq<char>>, x: Seq<char>) -> bool {
    exists|i: int| 0 <= i < b.len() && path_eq(x, #[trigger] b[i])
}

/// Each path of `roots` once, the first occurrence kept.
fn distinct_paths(roots: &Vec<String>) -> (r: Vec<String>)
    ensures
        all_among(views(r@), views(roots@)),
        each_same_path_as_one_of(views(roots@), views(r@)),
{
    let ghost rv = views(roots@);
    let mut unique: Vec<String> = Vec::new();
    let ghost mut wit: Seq<int> = seq![];
    let mut k: usize = 0;
    while k < roots.len()
        invariant
            k <= roots@.len(),
            rv == views(roots@),
            wit.len() == k,
            forall|m: int| 0 <= m < k ==> 0 <= #[trigger] wit[m] < unique@.len() && path_eq(
                rv[m],
                views(unique@)[wit[m]],
            ),
            forall|i: int| 0 <= i < unique@.len() ==> rv.contains(#[trigger] views(unique@)[i]),
        decreases roots@.len() - k,
    {
        let x = &roots[k];
        let ghost before = views(unique@);
        assert(rv[k as int] == x@);
        match find_same_path(&unique, x) {
            Some(p) => {
                proof {
                    wit = wit.push(p as int);
                }
            },
            None => {
                unique.push(copy_string(x));
                let ghost after = views(unique@);
                assert(after =~= before.push(rv[k as int]));
                proof {
                    wit = wit.push(before.len() as int);
                    assert forall|m: int| 0 <= m < k + 1 implies 0 <= #[trigger] wit[m] < after.len()
                        && path_eq(rv[m], after[wit[m]]) by {
                        if m < k {
                            assert(after[wit[m]] == before[wit[m]]);
                        }
                    }
                    assert forall|i: int| 0 <= i < after.len() implies rv.contains(
                        #[trigger] after[i],
                    ) by {
                        if i < before.len() {
                            assert(after[i] == before[i]);
                        } else {
                            assert(rv[k as int] == after[i]);
                        }
                    }
                }
            },
        }
        k = k + 1;
    }
    proof {
        lemma_witnessed_paths(rv, views(unique@), wit);
    }
    unique
}

/// The same paths, shortest first, equal lengths in their given order.
fn sort_by_byte_length(v: &Vec<String>) -> (r: Vec<String>)
    ensures
        forall|i: int, j: int|
            0 <= i < j < r@.len() ==> byte_len(#[trigger] views(r@)[i]) <= byte_len(
                #[trigger] views(r@)[j],
            ),
        forall|i: int| 0 <= i < r@.len() ==> views(v@).contains(#[trigger] views(r@)[i]),
        forall|m: int| 0 <= m < v@.len() ==> views(r@).contains(#[trigger] views(v@)[m]),
{
    let mut sorted: Vec<String> = Vec::new();
    let mut u: usize = 0;
    while u < v.len()
        invariant
            u <= v@.len(),
            forall|i: int, j: int|
                0 <= i < j < sorted@.len() ==> byte_len(#[trigger] views(sorted@)[i]) <= byte_len(
                    #[trigger] views(sorted@)[j],
                ),
            forall|i: int| 0 <= i < sorted@.len() ==> views(v@).contains(#[trigger] views(sorted@)[i]),
            forall|m: int| 0 <= m < u ==> views(sorted@).contains(#[trigger] views(v@)[m]),
        decreases v@.len() - u,
    {
        let x = &v[u];
        let xl = byte_length(x);
        let mut p: usize = 0;
        while p < sorted.len() && byte_length(&sorted[p]) <= xl
            invariant
                p <= sorted@.len(),
                xl == byte_len(x@),
                forall|q: int| 0 <= q < p ==> byte_len(#[trigger] views(sorted@)[q]) <= xl,
            decreases sorted@.len() - p,
        {
            p = p + 1;
        }
        let ghost before = views(sorted@);
        sorted.insert(p, copy_string(x));
        let ghost after = views(sorted@);
        assert(after =~= before.insert(p as int, x@));
        assert forall|i: int, j: int| 0 <= i < j < after.len() implies byte_len(
            #[trigger] after[i],
        ) <= byte_len(#[trigger] after[j]) by {
            if j < p {
            } else if j == p {
            } else if i < p {
                assert(after[j] == before[j - 1]);
                if p < before.len() {
                    assert(byte_len(before[p as int]) > xl);
                    if j - 1 > p {
                        assert(byte_len(before[p as int]) <= byte_len(before[j - 1]));
                    }
                }
            } else if i == p {
                assert(after[j] == before[j - 1]);
                if j - 1 > p {
                    assert(byte_len(before[p as int]) <= byte_len(before[j - 1]));
                }
            } else {
                assert(after[i] == before[i - 1]);
                assert(after[j] == before[j - 1]);
            }
        }
        assert forall|i: int| 0 <= i < after.len() implies views(v@).contains(#[trigger] after[i]) by {
            if i < p {
                assert(after[i] == before[i]);
            } else if i == p {
                assert(views(v@)[u as int] == after[i]);
            } else {
                assert(after[i] == before[i - 1]);
            }
        }
        assert forall|m: int| 0 <= m < u + 1 implies after.contains(#[trigger] views(v@)[m]) by {
            if m < u {
                assert(before.contains(views(v@)[m]));
                let q = choose|q: int| 0 <= q < before.len() && before[q] == views(v@)[m];
                if q < p {
                    assert(after[q] == before[q]);
                } else {
                    assert(after[q + 1] == before[q]);
                }
            } else {
                assert(after[p as int] == views(v@)[m]);
            }
        }
        u = u + 1;
    }
    sorted
}

/// `x` is one of the first `s` elements of `sv`.
pub open spec fn among_first(sv: Seq<Seq<char>>, s: int, x: Seq<char>) -> bool {
    exists|q: int| 0 <= q < s && #[trigger] sv[q] == x
}

/// What keeping the outermost of the first `s` sorted paths gives.
pub open spec fn outermost_so_far(sv: Seq<Seq<char>>, kv: Seq<Seq<char>>, s: int) -> bool {
    &&& forall|i: int| 0 <= i < kv.len() ==> #[trigger] among_first(sv, s, kv[i])
    &&& forall|m: int| 0 <= m < s ==> #[trigger] lies_under_one_of(kv, sv[m])
    &&& forall|i: int, j: int|
        0 <= i < j < kv.len() ==> !path_starts_with(#[trigger] kv[j], #[trigger] kv[i])
    &&& forall|i: int, j: int|
        0 <= i < j < kv.len() ==> byte_len(#[trigger] kv[i]) <= byte_len(#[trigger] kv[j])
}

proof fn lemma_keep_push(sv: Seq<Seq<char>>, kv: Seq<Seq<char>>, s: int)
    requires
        0 <= s < sv.len(),
        forall|i: int, j: int|
            0 <= i < j < sv.len() ==> byte_len(#[trigger] sv[i]) <= byte_len(#[trigger] sv[j]),
        outermost_so_far(sv, kv, s),
        !lies_under_one_of(kv, sv[s]),
    ensures
        outermost_so_far(sv, kv.push(sv[s]), s + 1),
{
    let after = kv.push(sv[s]);
    assert forall|i: int| 0 <= i < after.len() implies #[trigger] among_first(sv, s + 1, after[i]) by {
        if i < kv.len() {
            assert(among_first(sv, s, kv[i]));
            let q = choose|q: int| 0 <= q < s && #[trigger] sv[q] == kv[i];
            assert(sv[q] == after[i]);
        } else {
            assert(sv[s] == after[i]);
        }
    }
    assert forall|i: int, j: int| 0 <= i < j < after.len() implies byte_len(
        #[trigger] after[i],
    ) <= byte_len(#[trigger] after[j]) by {
        assert(after[i] == kv[i]);
        if j == kv.len() {
            assert(among_first(sv, s, kv[i]));
            let q = choose|q: int| 0 <= q < s && #[trigger] sv[q] == kv[i];
            assert(byte_len(sv[q]) <= byte_len(sv[s]));
        } else {
            assert(after[j] == kv[j]);
        }
    }
    assert forall|i: int, j: int| 0 <= i < j < after.len() implies !path_starts_with(
        #[trigger] after[j],
        #[trigger] after[i],
    ) by {
        assert(after[i] == kv[i]);
        if j < kv.len() {
            assert(after[j] == kv[j]);
        } else {
            assert(!path_starts_with(sv[s], kv[i]));
        }
    }
    assert forall|m: int| 0 <= m < s + 1 implies #[trigger] lies_under_one_of(after, sv[m]) by {
        if m < s {
            assert(lies_under_one_of(kv, sv[m]));
            let i0 = choose|i0: int| 0 <= i0 < kv.len() && path_starts_with(sv[m], #[trigger] kv[i0]);
            assert(after[i0] == kv[i0]);
        } else {
            assert(after[kv.len() as int] == sv[m]);
            assert(components(sv[m]).is_prefix_of(components(sv[m])));
        }
    }
}

proof fn lemma_keep_skip(sv: Seq<Seq<char>>, kv: Seq<Seq<char>>, s: int)
    requires
        0 <= s < sv.len(),
        outermost_so_far(sv, kv, s),
        lies_under_one_of(kv, sv[s]),
    ensures
        outermost_so_far(sv, kv, s + 1),
{
    assert forall|i: int| 0 <= i < kv.len() implies #[trigger] among_first(sv, s + 1, kv[i]) by {
        assert(among_first(sv, s, kv[i]));
        let q = choose|q: int| 0 <= q < s && #[trigger] sv[q] == kv[i];
        assert(sv[q] == kv[i]);
    }
}

/// Keeps, in order, each path that lies under none kept before it.
fn keep_outermost(sorted: &Vec<String>) -> (r: Vec<String>)
    requires
        forall|i: int, j: int|
            0 <= i < j < sorted@.len() ==> byte_len(#[trigger] views(sorted@)[i]) <= byte_len(
                #[trigger] views(sorted@)[j],
            ),
    ensures
        outermost_so_far(views(sorted@), views(r@), sorted@.len() as int),
{
    let ghost sv = views(sorted@);
    let mut kept: Vec<String> = Vec::new();
    let mut s: usize = 0;
    while s < sorted.len()
        invariant
            s <= sorted@.len(),
            sv == views(sorted@),
            forall|i: int, j: int|
                0 <= i < j < sv.len() ==> byte_len(#[trigger] sv[i]) <= byte_len(#[trigger] sv[j]),
            outermost_so_far(sv, views(kept@), s as int),
        decreases sorted@.len() - s,
    {
        let x = &sorted[s];
        let ghost before = views(kept@);
        let under = lies_under_any(&kept, x);
        assert(under == lies_under_one_of(before, sv[s as int]));
        if !under {
            proof {
                lemma_keep_push(sv, before, s as int);
            }
            kept.push(copy_string(x));
            assert(views(kept@) =~= before.push(sv[s as int]));
        } else {
            proof {
                lemma_keep_skip(sv, before, s as int);
            }
        }
        s = s + 1;
    }
    kept
}

/// `deduplicate_roots`: drops roots that repeat another or lie under another.
/// Roots are compared as given; making them canonical is up to the caller.
pub fn deduplicate_roots(roots: &Vec<String>) -> (r: Vec<String>)
    ensures
        minimal_roots(views(r@), views(roots@)),
{
    let unique = distinct_paths(roots);
    let sorted = sort_by_byte_length(&unique);
    let kept = keep_outermost(&sorted);
    proof {
        let rv = views(roots@);
        let uv = views(unique@);
        let sv = views(sorted@);
        let kv = views(kept@);
        assert forall|k: int| 0 <= k < rv.len() implies #[trigger] lies_under_one_of(kv, rv[k]) by {
            assert(has_same_path(uv, rv[k]));
            let i0 = choose|i0: int| 0 <= i0 < uv.len() && path_eq(rv[k], #[trigger] uv[i0]);
            assert(sv.contains(uv[i0]));
            let q = choose|q: int| 0 <= q < sv.len() && sv[q] == uv[i0];
            assert(lies_under_one_of(kv, sv[q]));
            let i1 = choose|i1: int| 0 <= i1 < kv.len() && path_starts_with(sv[q], #[trigger] kv[i1]);
            assert(components(rv[k]) == components(sv[q]));
            assert(path_starts_with(rv[k], kv[i1]));
        }
        assert forall|i: int| 0 <= i < kv.len() implies rv.contains(#[trigger] kv[i]) by {
            assert(among_first(sv, sv.len() as int, kv[i]));
            let q = choose|q: int| 0 <= q < sv.len() && #[trigger] sv[q] == kv[i];
            assert(uv.contains(sv[q]));
            let u0 = choose|u0: int| 0 <= u0 < uv.len() && uv[u0] == sv[q];
            assert(rv.contains(uv[u0]));
        }
    }
    kept
}

} // verus!
verus! {
proof fn lemma_witnessed_paths(rv: Seq<Seq<char>>, uv: Seq<Seq<char>>, wit: Seq<int>)
    requires
        wit.len() == rv.len(),
        forall|m: int| 0 <= m < rv.len() ==> 0 <= #[trigger] wit[m] < uv.len() && path_eq(rv[m], uv[wit[m]]),
    ensures each_same_path_as_one_of(rv, uv),
{
    assert forall|m: int| 0 <= m < rv.len() implies #[trigger] has_same_path(uv, rv[m]) by {
        let w = wit[m];
        assert(path_eq(rv[m], uv[w]));
    }
}
}
