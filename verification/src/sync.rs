//! Bringing a written configuration file up to date with newly generated
//! settings while keeping the user's layout and comments.
//!
//! A TOML document is seen here as the list of its items with their paths
//! (the keys from the root), in document order: each table first, then its
//! entries. The plan says which items of the written document take the
//! generated item at the same path; tables of the written document are
//! merged key by key instead of replaced, so their comments stay. The caller
//! reads the documents into such lists and applies the plan.
use vstd::prelude::*;
use crate::text::str_eq;

verus! {

/// What kind of item stands at a path.
#[derive(Debug, Clone, Copy, PartialEq, Eq, Structural)]
pub enum ItemKind {
    /// No item.
    Absent,
    /// A value other than an inline table (a string, number, array, ...).
    Value,
    /// A value that is an inline table (`{ a = 1 }`).
    InlineTable,
    /// A table (`[section]`).
    Table,
    /// An array of tables (`[[section]]`).
    ArrayOfTables,
}

/// An item of a document: its path from the root and its kind.
#[derive(Debug)]
pub struct TomlEntry {
    pub path: Vec<String>,
    pub kind: ItemKind,
}

pub open spec fn path_view(p: Seq<String>) -> Seq<Seq<char>> {
    p.map_values(|s: String| s@)
}

/// The items of a document as paths and kinds.
pub open spec fn doc_view(d: Seq<TomlEntry>) -> Seq<(Seq<Seq<char>>, ItemKind)> {
    d.map_values(|e: TomlEntry| (path_view(e.path@), e.kind))
}

/// The kind of the first item at path `p` (`Absent` when there is none).
pub open spec fn kind_at(d: Seq<(Seq<Seq<char>>, ItemKind)>, p: Seq<Seq<char>>) -> ItemKind
    decreases d.len(),
{
    if d.len() == 0 {
        ItemKind::Absent
    } else if d[0].0 == p {
        d[0].1
    } else {
        kind_at(d.skip(1), p)
    }
}

/// A written table takes a generated table or inline table key by key.
pub open spec fn merges(written: ItemKind, generated: ItemKind) -> bool {
    written == ItemKind::Table && (generated == ItemKind::Table || generated == ItemKind::InlineTable)
}

/// The synchronisation reaches path `p`: every enclosing item is merged.
pub open spec fn reaches(
    written: Seq<(Seq<Seq<char>>, ItemKind)>,
    generated: Seq<(Seq<Seq<char>>, ItemKind)>,
    p: Seq<Seq<char>>,
) -> bool {
    forall|k: int|
        #![trigger p.take(k)]
        0 < k < p.len() ==> merges(kind_at(written, p.take(k)), kind_at(generated, p.take(k)))
}

/// The written item at `p` is replaced by the generated one: it is reached
/// and not merged.
pub open spec fn replaced_at(
    written: Seq<(Seq<Seq<char>>, ItemKind)>,
    generated: Seq<(Seq<Seq<char>>, ItemKind)>,
    p: Seq<Seq<char>>,
) -> bool {
    reaches(written, generated, p) && !merges(kind_at(written, p), kind_at(generated, p))
}

/// Replacing is allowed: nothing is written there, or both are values.
pub open spec fn replaceable(written: ItemKind, generated: ItemKind) -> bool {
    written == ItemKind::Absent || ((written == ItemKind::Value || written == ItemKind::InlineTable)
        && (generated == ItemKind::Value || generated == ItemKind::InlineTable))
}

/// The documents can be synchronised: every replaced item is replaceable
/// (a written table never meets a generated value, and arrays of tables
/// are only written where none was).
pub open spec fn compatible(
    written: Seq<(Seq<Seq<char>>, ItemKind)>,
    generated: Seq<(Seq<Seq<char>>, ItemKind)>,
) -> bool {
    forall|i: int|
        0 <= i < generated.len() && #[trigger] replaced_at(written, generated, generated[i].0)
            ==> replaceable(kind_at(written, generated[i].0), generated[i].1)
}

/// The paths of the items of `part` (a prefix of the generated document
/// `generated`) that replace written ones, in order.
pub open spec fn replaced_paths(
    written: Seq<(Seq<Seq<char>>, ItemKind)>,
    generated: Seq<(Seq<Seq<char>>, ItemKind)>,
    part: Seq<(Seq<Seq<char>>, ItemKind)>,
) -> Seq<Seq<Seq<char>>>
    decreases part.len(),
{
    if part.len() == 0 {
        Seq::empty()
    } else {
        let rest = replaced_paths(written, generated, part.drop_last());
        let p = part.last().0;
        if replaced_at(written, generated, p) {
            rest.push(p)
        } else {
            rest
        }
    }
}

/// The paths of the generated items that replace written ones, in the
/// generated document's order.
pub open spec fn sync_paths(
    written: Seq<(Seq<Seq<char>>, ItemKind)>,
    generated: Seq<(Seq<Seq<char>>, ItemKind)>,
) -> Seq<Seq<Seq<char>>> {
    replaced_paths(written, generated, generated)
}

/// The kinds that a written item which takes a generated one can have.
pub open spec fn writable(k: ItemKind) -> bool {
    k == ItemKind::Absent || k == ItemKind::Value || k == ItemKind::InlineTable
}

proof fn lemma_replaced_paths_writable(
    written: Seq<(Seq<Seq<char>>, ItemKind)>,
    generated: Seq<(Seq<Seq<char>>, ItemKind)>,
    part: Seq<(Seq<Seq<char>>, ItemKind)>,
)
    requires
        forall|j: int|
            0 <= j < part.len() && #[trigger] replaced_at(written, generated, part[j].0)
                ==> replaceable(kind_at(written, part[j].0), part[j].1),
    ensures
        forall|i: int|
            0 <= i < replaced_paths(written, generated, part).len() ==> writable(
                kind_at(written, #[trigger] replaced_paths(written, generated, part)[i]),
            ),
    decreases part.len(),
{
    if part.len() > 0 {
        let init = part.drop_last();
        assert forall|j: int|
            0 <= j < init.len() && #[trigger] replaced_at(written, generated, init[j].0) implies replaceable(
            kind_at(written, init[j].0),
            init[j].1,
        ) by {
            assert(init[j] == part[j]);
        }
        lemma_replaced_paths_writable(written, generated, init);
        let last = part.len() - 1;
        if replaced_at(written, generated, part[last].0) {
            assert(replaceable(kind_at(written, part[last].0), part[last].1));
        }
    }
}

/// Synchronising never replaces a written table or array of tables: tables
/// are merged key by key, so their comments and layout stay; only values
/// and missing items take the generated item.
pub proof fn law_sync_keeps_written_tables(
    written: Seq<(Seq<Seq<char>>, ItemKind)>,
    generated: Seq<(Seq<Seq<char>>, ItemKind)>,
)
    requires
        compatible(written, generated),
    ensures
        forall|i: int|
            0 <= i < sync_paths(written, generated).len() ==> writable(
                kind_at(written, #[trigger] sync_paths(written, generated)[i]),
            ),
{
    lemma_replaced_paths_writable(written, generated, generated);
}

fn path_eq(a: &Vec<String>, b: &Vec<String>) -> (r: bool)
    ensures
        r == (path_view(a@) == path_view(b@)),
{
    if a.len() != b.len() {
        assert(path_view(a@).len() != path_view(b@).len());
        return false;
    }
    let mut i: usize = 0;
    while i < a.len()
        invariant
            a.len() == b.len(),
            i <= a.len(),
            forall|j: int| 0 <= j < i ==> a@[j]@ == b@[j]@,
        decreases a.len() - i,
    {
        if !str_eq(a[i].as_str(), b[i].as_str()) {
            assert(path_view(a@)[i as int] != path_view(b@)[i as int]);
            return false;
        }
        i += 1;
    }
    assert(path_view(a@) =~= path_view(b@));
    true
}

/// Whether `p` (given by its first `n` keys) equals the path `q`.
fn prefix_eq(p: &Vec<String>, n: usize, q: &Vec<String>) -> (r: bool)
    requires
        n <= p.len(),
    ensures
        r == (path_view(p@).take(n as int) == path_view(q@)),
{
    if q.len() != n {
        assert(path_view(p@).take(n as int).len() != path_view(q@).len());
        return false;
    }
    let mut i: usize = 0;
    while i < n
        invariant
            n <= p.len(),
            q.len() == n,
            i <= n,
            forall|j: int| 0 <= j < i ==> p@[j]@ == q@[j]@,
        decreases n - i,
    {
        if !str_eq(p[i].as_str(), q[i].as_str()) {
            assert(path_view(p@).take(n as int)[i as int] != path_view(q@)[i as int]);
            return false;
        }
        i += 1;
    }
    assert(path_view(p@).take(n as int) =~= path_view(q@));
    true
}

proof fn lemma_kind_at_first(d: Seq<(Seq<Seq<char>>, ItemKind)>, p: Seq<Seq<char>>, i: int)
    requires
        0 <= i < d.len(),
        d[i].0 == p,
        forall|j: int| 0 <= j < i ==> d[j].0 != p,
    ensures
        kind_at(d, p) == d[i].1,
    decreases i,
{
    if i > 0 {
        lemma_kind_at_first(d.skip(1), p, i - 1);
    }
}

proof fn lemma_kind_at_absent(d: Seq<(Seq<Seq<char>>, ItemKind)>, p: Seq<Seq<char>>)
    requires
        forall|j: int| 0 <= j < d.len() ==> d[j].0 != p,
    ensures
        kind_at(d, p) == ItemKind::Absent,
    decreases d.len(),
{
    if d.len() > 0 {
        lemma_kind_at_absent(d.skip(1), p);
    }
}

/// The kind of the item at the first `n` keys of `p` in `doc`.
fn kind_of_prefix(doc: &Vec<TomlEntry>, p: &Vec<String>, n: usize) -> (r: ItemKind)
    requires
        n <= p.len(),
    ensures
        r == kind_at(doc_view(doc@), path_view(p@).take(n as int)),
{
    let ghost d = doc_view(doc@);
    let ghost target = path_view(p@).take(n as int);
    let mut i: usize = 0;
    while i < doc.len()
        invariant
            n <= p.len(),
            i <= doc.len(),
            d == doc_view(doc@),
            target == path_view(p@).take(n as int),
            forall|j: int| 0 <= j < i ==> d[j].0 != target,
        decreases doc.len() - i,
    {
        if prefix_eq(p, n, &doc[i].path) {
            proof {
                assert(d[i as int].0 == target);
                lemma_kind_at_first(d, target, i as int);
            }
            return doc[i].kind;
        }
        i += 1;
    }
    proof {
        lemma_kind_at_absent(d, target);
    }
    ItemKind::Absent
}

fn merges_exec(w: ItemKind, g: ItemKind) -> (r: bool)
    ensures
        r == merges(w, g),
{
    w == ItemKind::Table && (g == ItemKind::Table || g == ItemKind::InlineTable)
}

/// Whether every item enclosing the path `p` is merged.
fn reaches_exec(written: &Vec<TomlEntry>, generated: &Vec<TomlEntry>, p: &Vec<String>) -> (r:
    bool)
    ensures
        r == reaches(doc_view(written@), doc_view(generated@), path_view(p@)),
{
    let ghost pv = path_view(p@);
    let mut k: usize = 1;
    while k < p.len()
        invariant
            1 <= k,
            pv == path_view(p@),
            pv.len() == p.len(),
            forall|j: int|
                #![trigger pv.take(j)]
                0 < j < k && j < pv.len() ==> merges(
                    kind_at(doc_view(written@), pv.take(j)),
                    kind_at(doc_view(generated@), pv.take(j)),
                ),
        decreases p.len() - k,
    {
        let w = kind_of_prefix(written, p, k);
        let g = kind_of_prefix(generated, p, k);
        if !merges_exec(w, g) {
            proof {
                assert(!reaches(doc_view(written@), doc_view(generated@), pv)) by {
                    assert(pv.take(k as int) == pv.take(k as int));
                }
            }
            return false;
        }
        k += 1;
    }
    true
}

/// The paths of the generated items that replace the written ones, for
/// documents that can be synchronised.
pub fn sync_document(written: &Vec<TomlEntry>, generated: &Vec<TomlEntry>) -> (r: Vec<Vec<String>>)
    requires
        compatible(doc_view(written@), doc_view(generated@)),
    ensures
        r@.map_values(|p: Vec<String>| path_view(p@)) == sync_paths(
            doc_view(written@),
            doc_view(generated@),
        ),
{
    let ghost w = doc_view(written@);
    let ghost g = doc_view(generated@);
    let mut out: Vec<Vec<String>> = Vec::new();
    let mut i: usize = 0;
    while i < generated.len()
        invariant
            i <= generated.len(),
            w == doc_view(written@),
            g == doc_view(generated@),
            out@.map_values(|p: Vec<String>| path_view(p@)) == replaced_paths(w, g, g.take(i as int)),
        decreases generated.len() - i,
    {
        let e = &generated[i];
        let mut hit = reaches_exec(written, generated, &e.path);
        if hit {
            let n = e.path.len();
            let wk = kind_of_prefix(written, &e.path, n);
            let gk = kind_of_prefix(generated, &e.path, n);
            proof {
                assert(path_view(e.path@).take(n as int) =~= path_view(e.path@));
            }
            hit = !merges_exec(wk, gk);
        }
        proof {
            let gi = g.take(i + 1);
            assert(gi.drop_last() =~= g.take(i as int));
            assert(gi.last() == g[i as int]);
            assert(g[i as int].0 == path_view(e.path@));
        }
        if hit {
            out.push(clone_path(&e.path));
        }
        i += 1;
        proof {
            assert(out@.map_values(|p: Vec<String>| path_view(p@)) =~= replaced_paths(w, g, g.take(i as int)));
        }
    }
    assert(g.take(generated.len() as int) =~= g);
    out
}

fn replaceable_exec(w: ItemKind, g: ItemKind) -> (r: bool)
    ensures
        r == replaceable(w, g),
{
    w == ItemKind::Absent || ((w == ItemKind::Value || w == ItemKind::InlineTable) && (g
        == ItemKind::Value || g == ItemKind::InlineTable))
}

/// Whether the documents can be synchronised; where they cannot (a written
/// table meets a generated value, or an array of tables meets anything
/// written), synchronising is refused.
pub fn sync_compatible(written: &Vec<TomlEntry>, generated: &Vec<TomlEntry>) -> (r: bool)
    ensures
        r == compatible(doc_view(written@), doc_view(generated@)),
{
    let ghost w = doc_view(written@);
    let ghost g = doc_view(generated@);
    let mut i: usize = 0;
    while i < generated.len()
        invariant
            i <= generated.len(),
            w == doc_view(written@),
            g == doc_view(generated@),
            forall|j: int|
                0 <= j < i && #[trigger] replaced_at(w, g, g[j].0) ==> replaceable(
                    kind_at(w, g[j].0),
                    g[j].1,
                ),
        decreases generated.len() - i,
    {
        let e = &generated[i];
        proof {
            assert(g[i as int].0 == path_view(e.path@));
            assert(g[i as int].1 == e.kind);
        }
        if reaches_exec(written, generated, &e.path) {
            let n = e.path.len();
            let wk = kind_of_prefix(written, &e.path, n);
            let gk = kind_of_prefix(generated, &e.path, n);
            proof {
                assert(path_view(e.path@).take(n as int) =~= path_view(e.path@));
            }
            if !merges_exec(wk, gk) && !replaceable_exec(wk, e.kind) {
                assert(replaced_at(w, g, g[i as int].0));
                return false;
            }
        }
        i += 1;
    }
    true
}

fn clone_path(p: &Vec<String>) -> (r: Vec<String>)
    ensures
        path_view(r@) == path_view(p@),
{
    let mut out: Vec<String> = Vec::new();
    let mut i: usize = 0;
    while i < p.len()
        invariant
            i <= p.len(),
            out.len() == i,
            forall|j: int| 0 <= j < i ==> out@[j]@ == p@[j]@,
        decreases p.len() - i,
    {
        out.push(p[i].clone());
        i += 1;
    }
    assert(path_view(out@) =~= path_view(p@));
    out
}

/// One step of bringing an array of tables up to date, in order.
#[derive(Debug, Clone, Copy, PartialEq, Eq, Structural)]
pub enum ArrayStep {
    /// Synchronise the table at this position of the written array (as it
    /// is at this step) with the generated table at the second position.
    Merge(usize, usize),
    /// Append the generated table at this position.
    Push(usize),
}

/// The plan for an array of tables: the steps, then which tables of the
/// resulting array stay.
#[derive(Debug)]
pub struct ArrayPlan {
    pub steps: Vec<ArrayStep>,
    pub keep: Vec<bool>,
}

pub open spec fn id_view(o: Option<String>) -> Option<Seq<char>> {
    match o {
        Some(s) => Some(s@),
        None => None,
    }
}

pub open spec fn ids_view(v: Seq<Option<String>>) -> Seq<Option<Seq<char>>> {
    v.map_values(|o: Option<String>| id_view(o))
}

/// Index of the first entry of `ids` equal to `id`.
pub open spec fn first_id(ids: Seq<Option<Seq<char>>>, id: Option<Seq<char>>) -> Option<int>
    decreases ids.len(),
{
    if ids.len() == 0 {
        None
    } else if ids[0] == id {
        Some(0)
    } else {
        match first_id(ids.skip(1), id) {
            Some(i) => Some(i + 1),
            None => None,
        }
    }
}

/// The steps for the first `k` generated tables, and the identities of the
/// array after them. Each generated table merges into the first table with
/// its identity (a table appended earlier included) or is appended.
pub open spec fn array_steps(
    written: Seq<Option<Seq<char>>>,
    generated: Seq<Option<Seq<char>>>,
    k: nat,
) -> (Seq<ArrayStep>, Seq<Option<Seq<char>>>)
    decreases k,
{
    if k == 0 {
        (Seq::empty(), written)
    } else {
        let (steps, current) = array_steps(written, generated, (k - 1) as nat);
        let id = generated[k - 1];
        match first_id(current, id) {
            Some(j) => (steps.push(ArrayStep::Merge(j as usize, (k - 1) as usize)), current),
            None => (steps.push(ArrayStep::Push((k - 1) as usize)), current.push(id)),
        }
    }
}

/// The plan: every generated table merged or appended in order; afterwards
/// only the tables whose identity some generated table has stay.
pub open spec fn array_plan_of(
    written: Seq<Option<Seq<char>>>,
    generated: Seq<Option<Seq<char>>>,
    steps: Seq<ArrayStep>,
    keep: Seq<bool>,
) -> bool {
    let (s, current) = array_steps(written, generated, generated.len());
    &&& steps == s
    &&& keep.len() == current.len()
    &&& forall|x: int| 0 <= x < keep.len() ==> keep[x] == generated.contains(#[trigger] current[x])
}

fn id_eq(a: &Option<String>, b: &Option<String>) -> (r: bool)
    ensures
        r == (id_view(*a) == id_view(*b)),
{
    match (a, b) {
        (Some(x), Some(y)) => str_eq(x.as_str(), y.as_str()),
        (None, None) => true,
        _ => false,
    }
}

fn clone_id(a: &Option<String>) -> (r: Option<String>)
    ensures
        id_view(r) == id_view(*a),
{
    match a {
        Some(x) => Some(x.clone()),
        None => None,
    }
}

proof fn lemma_first_id(ids: Seq<Option<Seq<char>>>, id: Option<Seq<char>>, i: int)
    requires
        0 <= i < ids.len(),
        ids[i] == id,
        forall|j: int| 0 <= j < i ==> ids[j] != id,
    ensures
        first_id(ids, id) == Some(i),
    decreases i,
{
    if i > 0 {
        lemma_first_id(ids.skip(1), id, i - 1);
    }
}

proof fn lemma_first_id_none(ids: Seq<Option<Seq<char>>>, id: Option<Seq<char>>)
    requires
        forall|j: int| 0 <= j < ids.len() ==> ids[j] != id,
    ensures
        first_id(ids, id) is None,
    decreases ids.len(),
{
    if ids.len() > 0 {
        lemma_first_id_none(ids.skip(1), id);
    }
}

fn find_id(ids: &Vec<Option<String>>, id: &Option<String>) -> (r: Option<usize>)
    ensures
        r matches Some(j) ==> first_id(ids_view(ids@), id_view(*id)) == Some(j as int),
        r is None ==> first_id(ids_view(ids@), id_view(*id)) is None,
{
    let ghost v = ids_view(ids@);
    let mut j: usize = 0;
    while j < ids.len()
        invariant
            j <= ids.len(),
            v == ids_view(ids@),
            forall|l: int| 0 <= l < j ==> v[l] != id_view(*id),
        decreases ids.len() - j,
    {
        if id_eq(&ids[j], id) {
            proof {
                lemma_first_id(v, id_view(*id), j as int);
            }
            return Some(j);
        }
        j += 1;
    }
    proof {
        lemma_first_id_none(v, id_view(*id));
    }
    None
}

fn contains_id(ids: &Vec<Option<String>>, id: &Option<String>) -> (r: bool)
    ensures
        r == ids_view(ids@).contains(id_view(*id)),
{
    let ghost v = ids_view(ids@);
    let mut j: usize = 0;
    while j < ids.len()
        invariant
            j <= ids.len(),
            v == ids_view(ids@),
            forall|l: int| 0 <= l < j ==> v[l] != id_view(*id),
        decreases ids.len() - j,
    {
        if id_eq(&ids[j], id) {
            assert(v[j as int] == id_view(*id));
            return true;
        }
        j += 1;
    }
    false
}

/// The plan for an array of tables, given the identity of each written and
/// each generated table.
pub fn sync_array(written: &Vec<Option<String>>, generated: &Vec<Option<String>>) -> (r: ArrayPlan)
    ensures
        array_plan_of(ids_view(written@), ids_view(generated@), r.steps@, r.keep@),
{
    let ghost w = ids_view(written@);
    let ghost g = ids_view(generated@);
    let mut current: Vec<Option<String>> = Vec::new();
    let mut c: usize = 0;
    while c < written.len()
        invariant
            c <= written.len(),
            current.len() == c,
            ids_view(current@) == w.take(c as int),
            w == ids_view(written@),
        decreases written.len() - c,
    {
        let ghost before = current@;
        let v = clone_id(&written[c]);
        current.push(v);
        proof {
            assert forall|i: int| 0 <= i < current@.len() implies ids_view(current@)[i] == w.take(
                c + 1,
            )[i] by {
                if i < c {
                    assert(current@[i] == before[i]);
                    assert(ids_view(before)[i] == w.take(c as int)[i]);
                } else {
                    assert(current@[i] == v);
                }
            }
        }
        c += 1;
        assert(ids_view(current@) =~= w.take(c as int));
    }
    assert(w.take(written.len() as int) =~= w);
    let mut steps: Vec<ArrayStep> = Vec::new();
    let mut k: usize = 0;
    while k < generated.len()
        invariant
            k <= generated.len(),
            w == ids_view(written@),
            g == ids_view(generated@),
            (steps@, ids_view(current@)) == array_steps(w, g, k as nat),
        decreases generated.len() - k,
    {
        let id = &generated[k];
        match find_id(&current, id) {
            Some(j) => {
                steps.push(ArrayStep::Merge(j, k));
            },
            None => {
                steps.push(ArrayStep::Push(k));
                current.push(clone_id(id));
                assert(ids_view(current@) =~= array_steps(w, g, (k + 1) as nat).1);
            },
        }
        k += 1;
    }
    let mut keep: Vec<bool> = Vec::new();
    let mut x: usize = 0;
    while x < current.len()
        invariant
            x <= current.len(),
            keep.len() == x,
            g == ids_view(generated@),
            forall|y: int|
                0 <= y < x ==> keep@[y] == g.contains(#[trigger] ids_view(current@)[y]),
        decreases current.len() - x,
    {
        keep.push(contains_id(generated, &current[x]));
        x += 1;
    }
    ArrayPlan { steps, keep }
}

/// Every generated table is handled exactly once and in order: step `k`
/// merges or appends generated table `k`.
pub proof fn law_array_plan_handles_each_generated_table(
    written: Seq<Option<Seq<char>>>,
    generated: Seq<Option<Seq<char>>>,
    k: nat,
)
    requires
        k <= generated.len(),
        generated.len() <= usize::MAX,
    ensures
        array_steps(written, generated, k).0.len() == k,
        forall|i: int|
            0 <= i < k ==> match #[trigger] array_steps(written, generated, k).0[i] {
                ArrayStep::Merge(_, g) => g == i,
                ArrayStep::Push(g) => g == i,
            },
    decreases k,
{
    if k > 0 {
        law_array_plan_handles_each_generated_table(written, generated, (k - 1) as nat);
        let prev = array_steps(written, generated, (k - 1) as nat).0;
        let now = array_steps(written, generated, k).0;
        assert forall|i: int| 0 <= i < k implies match #[trigger] now[i] {
            ArrayStep::Merge(_, g) => g == i,
            ArrayStep::Push(g) => g == i,
        } by {
            if i < k - 1 {
                assert(now[i] == prev[i]);
            }
        }
    }
}

/// No identity occurs twice.
pub open spec fn distinct_ids(s: Seq<Option<Seq<char>>>) -> bool {
    forall|i: int, j: int| 0 <= i < j < s.len() ==> s[i] != s[j]
}

/// The identities of `s` that some generated table has, in order: the
/// tables that stay after the plan.
pub open spec fn kept_ids(s: Seq<Option<Seq<char>>>, generated: Seq<Option<Seq<char>>>) -> Seq<
    Option<Seq<char>>,
>
    decreases s.len(),
{
    if s.len() == 0 {
        seq![]
    } else if generated.contains(s.last()) {
        kept_ids(s.drop_last(), generated).push(s.last())
    } else {
        kept_ids(s.drop_last(), generated)
    }
}

proof fn lemma_first_id_found(ids: Seq<Option<Seq<char>>>, id: Option<Seq<char>>)
    ensures
        first_id(ids, id) is Some <==> ids.contains(id),
        first_id(ids, id) matches Some(j) ==> 0 <= j < ids.len() && ids[j] == id,
    decreases ids.len(),
{
    if ids.len() > 0 {
        lemma_first_id_found(ids.skip(1), id);
        if ids[0] != id && ids.contains(id) {
            let j = choose|j: int| 0 <= j < ids.len() && ids[j] == id;
            assert(ids.skip(1)[j - 1] == id);
        }
        if ids.skip(1).contains(id) {
            let j = choose|j: int| 0 <= j < ids.skip(1).len() && ids.skip(1)[j] == id;
            assert(ids[j + 1] == id);
        }
    }
}

proof fn lemma_array_steps(w: Seq<Option<Seq<char>>>, g: Seq<Option<Seq<char>>>, k: nat)
    requires
        k <= g.len(),
    ensures
        w.len() <= array_steps(w, g, k).1.len(),
        array_steps(w, g, k).1.take(w.len() as int) == w,
        forall|x: Option<Seq<char>>|
            #[trigger] array_steps(w, g, k).1.contains(x) <==> (w.contains(x) || g.take(
                k as int,
            ).contains(x)),
        distinct_ids(w) ==> distinct_ids(array_steps(w, g, k).1),
    decreases k,
{
    if k > 0 {
        lemma_array_steps(w, g, (k - 1) as nat);
        let cur = array_steps(w, g, (k - 1) as nat).1;
        let id = g[k - 1];
        lemma_first_id_found(cur, id);
        let now = array_steps(w, g, k).1;
        let gp = g.take(k - 1);
        let gk = g.take(k as int);
        assert(gk =~= gp.push(id));
        if first_id(cur, id) is None {
            assert(now == cur.push(id));
            assert(now.take(w.len() as int) =~= cur.take(w.len() as int));
            assert forall|x: Option<Seq<char>>| #[trigger] now.contains(x) <==> (w.contains(x)
                || gk.contains(x)) by {
                assert(cur.contains(x) <==> (w.contains(x) || gp.contains(x)));
                assert(gk[k - 1] == id);
                if x == id {
                    assert(gk.contains(x));
                }
                if now.contains(x) && x != id {
                    let j = choose|j: int| 0 <= j < now.len() && now[j] == x;
                    assert(cur[j] == x);
                }
                if cur.contains(x) {
                    let j = choose|j: int| 0 <= j < cur.len() && cur[j] == x;
                    assert(now[j] == x);
                }
                if gk.contains(x) && !gp.contains(x) {
                    let j = choose|j: int| 0 <= j < k && gk[j] == x;
                    if j < k - 1 {
                        assert(gp[j] == x);
                    }
                    assert(now[now.len() - 1] == x);
                }
                if gp.contains(x) {
                    let j = choose|j: int| 0 <= j < k - 1 && gp[j] == x;
                    assert(gk[j] == x);
                }
            }
        } else {
            assert(now == cur);
            assert(cur.contains(id));
            assert forall|x: Option<Seq<char>>| #[trigger] now.contains(x) <==> (w.contains(x)
                || gk.contains(x)) by {
                assert(cur.contains(x) <==> (w.contains(x) || gp.contains(x)));
                assert(gk[k - 1] == id);
                if x == id {
                    assert(gk.contains(x));
                }
                if gk.contains(x) && !gp.contains(x) {
                    let j = choose|j: int| 0 <= j < k && gk[j] == x;
                    if j < k - 1 {
                        assert(gp[j] == x);
                    }
                    assert(x == id);
                }
                if gp.contains(x) {
                    let j = choose|j: int| 0 <= j < k - 1 && gp[j] == x;
                    assert(gk[j] == x);
                }
            }
        }
    }
}

proof fn lemma_kept_ids(s: Seq<Option<Seq<char>>>, g: Seq<Option<Seq<char>>>)
    ensures
        forall|x: Option<Seq<char>>|
            #[trigger] kept_ids(s, g).contains(x) <==> (s.contains(x) && g.contains(x)),
        distinct_ids(s) ==> distinct_ids(kept_ids(s, g)),
        (forall|i: int| 0 <= i < s.len() ==> g.contains(#[trigger] s[i])) ==> kept_ids(s, g) == s,
    decreases s.len(),
{
    if s.len() > 0 {
        let u = s.drop_last();
        lemma_kept_ids(u, g);
        let r = kept_ids(s, g);
        let ru = kept_ids(u, g);
        assert forall|x: Option<Seq<char>>| #[trigger] r.contains(x) <==> (s.contains(x)
            && g.contains(x)) by {
            if r.contains(x) {
                let j = choose|j: int| 0 <= j < r.len() && r[j] == x;
                if j < ru.len() {
                    assert(ru[j] == x);
                    assert(ru.contains(x));
                    assert(u.contains(x));
                    let i = choose|i: int| 0 <= i < u.len() && u[i] == x;
                    assert(s[i] == x);
                } else {
                    assert(s[s.len() - 1] == x);
                }
            }
            if s.contains(x) && g.contains(x) {
                let i = choose|i: int| 0 <= i < s.len() && s[i] == x;
                if i < s.len() - 1 {
                    assert(u[i] == x);
                    assert(u.contains(x));
                    assert(ru.contains(x));
                    let j = choose|j: int| 0 <= j < ru.len() && ru[j] == x;
                    if g.contains(s.last()) {
                        assert(r == ru.push(s.last()));
                    } else {
                        assert(r == ru);
                    }
                    assert(r[j] == x);
                } else {
                    assert(r[r.len() - 1] == x);
                }
            }
        }
        if distinct_ids(s) {
            assert forall|i: int, j: int| 0 <= i < j < u.len() implies u[i] != u[j] by {
                assert(s[i] == u[i] && s[j] == u[j]);
            }
            if g.contains(s.last()) {
                assert(!u.contains(s.last())) by {
                    if u.contains(s.last()) {
                        let i = choose|i: int| 0 <= i < u.len() && u[i] == s.last();
                        assert(s[i] == s[s.len() - 1]);
                    }
                }
                assert(!ru.contains(s.last()));
                assert forall|i: int, j: int| 0 <= i < j < r.len() implies r[i] != r[j] by {
                    if j == r.len() - 1 {
                        assert(r[i] == ru[i]);
                        assert(ru.contains(ru[i]));
                    } else {
                        assert(r[i] == ru[i] && r[j] == ru[j]);
                    }
                }
            }
        }
        if forall|i: int| 0 <= i < s.len() ==> g.contains(#[trigger] s[i]) {
            assert forall|i: int| 0 <= i < u.len() implies g.contains(#[trigger] u[i]) by {
                assert(u[i] == s[i]);
            }
            assert(g.contains(s[s.len() - 1]));
            assert(s =~= u.push(s.last()));
        }
    }
}

proof fn lemma_kept_ids_concat(a: Seq<Option<Seq<char>>>, b: Seq<Option<Seq<char>>>, g: Seq<Option<Seq<char>>>)
    ensures
        kept_ids(a + b, g) == kept_ids(a, g) + kept_ids(b, g),
    decreases b.len(),
{
    if b.len() == 0 {
        assert(a + b =~= a);
        assert(kept_ids(a, g) + kept_ids(b, g) =~= kept_ids(a, g));
    } else {
        lemma_kept_ids_concat(a, b.drop_last(), g);
        assert((a + b).drop_last() =~= a + b.drop_last());
        assert((a + b).last() == b.last());
        if g.contains(b.last()) {
            assert(kept_ids(a, g) + kept_ids(b.drop_last(), g).push(b.last()) =~= (kept_ids(a, g)
                + kept_ids(b.drop_last(), g)).push(b.last()));
        }
    }
}

proof fn lemma_all_merge(r: Seq<Option<Seq<char>>>, g: Seq<Option<Seq<char>>>, k: nat)
    requires
        k <= g.len(),
        forall|i: int| 0 <= i < g.len() ==> r.contains(#[trigger] g[i]),
    ensures
        array_steps(r, g, k).1 == r,
        forall|i: int| 0 <= i < k ==> #[trigger] array_steps(r, g, k).0[i] is Merge,
        array_steps(r, g, k).0.len() == k,
    decreases k,
{
    if k > 0 {
        lemma_all_merge(r, g, (k - 1) as nat);
        lemma_first_id_found(r, g[k - 1]);
        let prev = array_steps(r, g, (k - 1) as nat).0;
        let now = array_steps(r, g, k).0;
        assert forall|i: int| 0 <= i < k implies #[trigger] now[i] is Merge by {
            if i < k - 1 {
                assert(now[i] == prev[i]);
            }
        }
    }
}

/// The generated identities that no written table has, in generated order:
/// the tables the plan appends.
pub open spec fn fresh_ids(written: Seq<Option<Seq<char>>>, g: Seq<Option<Seq<char>>>) -> Seq<
    Option<Seq<char>>,
>
    decreases g.len(),
{
    if g.len() == 0 {
        seq![]
    } else if written.contains(g.last()) {
        fresh_ids(written, g.drop_last())
    } else {
        fresh_ids(written, g.drop_last()).push(g.last())
    }
}

proof fn lemma_fresh_ids_in(written: Seq<Option<Seq<char>>>, g: Seq<Option<Seq<char>>>)
    ensures
        forall|x: Option<Seq<char>>|
            #[trigger] fresh_ids(written, g).contains(x) ==> g.contains(x) && !written.contains(x),
    decreases g.len(),
{
    if g.len() > 0 {
        lemma_fresh_ids_in(written, g.drop_last());
        let f = fresh_ids(written, g);
        let fp = fresh_ids(written, g.drop_last());
        assert forall|x: Option<Seq<char>>| #[trigger] f.contains(x) implies g.contains(x)
            && !written.contains(x) by {
            let i = choose|i: int| 0 <= i < f.len() && f[i] == x;
            if i < fp.len() {
                assert(fp[i] == x);
                assert(fp.contains(x));
                let j = choose|j: int| 0 <= j < g.drop_last().len() && g.drop_last()[j] == x;
                assert(g[j] == x);
            } else {
                assert(g[g.len() - 1] == x);
            }
        }
    }
}

proof fn lemma_steps_append_fresh(written: Seq<Option<Seq<char>>>, g: Seq<Option<Seq<char>>>, k: nat)
    requires
        k <= g.len(),
        distinct_ids(g),
    ensures
        array_steps(written, g, k).1 == written + fresh_ids(written, g.take(k as int)),
    decreases k,
{
    if k == 0 {
        assert(g.take(0) =~= Seq::<Option<Seq<char>>>::empty());
        assert(written + Seq::<Option<Seq<char>>>::empty() =~= written);
    } else {
        lemma_steps_append_fresh(written, g, (k - 1) as nat);
        let gk = g.take(k as int);
        let gp = g.take(k - 1);
        assert(gk.drop_last() =~= gp);
        assert(gk.last() == g[k - 1]);
        let id = g[k - 1];
        let cur = array_steps(written, g, (k - 1) as nat).1;
        let fp = fresh_ids(written, gp);
        lemma_first_id_found(cur, id);
        lemma_fresh_ids_in(written, gp);
        if written.contains(id) {
            let i = choose|i: int| 0 <= i < written.len() && written[i] == id;
            assert(cur[i] == id);
        } else {
            assert(!cur.contains(id)) by {
                if cur.contains(id) {
                    let i = choose|i: int| 0 <= i < cur.len() && cur[i] == id;
                    if i < written.len() {
                        assert(written[i] == id);
                    } else {
                        assert(fp[i - written.len()] == id);
                        assert(fp.contains(id));
                        let j = choose|j: int| 0 <= j < gp.len() && gp[j] == id;
                        assert(g[j] == g[k - 1]);
                    }
                }
            }
            assert(written + fp.push(id) =~= (written + fp).push(id));
        }
    }
}

/// When no identity repeats on either side, the plan of an array of tables
/// leaves exactly the generated identities, each once: the written tables
/// that stay, in their order, then the generated tables that are new, in
/// generated order; and planning again with the result changes nothing:
/// every generated table merges and every table stays.
pub proof fn law_array_plan_converges(written: Seq<Option<Seq<char>>>, generated: Seq<Option<Seq<char>>>)
    requires
        distinct_ids(written),
        distinct_ids(generated),
    ensures
        ({
            let r = kept_ids(array_steps(written, generated, generated.len()).1, generated);
            &&& r == kept_ids(written, generated) + fresh_ids(written, generated)
            &&& forall|x: Option<Seq<char>>| #[trigger] r.contains(x) <==> generated.contains(x)
            &&& distinct_ids(r)
            &&& r.take(kept_ids(written, generated).len() as int) == kept_ids(written, generated)
            &&& kept_ids(written, generated).len() <= r.len()
            &&& array_steps(r, generated, generated.len()).1 == r
            &&& forall|i: int|
                0 <= i < generated.len() ==> #[trigger] array_steps(
                    r,
                    generated,
                    generated.len(),
                ).0[i] is Merge
            &&& kept_ids(r, generated) == r
        }),
{
    let n = generated.len();
    let cur = array_steps(written, generated, n).1;
    lemma_array_steps(written, generated, n);
    assert(generated.take(n as int) =~= generated);
    lemma_kept_ids(cur, generated);
    let r = kept_ids(cur, generated);
    assert forall|x: Option<Seq<char>>| #[trigger] r.contains(x) <==> generated.contains(x) by {
        assert(cur.contains(x) <==> (written.contains(x) || generated.take(n as int).contains(x)));
    }
    let extra = cur.skip(written.len() as int);
    assert(cur =~= written + extra);
    lemma_kept_ids_concat(written, extra, generated);
    let kw = kept_ids(written, generated);
    assert(r.take(kw.len() as int) =~= kw);
    assert forall|i: int| 0 <= i < generated.len() implies r.contains(#[trigger] generated[i]) by {
        assert(generated.contains(generated[i]));
    }
    lemma_all_merge(r, generated, n);
    assert forall|i: int| 0 <= i < r.len() implies generated.contains(#[trigger] r[i]) by {
        assert(r.contains(r[i]));
    }
    lemma_kept_ids(r, generated);
    lemma_steps_append_fresh(written, generated, n);
    assert(extra =~= fresh_ids(written, generated));
    lemma_fresh_ids_in(written, generated);
    assert forall|i: int| 0 <= i < extra.len() implies generated.contains(#[trigger] extra[i]) by {
        assert(extra.contains(extra[i]));
    }
    lemma_kept_ids(extra, generated);
}

} // verus!
