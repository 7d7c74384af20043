//! Reading a TOML document, as toml_edit holds it, into the list of items
//! with their paths that the synchronisation plans on.
use vstd::prelude::*;
use crate::sync::{
    compatible, doc_view, kind_at, merges, path_view, reaches, replaced_at, replaced_paths,
    sync_compatible, sync_document, sync_paths, ItemKind, TomlEntry,
};

verus! {

#[verifier::external_type_specification]
#[verifier::external_body]
pub struct ExTomlItem(toml_edit::Item);

/// An item of a TOML document: its kind and, for a table or an inline
/// table, its entries in document order.
pub struct TomlTree {
    pub kind: ItemKind,
    pub entries: Seq<(Seq<char>, TomlTree)>,
}

/// The tree of a toml_edit item: its kind, and the key and tree of each
/// entry that toml_edit's `TableLike::iter` yields for it, in that order.
pub uninterp spec fn toml_tree(item: toml_edit::Item) -> TomlTree;

/// Trusted: tells the variants of `toml_edit::Item` apart (an inline table
/// is a value of `Value::InlineTable`).
#[verifier::external_body]
fn item_kind(item: &toml_edit::Item) -> (r: ItemKind)
    ensures
        r == toml_tree(*item).kind,
{
    match item {
        toml_edit::Item::None => ItemKind::Absent,
        toml_edit::Item::Table(_) => ItemKind::Table,
        toml_edit::Item::ArrayOfTables(_) => ItemKind::ArrayOfTables,
        toml_edit::Item::Value(toml_edit::Value::InlineTable(_)) => ItemKind::InlineTable,
        toml_edit::Item::Value(_) => ItemKind::Value,
    }
}

/// Trusted: the entries that `Item::as_table_like` and `TableLike::iter`
/// yield, each key as a `String`. Keys of a table do not repeat (its items
/// are an `IndexMap`), and an item that is no table or inline table has no
/// entries (`as_table_like` gives `None`).
#[verifier::external_body]
fn item_entries(item: &toml_edit::Item) -> (r: Vec<(String, &toml_edit::Item)>)
    ensures
        r.len() == toml_tree(*item).entries.len(),
        forall|i: int|
            0 <= i < r.len() ==> (#[trigger] r[i]).0@ == toml_tree(*item).entries[i].0
                && toml_tree(*r[i].1) == toml_tree(*item).entries[i].1,
        forall|i: int, j: int|
            0 <= i < j < r.len() ==> toml_tree(*item).entries[i].0 != toml_tree(
                *item,
            ).entries[j].0,
        !nests(toml_tree(*item).kind) ==> r.len() == 0,
        forall|i: int|
            0 <= i < r.len() && !nests(#[trigger] toml_tree(*r[i].1).kind) ==> toml_tree(
                *r[i].1,
            ).entries.len() == 0,
{
    match item.as_table_like() {
        Some(t) => t.iter().map(|(k, v)| (k.to_string(), v)).collect(),
        None => Vec::new(),
    }
}

/// Keys of a table do not repeat, an item that is no table or inline table
/// has no entries, and so below.
pub open spec fn tree_ok(t: TomlTree) -> bool
    decreases t,
{
    &&& forall|i: int, j: int| 0 <= i < j < t.entries.len() ==> t.entries[i].0 != t.entries[j].0
    &&& (!nests(t.kind) ==> t.entries.len() == 0)
    &&& forall|i: int| 0 <= i < t.entries.len() ==> tree_ok(#[trigger] t.entries[i].1)
}

/// The path `p` with `key` in front.
pub open spec fn under(key: Seq<char>, d: Seq<(Seq<Seq<char>>, ItemKind)>) -> Seq<(Seq<Seq<char>>, ItemKind)> {
    d.map_values(|e: (Seq<Seq<char>>, ItemKind)| (seq![key] + e.0, e.1))
}

/// Whether the listing descends into an item of this kind.
pub open spec fn nests(k: ItemKind) -> bool {
    k == ItemKind::Table || k == ItemKind::InlineTable
}

/// The items below a tree, each with its path, in document order: an
/// entry first, then what lies below it when it is a table or an inline
/// table.
pub open spec fn listing(t: TomlTree) -> Seq<(Seq<Seq<char>>, ItemKind)>
    decreases t, t.entries.len() + 2,
{
    listing_upto(t, t.entries.len() as nat)
}

pub open spec fn listing_upto(t: TomlTree, n: nat) -> Seq<(Seq<Seq<char>>, ItemKind)>
    decreases t, 1nat + n,
{
    if n == 0 || n > t.entries.len() {
        seq![]
    } else {
        let (k, c) = t.entries[n - 1];
        proof {
            assert(decreases_to!(t => t.entries));
            assert(decreases_to!(t.entries => t.entries[n - 1]));
        }
        let here = seq![(seq![k], c.kind)];
        listing_upto(t, (n - 1) as nat) + here + if nests(c.kind) {
            under(k, listing(c))
        } else {
            seq![]
        }
    }
}

fn prefixed(key: &String, p: &Vec<String>) -> (r: Vec<String>)
    ensures
        path_view(r@) == seq![key@] + path_view(p@),
{
    let mut out: Vec<String> = Vec::new();
    out.push(key.clone());
    let mut i: usize = 0;
    while i < p.len()
        invariant
            i <= p.len(),
            out.len() == i + 1,
            out@[0]@ == key@,
            forall|k: int| 0 <= k < i ==> (#[trigger] out@[k + 1])@ == p@[k]@,
        decreases p.len() - i,
    {
        let c = p[i].clone();
        out.push(c);
        i += 1;
    }
    assert(path_view(out@) =~= seq![key@] + path_view(p@)) by {
        assert forall|k: int| 0 <= k < out.len() implies path_view(out@)[k] == (seq![key@]
            + path_view(p@))[k] by {
            if k > 0 {
                assert(out@[(k - 1) + 1]@ == p@[k - 1]@);
            }
        }
    }
    out
}

/// The items below `item`, each with its path from `item` and its kind, in
/// document order.
pub fn entries(item: &toml_edit::Item) -> (r: Vec<TomlEntry>)
    ensures
        doc_view(r@) == listing(toml_tree(*item)),
        tree_ok(toml_tree(*item)),
    decreases toml_tree(*item),
{
    let ghost t = toml_tree(*item);
    let es = item_entries(item);
    assert forall|j: int|
        0 <= j < es.len() && !nests(#[trigger] t.entries[j].1.kind) implies t.entries[j].1.entries.len()
        == 0 by {
        assert(toml_tree(*es[j].1) == t.entries[j].1);
    }
    let mut out: Vec<TomlEntry> = Vec::new();
    let mut i: usize = 0;
    while i < es.len()
        invariant
            t == toml_tree(*item),
            es.len() == t.entries.len(),
            forall|j: int|
                0 <= j < es.len() ==> (#[trigger] es[j]).0@ == t.entries[j].0
                    && toml_tree(*es[j].1) == t.entries[j].1,
            i <= es.len(),
            doc_view(out@) == listing_upto(t, i as nat),
            forall|j: int| 0 <= j < i ==> tree_ok(#[trigger] t.entries[j].1),
            forall|j: int|
                0 <= j < es.len() && !nests(#[trigger] t.entries[j].1.kind) ==> t.entries[j].1.entries.len()
                    == 0,
        decreases es.len() - i,
    {
        let key = &es[i].0;
        let child: &toml_edit::Item = es[i].1;
        let kind = item_kind(child);
        let ghost c = t.entries[i as int].1;
        let ghost before = doc_view(out@);
        let mut one: Vec<String> = Vec::new();
        one.push(key.clone());
        out.push(TomlEntry { path: one, kind });
        proof {
            assert(one@.map_values(|s: String| s@) =~= seq![key@]);
            assert(doc_view(out@) =~= before + seq![(seq![key@], kind)]);
        }
        if kind == ItemKind::Table || kind == ItemKind::InlineTable {
            proof {
                assert(decreases_to!(t => t.entries));
                assert(decreases_to!(t.entries => t.entries[i as int]));
            }
            let sub = entries(child);
            let ghost mid = doc_view(out@);
            let mut j: usize = 0;
            while j < sub.len()
                invariant
                    j <= sub.len(),
                    doc_view(out@) == mid + under(key@, doc_view(sub@)).take(j as int),
                decreases sub.len() - j,
            {
                let ghost b = doc_view(out@);
                let path = prefixed(key, &sub[j].path);
                out.push(TomlEntry { path, kind: sub[j].kind });
                proof {
                    assert(doc_view(out@) =~= b.push(doc_view(out@)[out@.len() - 1]));
                    assert(under(key@, doc_view(sub@)).take(j + 1) =~= under(
                        key@,
                        doc_view(sub@),
                    ).take(j as int).push(under(key@, doc_view(sub@))[j as int]));
                    assert(doc_view(out@) =~= mid + under(key@, doc_view(sub@)).take(j + 1));
                }
                j += 1;
            }
            proof {
                assert(under(key@, doc_view(sub@)).take(sub.len() as int) =~= under(
                    key@,
                    doc_view(sub@),
                ));
            }
        }
        proof {
            assert(listing_upto(t, (i + 1) as nat) =~= doc_view(out@));
            assert(toml_tree(*es[i as int].1) == c);
            if !nests(c.kind) {
                assert(c.entries.len() == 0);
            }
            assert(tree_ok(c));
        }
        i += 1;
    }
    proof {
        assert(forall|a: int, b: int|
            0 <= a < b < t.entries.len() ==> t.entries[a].0 != t.entries[b].0);
    }
    out
}

/// The paths at which the generated document's items replace the written
/// document's, read from both documents as toml_edit holds them; `None`
/// when the documents cannot be synchronised (a written table meets a
/// generated value, or an array of tables meets a written item).
pub fn plan_document(written: &toml_edit::Item, generated: &toml_edit::Item) -> (r: Option<
    Vec<Vec<String>>,
>)
    ensures
        r is None <==> !compatible(listing(toml_tree(*written)), listing(toml_tree(*generated))),
        tree_ok(toml_tree(*written)),
        tree_ok(toml_tree(*generated)),
        r matches Some(ps) ==> ps@.map_values(|p: Vec<String>| path_view(p@)) == sync_paths(
            listing(toml_tree(*written)),
            listing(toml_tree(*generated)),
        ),
{
    let w = entries(written);
    let g = entries(generated);
    if !sync_compatible(&w, &g) {
        return None;
    }
    Some(sync_document(&w, &g))
}

/// Position of the entry with key `k` (keys of a table do not repeat).
pub open spec fn key_index(es: Seq<(Seq<char>, TomlTree)>, k: Seq<char>) -> Option<int>
    decreases es.len(),
{
    if es.len() == 0 {
        None
    } else if es[0].0 == k {
        Some(0)
    } else {
        match key_index(es.skip(1), k) {
            Some(i) => Some(i + 1),
            None => None,
        }
    }
}

pub proof fn lemma_key_index(es: Seq<(Seq<char>, TomlTree)>, k: Seq<char>)
    ensures
        key_index(es, k) matches Some(i) ==> 0 <= i < es.len() && es[i].0 == k && forall|j: int|
            0 <= j < i ==> (#[trigger] es[j]).0 != k,
    decreases es.len(),
{
    if es.len() > 0 && es[0].0 != k {
        lemma_key_index(es.skip(1), k);
        if key_index(es, k) is Some {
            let i = key_index(es, k)->0;
            assert forall|j: int| 0 <= j < i implies (#[trigger] es[j]).0 != k by {
                if j > 0 {
                    assert(es[j] == es.skip(1)[j - 1]);
                }
            }
        }
    }
}

proof fn lemma_key_index_at(es: Seq<(Seq<char>, TomlTree)>, k: Seq<char>, i: int)
    requires
        0 <= i < es.len(),
        es[i].0 == k,
        forall|j: int| 0 <= j < i ==> (#[trigger] es[j]).0 != k,
    ensures
        key_index(es, k) == Some(i),
    decreases i,
{
    if i > 0 {
        assert forall|j: int| 0 <= j < i - 1 implies (#[trigger] es.skip(1)[j]).0 != k by {
            assert(es.skip(1)[j] == es[j + 1]);
        }
        lemma_key_index_at(es.skip(1), k, i - 1);
    }
}

/// The path of a listed item leads to an item of its kind.
pub open spec fn listed_at(t: TomlTree, e: (Seq<Seq<char>>, ItemKind)) -> bool {
    &&& e.0.len() >= 1
    &&& tree_at(t, e.0) is Some
    &&& tree_at(t, e.0)->0.kind == e.1
}

proof fn lemma_listing(t: TomlTree)
    requires
        tree_ok(t),
    ensures
        forall|i: int| 0 <= i < listing(t).len() ==> listed_at(t, #[trigger] listing(t)[i]),
    decreases t, t.entries.len() + 2,
{
    lemma_listing_upto(t, t.entries.len() as nat);
    assert(listing(t) == listing_upto(t, t.entries.len() as nat));
}

proof fn lemma_listing_upto(t: TomlTree, n: nat)
    requires
        tree_ok(t),
    ensures
        forall|i: int|
            0 <= i < listing_upto(t, n).len() ==> listed_at(t, #[trigger] listing_upto(t, n)[i]),
    decreases t, 1nat + n,
{
    if n == 0 || n > t.entries.len() {
    } else {
        lemma_listing_upto(t, (n - 1) as nat);
        let k = t.entries[n - 1].0;
        let c = t.entries[n - 1].1;
        assert(tree_ok(c));
        assert forall|j: int| 0 <= j < n - 1 implies (#[trigger] t.entries[j]).0 != k by {}
        lemma_key_index_at(t.entries, k, n - 1);
        assert(seq![k].skip(1) =~= Seq::<Seq<char>>::empty());
        assert(tree_at(t, seq![k]) == tree_at(c, seq![k].skip(1)));
        let prev = listing_upto(t, (n - 1) as nat);
        let here = seq![(seq![k], c.kind)];
        let below = if nests(c.kind) {
            under(k, listing(c))
        } else {
            seq![]
        };
        if nests(c.kind) {
            assert(decreases_to!(t => t.entries));
            assert(decreases_to!(t.entries => t.entries[n - 1]));
            lemma_listing(c);
        }
        assert(listing_upto(t, n) == prev + here + below);
        assert forall|i: int| 0 <= i < listing_upto(t, n).len() implies listed_at(
            t,
            #[trigger] listing_upto(t, n)[i],
        ) by {
            let l = listing_upto(t, n);
            if i < prev.len() {
                assert(l[i] == prev[i]);
            } else if i == prev.len() {
                assert(l[i] == here[0]);
            } else {
                let m = i - prev.len() - 1;
                assert(l[i] == below[m]);
                let e = listing(c)[m];
                assert(listed_at(c, e));
                let p = seq![k] + e.0;
                assert(below[m] == (p, e.1));
                assert(p[0] == k);
                assert(p.skip(1) =~= e.0);
                assert(tree_at(t, p) == tree_at(c, p.skip(1)));
            }
        }
    }
}

/// `u` is `t` with the entry `k` holding `v`: replaced where `k` is an
/// entry of `t`, otherwise inserted among the entries.
pub open spec fn with_entry(t: TomlTree, k: Seq<char>, v: TomlTree, u: TomlTree) -> bool {
    &&& u.kind == t.kind
    &&& match key_index(t.entries, k) {
        Some(j) => u.entries == t.entries.update(j, (k, v)),
        None => exists|p: int|
            0 <= p <= t.entries.len() && u.entries == #[trigger] t.entries.insert(p, (k, v)),
    }
}

/// The tree at path `p` below `t`, if every key of `p` is an entry.
pub open spec fn tree_at(t: TomlTree, p: Seq<Seq<char>>) -> Option<TomlTree>
    decreases p.len(),
{
    if p.len() == 0 {
        Some(t)
    } else {
        match key_index(t.entries, p[0]) {
            Some(j) => {
                proof {
                    lemma_key_index(t.entries, p[0]);
                    assert(decreases_to!(t => t.entries));
                }
                tree_at(t.entries[j].1, p.skip(1))
            },
            None => None,
        }
    }
}

/// A value can be set at path `p` below `t`: `p` is not empty, and `t` and
/// every item on the way to the last key are tables or inline tables.
pub open spec fn settable(t: TomlTree, p: Seq<Seq<char>>) -> bool
    decreases p.len(),
{
    &&& p.len() > 0
    &&& nests(t.kind)
    &&& p.len() > 1 ==> match key_index(t.entries, p[0]) {
        Some(j) => {
            proof {
                lemma_key_index(t.entries, p[0]);
                assert(decreases_to!(t => t.entries));
            }
            settable(t.entries[j].1, p.skip(1))
        },
        None => false,
    }
}

/// `u` is `t` with `v` set at the path `p`.
pub open spec fn set_at(t: TomlTree, p: Seq<Seq<char>>, v: TomlTree, u: TomlTree) -> bool
    decreases p.len(),
{
    if p.len() <= 1 {
        p.len() == 1 && with_entry(t, p[0], v, u)
    } else {
        match key_index(t.entries, p[0]) {
            Some(j) => {
                proof {
                    lemma_key_index(t.entries, p[0]);
                    assert(decreases_to!(t => t.entries));
                }
                &&& u.kind == t.kind
                &&& u.entries.len() == t.entries.len()
                &&& u.entries == t.entries.update(j, (p[0], u.entries[j].1))
                &&& set_at(t.entries[j].1, p.skip(1), v, u.entries[j].1)
            },
            None => false,
        }
    }
}

proof fn lemma_key_index_none(es: Seq<(Seq<char>, TomlTree)>, k: Seq<char>)
    requires
        key_index(es, k) is None,
    ensures
        forall|i: int| 0 <= i < es.len() ==> (#[trigger] es[i]).0 != k,
    decreases es.len(),
{
    if es.len() > 0 {
        lemma_key_index_none(es.skip(1), k);
        assert forall|i: int| 0 <= i < es.len() implies (#[trigger] es[i]).0 != k by {
            if i > 0 {
                assert(es[i] == es.skip(1)[i - 1]);
            }
        }
    }
}

proof fn lemma_key_index_update(es: Seq<(Seq<char>, TomlTree)>, j: int, k: Seq<char>, v: TomlTree)
    requires
        key_index(es, k) == Some(j),
    ensures
        key_index(es.update(j, (k, v)), k) == Some(j),
    decreases es.len(),
{
    lemma_key_index(es, k);
    if j > 0 {
        lemma_key_index(es.skip(1), k);
        assert(es.update(j, (k, v)).skip(1) =~= es.skip(1).update(j - 1, (k, v)));
        lemma_key_index_update(es.skip(1), j - 1, k, v);
    }
}

proof fn lemma_key_index_insert(es: Seq<(Seq<char>, TomlTree)>, p: int, k: Seq<char>, v: TomlTree)
    requires
        key_index(es, k) is None,
        0 <= p <= es.len(),
    ensures
        key_index(es.insert(p, (k, v)), k) == Some(p),
    decreases es.len(),
{
    lemma_key_index_none(es, k);
    if p > 0 {
        assert(es[0].0 != k);
        assert(es.insert(p, (k, v)).skip(1) =~= es.skip(1).insert(p - 1, (k, v)));
        assert(key_index(es.skip(1), k) is None) by {
            if key_index(es.skip(1), k) is Some {
                lemma_key_index(es.skip(1), k);
                let i = key_index(es.skip(1), k)->0;
                assert(es[i + 1] == es.skip(1)[i]);
            }
        }
        lemma_key_index_insert(es.skip(1), p - 1, k, v);
    }
}

/// Setting a value at a path puts exactly that value there.
pub proof fn law_set_places_value(t: TomlTree, p: Seq<Seq<char>>, v: TomlTree, u: TomlTree)
    requires
        set_at(t, p, v, u),
    ensures
        tree_at(u, p) == Some(v),
    decreases p.len(),
{
    let k = p[0];
    assert(p.skip(1).len() == p.len() - 1);
    if p.len() == 1 {
        match key_index(t.entries, k) {
            Some(j) => {
                lemma_key_index(t.entries, k);
                lemma_key_index_update(t.entries, j, k, v);
            },
            None => {
                let q = choose|q: int|
                    0 <= q <= t.entries.len() && u.entries == #[trigger] t.entries.insert(q, (k, v));
                lemma_key_index_insert(t.entries, q, k, v);
            },
        }
        assert(p.skip(1).len() == 0);
        assert(tree_at(v, p.skip(1)) == Some(v));
        let i = key_index(u.entries, k)->0;
        assert(u.entries[i].1 == v);
    } else {
        let j = key_index(t.entries, k)->0;
        lemma_key_index(t.entries, k);
        let c = u.entries[j].1;
        law_set_places_value(t.entries[j].1, p.skip(1), v, c);
        lemma_key_index_update(t.entries, j, k, c);
        assert(u.entries == t.entries.update(j, (k, c)));
        assert(key_index(u.entries, k) == Some(j));
        assert(tree_at(u, p) == tree_at(c, p.skip(1)));
    }
}

/// Trusted: `Item::as_table_like` and `TableLike::get` (`None` for an item
/// that is no table). Both skip and yield the same entries as
/// `TableLike::iter`, so the entry found is the one with that key.
#[verifier::external_body]
fn get_entry<'a>(item: &'a toml_edit::Item, key: &str) -> (r: Option<&'a toml_edit::Item>)
    ensures
        r is Some <==> key_index(toml_tree(*item).entries, key@) is Some,
        r matches Some(c) ==> toml_tree(*c) == toml_tree(*item).entries[key_index(
            toml_tree(*item).entries,
            key@,
        )->0].1,
{
    item.as_table_like().and_then(|t| t.get(key))
}

/// Trusted: `Item::clone`, a deep copy.
#[verifier::external_body]
fn clone_item(item: &toml_edit::Item) -> (r: toml_edit::Item)
    ensures
        toml_tree(r) == toml_tree(*item),
{
    item.clone()
}

/// Trusted: `TableLike::entry(key).or_insert(Item::None)` on a table or an
/// inline table, then the value stored there. An existing entry keeps its
/// position; a new one is inserted (at the end, or where the table keeps an
/// empty placeholder for that key, which `iter` does not yield).
#[verifier::external_body]
fn set_entry(item: &mut toml_edit::Item, key: &str, value: toml_edit::Item)
    requires
        nests(toml_tree(*old(item)).kind),
        toml_tree(value).kind != ItemKind::Absent,
    ensures
        with_entry(toml_tree(*old(item)), key@, toml_tree(value), toml_tree(*final(item))),
{
    if let Some(t) = item.as_table_like_mut() {
        *t.entry(key).or_insert(toml_edit::Item::None) = value;
    }
}

/// Trusted: `TableLike::get_mut` on a table or an inline table that has the
/// entry `key`. The entry keeps its position and takes what the returned
/// item holds at the end of the borrow (an item that becomes empty is not
/// described).
#[verifier::external_body]
fn entry_mut<'a>(item: &'a mut toml_edit::Item, key: &str) -> (r: &'a mut toml_edit::Item)
    requires
        nests(toml_tree(*old(item)).kind),
        key_index(toml_tree(*old(item)).entries, key@) is Some,
    ensures
        toml_tree(*r) == toml_tree(*old(item)).entries[key_index(
            toml_tree(*old(item)).entries,
            key@,
        )->0].1,
        toml_tree(*final(r)).kind != ItemKind::Absent ==> toml_tree(*final(item)).kind == toml_tree(
            *old(item),
        ).kind && toml_tree(*final(item)).entries == toml_tree(*old(item)).entries.update(
            key_index(toml_tree(*old(item)).entries, key@)->0,
            (key@, toml_tree(*final(r))),
        ),
{
    item.as_table_like_mut().unwrap().get_mut(key).unwrap()
}

/// The item at `path[i..]` below `item`.
fn lookup<'a>(item: &'a toml_edit::Item, path: &Vec<String>, i: usize) -> (r: Option<
    &'a toml_edit::Item,
>)
    requires
        i <= path.len(),
    ensures
        r is Some <==> tree_at(toml_tree(*item), path_view(path@).skip(i as int)) is Some,
        r matches Some(c) ==> toml_tree(*c) == tree_at(
            toml_tree(*item),
            path_view(path@).skip(i as int),
        )->0,
    decreases path.len() - i,
{
    let ghost q = path_view(path@).skip(i as int);
    if i == path.len() {
        assert(q.len() == 0);
        return Some(item);
    }
    assert(q[0] == path@[i as int]@);
    assert(q.skip(1) =~= path_view(path@).skip(i + 1));
    match get_entry(item, path[i].as_str()) {
        None => None,
        Some(c) => lookup(c, path, i + 1),
    }
}

/// Sets `value` at `path[i..]` below `item`.
fn set_path(item: &mut toml_edit::Item, path: &Vec<String>, i: usize, value: toml_edit::Item)
    requires
        i < path.len(),
        settable(toml_tree(*old(item)), path_view(path@).skip(i as int)),
        toml_tree(value).kind != ItemKind::Absent,
    ensures
        set_at(
            toml_tree(*old(item)),
            path_view(path@).skip(i as int),
            toml_tree(value),
            toml_tree(*final(item)),
        ),
    decreases path.len() - i,
{
    let ghost q = path_view(path@).skip(i as int);
    let ghost t = toml_tree(*item);
    assert(q[0] == path@[i as int]@);
    if i + 1 == path.len() {
        set_entry(item, path[i].as_str(), value);
    } else {
        assert(q.skip(1) =~= path_view(path@).skip(i + 1));
        proof {
            lemma_key_index(t.entries, q[0]);
        }
        let ghost j = key_index(t.entries, q[0])->0;
        assert(settable(t.entries[j].1, q.skip(1)));
        let ghost vt = toml_tree(value);
        let child = entry_mut(item, path[i].as_str());
        let ghost c0 = toml_tree(*child);
        set_path(child, path, i + 1, value);
        let ghost c1 = toml_tree(*child);
        assert(set_at(c0, q.skip(1), vt, c1));
        assert(c1.kind == c0.kind) by {
            if q.skip(1).len() > 1 {
                lemma_key_index(c0.entries, q.skip(1)[0]);
            }
        }
        assert(toml_tree(*item).entries == t.entries.update(j, (q[0], c1)));
        assert(toml_tree(*item).entries[j].1 == c1);
    }
}

/// Why two documents cannot be synchronised.
#[derive(Debug, Clone, Copy, PartialEq, Eq, Structural)]
pub enum SyncError {
    /// A written item cannot take the generated one (a table meets a value,
    /// or an array of tables meets anything).
    ItemsDontMatch,
}

proof fn lemma_kind_at_found(d: Seq<(Seq<Seq<char>>, ItemKind)>, p: Seq<Seq<char>>) -> (i: int)
    requires
        kind_at(d, p) != ItemKind::Absent,
    ensures
        0 <= i < d.len(),
        d[i].0 == p,
        d[i].1 == kind_at(d, p),
    decreases d.len(),
{
    if d[0].0 == p {
        0
    } else {
        let i = lemma_kind_at_found(d.skip(1), p);
        assert(d[i + 1] == d.skip(1)[i]);
        i + 1
    }
}

/// Every planned path was replaced in the written document and is the path
/// of a generated item.
proof fn lemma_replaced_paths(
    w: Seq<(Seq<Seq<char>>, ItemKind)>,
    g: Seq<(Seq<Seq<char>>, ItemKind)>,
    part: Seq<(Seq<Seq<char>>, ItemKind)>,
)
    ensures
        forall|r: int|
            0 <= r < replaced_paths(w, g, part).len() ==> replaced_at(
                w,
                g,
                #[trigger] replaced_paths(w, g, part)[r],
            ) && exists|i: int| 0 <= i < part.len() && part[i].0 == replaced_paths(w, g, part)[r],
    decreases part.len(),
{
    if part.len() > 0 {
        let init = part.drop_last();
        lemma_replaced_paths(w, g, init);
        let rp = replaced_paths(w, g, part);
        let ri = replaced_paths(w, g, init);
        assert forall|r: int| 0 <= r < rp.len() implies replaced_at(w, g, #[trigger] rp[r])
            && exists|i: int| 0 <= i < part.len() && part[i].0 == rp[r] by {
            if r < ri.len() {
                assert(rp[r] == ri[r]);
                let i = choose|i: int| 0 <= i < init.len() && init[i].0 == ri[r];
                assert(part[i] == init[i]);
            } else {
                assert(rp[r] == part.last().0);
                assert(part[part.len() - 1] == part.last());
            }
        }
    }
}

/// `p` starts `q`.
pub open spec fn is_prefix(p: Seq<Seq<char>>, q: Seq<Seq<char>>) -> bool {
    p.len() <= q.len() && q.take(p.len() as int) == p
}

/// The items on the way to the last key of `p` exist below `t` and are
/// tables or inline tables.
pub open spec fn ready(t: TomlTree, p: Seq<Seq<char>>) -> bool {
    forall|i: int|
        0 < i < p.len() ==> #[trigger] tree_at(t, p.take(i)) is Some && nests(
            tree_at(t, p.take(i))->0.kind,
        )
}

proof fn lemma_tree_at_step(t: TomlTree, p: Seq<Seq<char>>, j: int)
    requires
        p.len() >= 1,
        key_index(t.entries, p[0]) == Some(j),
    ensures
        tree_at(t, p) == tree_at(t.entries[j].1, p.skip(1)),
{
}

proof fn lemma_settable(t: TomlTree, p: Seq<Seq<char>>)
    requires
        p.len() >= 1,
        nests(t.kind),
        ready(t, p),
    ensures
        settable(t, p),
    decreases p.len(),
{
    if p.len() > 1 {
        let q1 = p.take(1);
        assert(tree_at(t, q1) is Some);
        assert(q1[0] == p[0]);
        let j = key_index(t.entries, p[0])->0;
        lemma_key_index(t.entries, p[0]);
        let c = t.entries[j].1;
        assert(q1.skip(1) =~= Seq::<Seq<char>>::empty());
        lemma_tree_at_step(t, q1, j);
        assert(tree_at(t, q1) == Some(c));
        let rest = p.skip(1);
        assert forall|i: int| 0 < i < rest.len() implies #[trigger] tree_at(c, rest.take(i)) is Some
            && nests(tree_at(c, rest.take(i))->0.kind) by {
            let qi = p.take(i + 1);
            assert(tree_at(t, qi) is Some);
            assert(qi[0] == p[0]);
            assert(qi.skip(1) =~= rest.take(i));
            lemma_tree_at_step(t, qi, j);
        }
        lemma_settable(c, rest);
    }
}

proof fn lemma_other_key(
    t: Seq<(Seq<char>, TomlTree)>,
    u: Seq<(Seq<char>, TomlTree)>,
    k: Seq<char>,
    k2: Seq<char>,
    j2: int,
    j3: int,
)
    requires
        k != k2,
        key_index(t, k2) == Some(j2),
        0 <= j3 < u.len(),
        u[j3] == t[j2],
        forall|a: int| 0 <= a < j3 ==> (#[trigger] u[a]).0 == k || exists|b: int| 0 <= b < j2 && u[a] == t[b],
    ensures
        key_index(u, k2) == Some(j3),
{
    lemma_key_index(t, k2);
    assert forall|a: int| 0 <= a < j3 implies (#[trigger] u[a]).0 != k2 by {
        if u[a].0 != k {
            let b = choose|b: int| 0 <= b < j2 && u[a] == t[b];
            assert(t[b].0 != k2);
        }
    }
    lemma_key_index_at(u, k2, j3);
}

/// Setting at `p` keeps every item that `p` does not start, and the kind of
/// every item on the way to `p`.
proof fn lemma_set_keeps(t: TomlTree, p: Seq<Seq<char>>, v: TomlTree, u: TomlTree, q: Seq<Seq<char>>)
    requires
        set_at(t, p, v, u),
        !is_prefix(p, q),
        tree_at(t, q) is Some,
    ensures
        tree_at(u, q) is Some,
        tree_at(u, q)->0.kind == tree_at(t, q)->0.kind,
    decreases p.len(),
{
    if q.len() > 0 {
        let k = p[0];
        let k2 = q[0];
        let j2 = key_index(t.entries, k2)->0;
        lemma_key_index(t.entries, k2);
        lemma_tree_at_step(t, q, j2);
        let c = t.entries[j2].1;
        if k2 != k {
            let j = key_index(t.entries, k);
            if p.len() == 1 && j is None {
                let pos = choose|pos: int|
                    0 <= pos <= t.entries.len() && u.entries == #[trigger] t.entries.insert(pos, (k, v));
                let j3 = if j2 < pos {
                    j2
                } else {
                    j2 + 1
                };
                assert(u.entries[j3] == t.entries[j2]);
                assert forall|a: int| 0 <= a < j3 implies (#[trigger] u.entries[a]).0 == k || exists|b: int|
                    0 <= b < j2 && u.entries[a] == t.entries[b] by {
                    if a < pos {
                        assert(u.entries[a] == t.entries[a]);
                    } else if a > pos {
                        assert(u.entries[a] == t.entries[a - 1]);
                    }
                }
                lemma_other_key(t.entries, u.entries, k, k2, j2, j3);
                lemma_tree_at_step(u, q, j3);
            } else {
                let jj = j->0;
                lemma_key_index(t.entries, k);
                assert(u.entries.len() == t.entries.len());
                assert(u.entries[jj].0 == k);
                assert(jj != j2);
                assert(u.entries[j2] == t.entries[j2]);
                assert forall|a: int| 0 <= a < j2 implies (#[trigger] u.entries[a]).0 == k || exists|b: int|
                    0 <= b < j2 && u.entries[a] == t.entries[b] by {
                    if a != jj {
                        assert(u.entries[a] == t.entries[a]);
                    }
                }
                lemma_other_key(t.entries, u.entries, k, k2, j2, j2);
                lemma_tree_at_step(u, q, j2);
            }
        } else {
            if p.len() == 1 {
                assert(q.take(1) =~= p);
                assert(false);
            }
            let c2 = u.entries[j2].1;
            lemma_key_index_update(t.entries, j2, k, c2);
            assert(u.entries == t.entries.update(j2, (k, c2)));
            lemma_tree_at_step(u, q, j2);
            assert(!is_prefix(p.skip(1), q.skip(1))) by {
                if is_prefix(p.skip(1), q.skip(1)) {
                    assert forall|i: int| 0 <= i < p.len() implies q.take(p.len() as int)[i]
                        == p[i] by {
                        if i > 0 {
                            assert(q.skip(1).take(p.len() - 1)[i - 1] == p.skip(1)[i - 1]);
                        }
                    }
                    assert(q.take(p.len() as int) =~= p);
                }
            }
            lemma_set_keeps(c, p.skip(1), v, c2, q.skip(1));
        }
    }
}

/// One step of synchronising: the generated item at `p`, set into `a`,
/// gives `b`; an empty generated item (which `TableLike::iter` of an inline
/// table may yield) leaves `a` as it is.
pub open spec fn sync_step(a: TomlTree, s: TomlTree, p: Seq<Seq<char>>, b: TomlTree) -> bool {
    if tree_at(s, p)->0.kind == ItemKind::Absent {
        b == a
    } else {
        set_at(a, p, tree_at(s, p)->0, b)
    }
}

/// `trail` runs from `t` to its last tree by one step of synchronising for
/// each path of `ps`, in order.
pub open spec fn set_trail(t: TomlTree, s: TomlTree, ps: Seq<Seq<Seq<char>>>, trail: Seq<TomlTree>) -> bool {
    &&& trail.len() == ps.len() + 1
    &&& trail[0] == t
    &&& forall|i: int| 0 <= i < ps.len() ==> sync_step(#[trigger] trail[i], s, ps[i], trail[i + 1])
}

/// `u` is `t` after setting, in order, the tree of `s` at each path of `ps`.
pub open spec fn applied(t: TomlTree, s: TomlTree, ps: Seq<Seq<Seq<char>>>, u: TomlTree) -> bool {
    exists|trail: Seq<TomlTree>| #[trigger] set_trail(t, s, ps, trail) && trail.last() == u
}

/// Brings the written table `dst` up to date with the generated `src`:
/// every planned path takes the generated item, so written tables are
/// merged key by key and keep their comments and layout. It succeeds
/// exactly when the documents can be synchronised; otherwise it is refused
/// and `dst` stays as it is.
pub fn sync_items(dst: &mut toml_edit::Item, src: &toml_edit::Item) -> (r: Result<(), SyncError>)
    requires
        nests(toml_tree(*old(dst)).kind),
    ensures
        r is Ok <==> compatible(listing(toml_tree(*old(dst))), listing(toml_tree(*src))),
        r is Err ==> toml_tree(*final(dst)) == toml_tree(*old(dst)),
        r is Ok ==> applied(
            toml_tree(*old(dst)),
            toml_tree(*src),
            sync_paths(listing(toml_tree(*old(dst))), listing(toml_tree(*src))),
            toml_tree(*final(dst)),
        ),
{
    let ghost t0 = toml_tree(*dst);
    let ghost s = toml_tree(*src);
    let plan = match plan_document(dst, src) {
        Some(p) => p,
        None => return Err(SyncError::ItemsDontMatch),
    };
    let ghost wl = listing(t0);
    let ghost gl = listing(s);
    let ghost ps = plan@.map_values(|p: Vec<String>| path_view(p@));
    proof {
        lemma_replaced_paths(wl, gl, gl);
        lemma_listing(s);
        lemma_listing(t0);
        assert(ps == replaced_paths(wl, gl, gl));
        assert forall|m: int| 0 <= m < ps.len() implies (#[trigger] ps[m]).len() >= 1
            && replaced_at(wl, gl, ps[m]) && tree_at(s, ps[m]) is Some by {
            let i = choose|i: int| 0 <= i < gl.len() && gl[i].0 == ps[m];
            assert(listed_at(s, gl[i]));
        }
        assert forall|m: int| 0 <= m < ps.len() implies ready(t0, #[trigger] ps[m]) by {
            let p = ps[m];
            assert forall|i: int| 0 < i < p.len() implies #[trigger] tree_at(t0, p.take(i)) is Some
                && nests(tree_at(t0, p.take(i))->0.kind) by {
                assert(reaches(wl, gl, p));
                assert(merges(kind_at(wl, p.take(i)), kind_at(gl, p.take(i))));
                let idx = lemma_kind_at_found(wl, p.take(i));
                assert(listed_at(t0, wl[idx]));
            }
        }
    }
    let ghost mut trail: Seq<TomlTree> = seq![t0];
    let mut k: usize = 0;
    while k < plan.len()
        invariant
            k <= plan.len(),
            s == toml_tree(*src),
            ps == plan@.map_values(|p: Vec<String>| path_view(p@)),
            wl == listing(t0),
            gl == listing(s),
            t0 == toml_tree(*old(dst)),
            set_trail(t0, s, ps.take(k as int), trail),
            trail.last() == toml_tree(*dst),
            nests(toml_tree(*dst).kind),
            forall|m: int|
                0 <= m < ps.len() ==> (#[trigger] ps[m]).len() >= 1 && replaced_at(wl, gl, ps[m])
                    && tree_at(s, ps[m]) is Some,
            forall|m: int| k <= m < ps.len() ==> ready(toml_tree(*dst), #[trigger] ps[m]),
        decreases plan.len() - k,
    {
        let ghost before = toml_tree(*dst);
        let path = &plan[k];
        assert(path_view(path@).skip(0) =~= path_view(path@));
        assert(ps[k as int] == path_view(path@));
        let ghost pk = ps[k as int];
        let found = lookup(src, path, 0);
        let v = clone_item(found.unwrap());
        assert(toml_tree(v) == tree_at(s, pk)->0);
        if item_kind(&v) != ItemKind::Absent {
            proof {
                lemma_settable(before, pk);
            }
            set_path(dst, path, 0, v);
        }
        proof {
            let after = toml_tree(*dst);
            assert(sync_step(before, s, pk, after));
            assert(after.kind == before.kind) by {
                if tree_at(s, pk)->0.kind != ItemKind::Absent {
                    if pk.len() > 1 {
                        lemma_key_index(before.entries, pk[0]);
                    }
                }
            }
            assert forall|m: int| k + 1 <= m < ps.len() implies ready(after, #[trigger] ps[m]) by {
                let p = ps[m];
                assert(ready(before, p));
                assert forall|i: int| 0 < i < p.len() implies #[trigger] tree_at(after, p.take(i)) is Some
                    && nests(tree_at(after, p.take(i))->0.kind) by {
                    let q = p.take(i);
                    assert(tree_at(before, q) is Some);
                    if tree_at(s, pk)->0.kind != ItemKind::Absent {
                        assert(!is_prefix(pk, q)) by {
                            if is_prefix(pk, q) {
                                let l = pk.len() as int;
                                assert(q.take(l) =~= p.take(l));
                                assert(reaches(wl, gl, p));
                                assert(merges(kind_at(wl, p.take(l)), kind_at(gl, p.take(l))));
                                assert(replaced_at(wl, gl, pk));
                            }
                        }
                        lemma_set_keeps(before, pk, tree_at(s, pk)->0, after, q);
                    }
                }
            }
            let old_trail = trail;
            trail = trail.push(after);
            let next = ps.take(k + 1);
            assert forall|i: int| 0 <= i < next.len() implies sync_step(
                #[trigger] trail[i],
                s,
                next[i],
                trail[i + 1],
            ) by {
                if i < k {
                    assert(trail[i] == old_trail[i] && trail[i + 1] == old_trail[i + 1]);
                    assert(next[i] == ps.take(k as int)[i]);
                } else {
                    assert(trail[i] == before);
                }
            }
        }
        k += 1;
    }
    assert(ps.take(plan.len() as int) =~= ps);
    assert(set_trail(t0, s, ps, trail));
    Ok(())
}

} // verus!

