//! The ordered maps of the OpenAPI model, held in `indexmap::IndexMap`.
//!
//! Each map is described by the sequence of its entries in iteration order:
//! keys are compared by their contents, inserting a present key replaces its
//! value in place, and inserting a new key appends it.
use vstd::prelude::*;
use indexmap::IndexMap;
use crate::openapi::{ParamSchema, PathItem, Response};

verus! {

/// Declares `indexmap::IndexMap` to Verus as an opaque type; what a map
/// holds is given by the entry functions below.
#[verifier::external_type_specification]
#[verifier::external_body]
#[verifier::reject_recursive_types(K)]
#[verifier::reject_recursive_types(V)]
#[verifier::reject_recursive_types(S)]
pub struct ExIndexMap<K, V, S>(IndexMap<K, V, S>);

/// `IndexMap::clone`, which the derived `Clone` of the model's maps calls.
/// Nothing is claimed of the copy.
pub assume_specification<K: Clone, V: Clone, S: Clone>[ <IndexMap<K, V, S> as Clone>::clone ](
    m: &IndexMap<K, V, S>,
) -> IndexMap<K, V, S>;

/// The first position of key `k` in `entries`.
pub open spec fn key_index<K, V>(entries: Seq<(K, V)>, k: K) -> Option<int>
    decreases entries.len(),
{
    if entries.len() == 0 {
        None
    } else if entries[0].0 == k {
        Some(0)
    } else {
        match key_index(entries.drop_first(), k) {
            Some(i) => Some(i + 1),
            None => None,
        }
    }
}

/// The value stored under `k`, if any.
pub open spec fn entries_lookup<K, V>(entries: Seq<(K, V)>, k: K) -> Option<V> {
    match key_index(entries, k) {
        Some(i) => Some(entries[i].1),
        None => None,
    }
}

/// The entries after inserting `v` under `k`: the value of a present key is
/// replaced where it stands, a new key is appended.
pub open spec fn entries_insert<K, V>(entries: Seq<(K, V)>, k: K, v: V) -> Seq<(K, V)> {
    match key_index(entries, k) {
        Some(i) => entries.update(i, (entries[i].0, v)),
        None => entries.push((k, v)),
    }
}

/// The keys of `entries` are pairwise distinct.
pub open spec fn keys_distinct<K, V>(entries: Seq<(K, V)>) -> bool {
    forall|i: int, j: int| 0 <= i < j < entries.len() ==> entries[i].0 != entries[j].0
}

/// `key_index` finds the first entry with the key, and finds nothing only
/// when no entry has it.
pub proof fn lemma_key_index<K, V>(entries: Seq<(K, V)>, k: K)
    ensures
        key_index(entries, k) matches Some(i) ==> 0 <= i < entries.len() && entries[i].0 == k
            && forall|j: int| 0 <= j < i ==> entries[j].0 != k,
        key_index(entries, k) is None ==> forall|j: int|
            0 <= j < entries.len() ==> entries[j].0 != k,
    decreases entries.len(),
{
    if entries.len() > 0 {
        lemma_key_index(entries.drop_first(), k);
        if entries[0].0 != k {
            assert forall|j: int| 1 <= j < entries.len() implies entries[j].0
                == entries.drop_first()[j - 1].0 by {}
        }
    }
}

/// Inserting keeps keys distinct, and adds an entry exactly when the key is
/// new.
pub proof fn lemma_insert_keeps_distinct<K, V>(entries: Seq<(K, V)>, k: K, v: V)
    requires
        keys_distinct(entries),
    ensures
        keys_distinct(entries_insert(entries, k, v)),
        entries_insert(entries, k, v).len() == entries.len() + (if key_index(entries, k) is Some {
            0int
        } else {
            1int
        }),
{
    lemma_key_index(entries, k);
}

/// The lookup of `k` after inserting `v` under `k` finds `v`; the lookup
/// of any other key is unchanged.
pub proof fn lemma_lookup_after_insert<K, V>(entries: Seq<(K, V)>, k: K, v: V, other: K)
    ensures
        entries_lookup(entries_insert(entries, k, v), k) == Some(v),
        other != k ==> entries_lookup(entries_insert(entries, k, v), other) == entries_lookup(entries, other),
{
    let n = entries_insert(entries, k, v);
    lemma_key_index(entries, k);
    lemma_key_index(entries, other);
    lemma_key_index(n, k);
    lemma_key_index(n, other);
    assert(n.len() >= entries.len());
    assert forall|j: int| 0 <= j < entries.len() implies #[trigger] n[j].0 == entries[j].0 by {}
    match key_index(entries, k) {
        Some(i) => {
            assert(n[i].0 == k);
            if key_index(n, k) != Some(i) {
                let i2 = key_index(n, k)->0;
                assert(n[i2].0 == k);
                assert(i2 < i || i2 > i);
            }
        },
        None => {
            let last = entries.len() as int;
            assert(n[last].0 == k);
            if key_index(n, k) != Some(last) {
                let i2 = key_index(n, k)->0;
                assert(entries[i2].0 == k);
            }
        },
    }
    if other != k {
        match key_index(entries, other) {
            Some(i) => {
                assert(n[i].0 == other);
                if key_index(n, other) != Some(i) {
                    let i2 = key_index(n, other)->0;
                    if i2 < i {
                        assert(entries[i2].0 == other);
                    }
                }
            },
            None => {
                if key_index(n, other) is Some {
                    let i2 = key_index(n, other)->0;
                    if i2 < entries.len() {
                        assert(entries[i2].0 == other);
                    }
                }
            },
        }
    }
}

/// The entries of a property map, keys by their text.
pub uninterp spec fn property_entries(m: IndexMap<String, ParamSchema>) -> Seq<(Seq<char>, ParamSchema)>;

/// The entries of a response map, by status code.
pub uninterp spec fn response_entries(m: IndexMap<u16, Response>) -> Seq<(u16, Response)>;

/// The entries of a path map, keys by their text.
pub uninterp spec fn path_entries(m: IndexMap<String, PathItem>) -> Seq<(Seq<char>, PathItem)>;

/// `IndexMap::new` for property maps: the new map is empty.
#[verifier::external_body]
pub fn new_property_map() -> (m: IndexMap<String, ParamSchema>)
    ensures
        property_entries(m) == Seq::<(Seq<char>, ParamSchema)>::empty(),
{
    IndexMap::new()
}

/// `IndexMap::insert` for property maps: a present key keeps its place and
/// takes the new value, a new key is appended.
#[verifier::external_body]
pub fn insert_property(m: &mut IndexMap<String, ParamSchema>, k: String, v: ParamSchema)
    ensures
        property_entries(*final(m)) == entries_insert(property_entries(*old(m)), k@, v),
{
    m.insert(k, v);
}

/// `IndexMap::new` for response maps: the new map is empty.
#[verifier::external_body]
pub fn new_response_map() -> (m: IndexMap<u16, Response>)
    ensures
        response_entries(m) == Seq::<(u16, Response)>::empty(),
{
    IndexMap::new()
}

/// `IndexMap::insert` for response maps: a present status keeps its place
/// and takes the new response, a new status is appended.
#[verifier::external_body]
pub fn insert_response(m: &mut IndexMap<u16, Response>, k: u16, v: Response)
    ensures
        response_entries(*final(m)) == entries_insert(response_entries(*old(m)), k, v),
{
    m.insert(k, v);
}

/// `IndexMap::new` for path maps: the new map is empty.
#[verifier::external_body]
pub fn new_path_map() -> (m: IndexMap<String, PathItem>)
    ensures
        path_entries(m) == Seq::<(Seq<char>, PathItem)>::empty(),
{
    IndexMap::new()
}

/// `IndexMap::insert` for path maps: a present path keeps its place and
/// takes the new item, a new path is appended.
#[verifier::external_body]
pub fn insert_path(m: &mut IndexMap<String, PathItem>, k: String, v: PathItem)
    ensures
        path_entries(*final(m)) == entries_insert(path_entries(*old(m)), k@, v),
{
    m.insert(k, v);
}

/// `IndexMap::get` for path maps: the item stored under the path `k`.
#[verifier::external_body]
pub fn get_path<'a>(m: &'a IndexMap<String, PathItem>, k: &str) -> (r: Option<&'a PathItem>)
    ensures
        r matches Some(p) ==> entries_lookup(path_entries(*m), k@) == Some(*p),
        r is None ==> entries_lookup(path_entries(*m), k@) is None,
{
    m.get(k)
}

/// `IndexMap::len` for property maps: the number of entries.
#[verifier::external_body]
pub fn property_count(m: &IndexMap<String, ParamSchema>) -> (r: usize)
    ensures
        r == property_entries(*m).len(),
{
    m.len()
}

/// `IndexMap::get_index` for property maps: the entry at position `i`, or
/// `None` past the end.
#[verifier::external_body]
pub fn property_at(m: &IndexMap<String, ParamSchema>, i: usize) -> (r: Option<(&String, &ParamSchema)>)
    ensures
        i < property_entries(*m).len() ==> r is Some,
        i >= property_entries(*m).len() ==> r is None,
        r matches Some(kv) ==> kv.0@ == property_entries(*m)[i as int].0 && *kv.1 == property_entries(*m)[i as int].1,
{
    m.get_index(i)
}

/// `IndexMap::len` for response maps: the number of entries.
#[verifier::external_body]
pub fn response_count(m: &IndexMap<u16, Response>) -> (r: usize)
    ensures
        r == response_entries(*m).len(),
{
    m.len()
}

/// `IndexMap::get_index` for response maps: the entry at position `i`, or
/// `None` past the end.
#[verifier::external_body]
pub fn response_at(m: &IndexMap<u16, Response>, i: usize) -> (r: Option<(&u16, &Response)>)
    ensures
        i < response_entries(*m).len() ==> r is Some,
        i >= response_entries(*m).len() ==> r is None,
        r matches Some(kv) ==> *kv.0 == response_entries(*m)[i as int].0 && *kv.1 == response_entries(*m)[i as int].1,
{
    m.get_index(i)
}

/// `IndexMap::len` for path maps: the number of entries.
#[verifier::external_body]
pub fn path_count(m: &IndexMap<String, PathItem>) -> (r: usize)
    ensures
        r == path_entries(*m).len(),
{
    m.len()
}

/// `IndexMap::get_index` for path maps: the entry at position `i`, or
/// `None` past the end.
#[verifier::external_body]
pub fn path_at(m: &IndexMap<String, PathItem>, i: usize) -> (r: Option<(&String, &PathItem)>)
    ensures
        i < path_entries(*m).len() ==> r is Some,
        i >= path_entries(*m).len() ==> r is None,
        r matches Some(kv) ==> kv.0@ == path_entries(*m)[i as int].0 && *kv.1 == path_entries(*m)[i as int].1,
{
    m.get_index(i)
}

} // verus!
