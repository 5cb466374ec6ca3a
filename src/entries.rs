//! The ordered map of entries, kept in an `indexmap::IndexMap`.
use vstd::prelude::*;
use indexmap::IndexMap;
use serde_json::{Error, Value};

verus! {

#[verifier::external_type_specification]
#[verifier::external_body]
#[verifier::reject_recursive_types(K)]
#[verifier::reject_recursive_types(V)]
#[verifier::reject_recursive_types(S)]
pub struct ExIndexMap<K, V, S>(IndexMap<K, V, S>);

/// The pairs that an entry map holds, in their order.
pub uninterp spec fn entries_of(m: IndexMap<String, Value>) -> Seq<(Seq<char>, Value)>;

/// The compact JSON text that the serializer makes of an entry map, or its
/// error.
pub uninterp spec fn json_document(entries: Seq<(Seq<char>, Value)>) -> Result<Seq<char>, Error>;

/// Where key `k` stands among the pairs, if it does.
pub open spec fn key_index(es: Seq<(Seq<char>, Value)>, k: Seq<char>) -> Option<int> {
    if exists|i: int| 0 <= i < es.len() && (#[trigger] es[i]).0 == k {
        Some(choose|i: int| 0 <= i < es.len() && (#[trigger] es[i]).0 == k)
    } else {
        None
    }
}

/// No key stands twice among the pairs.
pub open spec fn keys_unique(es: Seq<(Seq<char>, Value)>) -> bool {
    forall|i: int, j: int|
        0 <= i < es.len() && 0 <= j < es.len() && (#[trigger] es[i]).0 == (#[trigger] es[j]).0
            ==> i == j
}

/// The value that key `k` maps to, if any.
pub open spec fn lookup(es: Seq<(Seq<char>, Value)>, k: Seq<char>) -> Option<Value> {
    match key_index(es, k) {
        Some(i) => Some(es[i].1),
        None => None,
    }
}

/// The pairs after inserting `(k, v)`: a present key keeps its place and
/// takes the new value; a new key goes last.
pub open spec fn insert_entry(es: Seq<(Seq<char>, Value)>, k: Seq<char>, v: Value) -> Seq<
    (Seq<char>, Value),
> {
    match key_index(es, k) {
        Some(i) => es.update(i, (k, v)),
        None => es.push((k, v)),
    }
}

/// Relies on `IndexMap::new`: an empty map.
#[verifier::external_body]
pub(crate) fn new_map() -> (r: IndexMap<String, Value>)
    ensures
        entries_of(r) == Seq::<(Seq<char>, Value)>::empty(),
{
    IndexMap::new()
}

/// Relies on `IndexMap::insert`: an existing key keeps its place in the
/// order and takes the new value; a new key is inserted last.
#[verifier::external_body]
pub(crate) fn insert_pair(m: &mut IndexMap<String, Value>, k: String, v: Value)
    ensures
        entries_of(*final(m)) == insert_entry(entries_of(*old(m)), k@, v),
{
    m.insert(k, v);
}

/// Relies on `serde_json::to_string` of the map: the compact JSON object of
/// its pairs in their order.
#[verifier::external_body]
pub(crate) fn map_to_json(m: &IndexMap<String, Value>) -> (r: Result<String, Error>)
    ensures
        match r {
            Ok(t) => json_document(entries_of(*m)) == Ok::<Seq<char>, Error>(t@),
            Err(e) => json_document(entries_of(*m)) == Err::<Seq<char>, Error>(e),
        },
{
    serde_json::to_string(m)
}

/// Inserting keeps keys unique.
pub proof fn lemma_insert_keeps_unique(es: Seq<(Seq<char>, Value)>, k: Seq<char>, v: Value)
    requires
        keys_unique(es),
    ensures
        keys_unique(insert_entry(es, k, v)),
        lookup(insert_entry(es, k, v), k) == Some(v),
{
    let r = insert_entry(es, k, v);
    match key_index(es, k) {
        Some(i) => {
            assert(0 <= i < es.len() && es[i].0 == k);
            assert(keys_unique(r));
            assert(r[i].0 == k);
            assert(key_index(r, k) == Some(i));
        },
        None => {
            assert(forall|i: int| 0 <= i < es.len() ==> (#[trigger] es[i]).0 != k);
            assert(keys_unique(r)) by {
                assert forall|i: int, j: int|
                    0 <= i < r.len() && 0 <= j < r.len() && (#[trigger] r[i]).0 == (
                    #[trigger] r[j]).0 implies i == j by {
                    if i < es.len() && j < es.len() {
                        assert(r[i] == es[i] && r[j] == es[j]);
                    } else if i < es.len() {
                        assert(r[i] == es[i]);
                    } else if j < es.len() {
                        assert(r[j] == es[j]);
                    }
                }
            }
            let n = es.len() as int;
            assert(r[n].0 == k);
            assert(key_index(r, k) == Some(n));
        },
    }
}

} // verus!
