//! The name tables: hash maps from names to slot indices, used while
//! loading a program to bind variable and label names and to resolve the
//! operator table.  The maps come from the `ahash` crate; their contents
//! are modelled as a mathematical map from character sequences to slots.

use vstd::prelude::*;

use ahash::AHashMap;

verus! {

#[verifier::external_type_specification]
#[verifier::external_body]
#[verifier::reject_recursive_types(K)]
#[verifier::reject_recursive_types(V)]
#[verifier::reject_recursive_types(S)]
pub struct ExAHashMap<K, V, S>(AHashMap<K, V, S>);

#[verifier::external_type_specification]
#[verifier::external_body]
pub struct ExRandomState(ahash::RandomState);

/// What a name table holds: each key's character sequence mapped to its
/// slot.
pub uninterp spec fn table_entries(t: AHashMap<String, usize>) -> Map<Seq<char>, usize>;

/// A table with no bindings.
pub open spec fn empty_table() -> Map<Seq<char>, usize> {
    Map::empty()
}

/// Relies on `ahash::AHashMap::new`: a freshly created map is empty.
#[verifier::external_body]
pub(crate) fn table_new() -> (t: AHashMap<String, usize>)
    ensures
        table_entries(t) == empty_table(),
{
    AHashMap::new()
}

/// Relies on `ahash::AHashMap::insert`: binds the key to the value,
/// replacing any earlier binding; string keys compare by their characters.
#[verifier::external_body]
pub(crate) fn table_insert(t: &mut AHashMap<String, usize>, k: String, v: usize)
    ensures
        table_entries(*final(t)) == table_entries(*old(t)).insert(k@, v),
{
    t.insert(k, v);
}

/// Relies on `ahash::AHashMap::get`: returns the value bound to the key,
/// or nothing when the key is absent.
#[verifier::external_body]
pub(crate) fn table_get(t: &AHashMap<String, usize>, k: &str) -> (r: Option<usize>)
    ensures
        r == (if table_entries(*t).contains_key(k@) {
            Some(table_entries(*t)[k@])
        } else {
            None::<usize>
        }),
{
    match t.get(k) {
        Some(v) => Some(*v),
        None => None,
    }
}

} // verus!
