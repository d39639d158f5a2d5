//! Insertion-ordered maps keyed by name, kept in `indexmap::IndexMap`. Each
//! map's contents are named as the sequence of its entries, key first, in the
//! map's order.
use vstd::prelude::*;
use indexmap::IndexMap;
use iceberg::spec::Manifest;
use crate::keyed::{has_key, is_first_key_index, upserted};
use crate::state::{NamespaceDescriptor, TableDescriptor};

verus! {

#[verifier::external_type_specification]
#[verifier::external_body]
#[verifier::reject_recursive_types(K)]
#[verifier::reject_recursive_types(V)]
#[verifier::reject_recursive_types(S)]
pub struct ExIndexMap<K, V, S>(IndexMap<K, V, S>);

/// Relies on `Clone` of `IndexMap`, which the state's derived `Clone` calls;
/// nothing is claimed of the copy.
pub assume_specification<K: Clone, V: Clone, S: Clone>[ <IndexMap<K, V, S> as Clone>::clone ](
    m: &IndexMap<K, V, S>,
) -> IndexMap<K, V, S>;

pub uninterp spec fn namespace_entries(m: IndexMap<String, NamespaceDescriptor>) -> Seq<(Seq<char>, NamespaceDescriptor)>;

pub uninterp spec fn table_entries(m: IndexMap<String, TableDescriptor>) -> Seq<(Seq<char>, TableDescriptor)>;

pub uninterp spec fn manifest_entries(m: IndexMap<String, Manifest>) -> Seq<(Seq<char>, Manifest)>;

/// Relies on `IndexMap::new`: a new map holds no entries.
#[verifier::external_body]
pub(crate) fn namespaces_new() -> (r: IndexMap<String, NamespaceDescriptor>)
    ensures
        namespace_entries(r) == Seq::<(Seq<char>, NamespaceDescriptor)>::empty(),
{
    IndexMap::new()
}

/// Relies on `IndexMap::insert`: an entry with an equal key keeps its place
/// and takes the new value; otherwise the pair goes last.
#[verifier::external_body]
pub(crate) fn namespaces_insert(
    m: &mut IndexMap<String, NamespaceDescriptor>,
    k: String,
    v: NamespaceDescriptor,
)
    ensures
        namespace_entries(*final(m)) == upserted(namespace_entries(*old(m)), k@, v),
{
    m.insert(k, v);
}

/// Relies on `IndexMap::len`: the number of entries.
#[verifier::external_body]
pub(crate) fn namespaces_len(m: &IndexMap<String, NamespaceDescriptor>) -> (r: usize)
    ensures
        r == namespace_entries(*m).len(),
{
    m.len()
}

/// Relies on `IndexMap::get_index_of`: the position of the entry whose key
/// equals `k` (keys are unique, so it is also the first such position).
#[verifier::external_body]
pub(crate) fn namespaces_index_of(m: &IndexMap<String, NamespaceDescriptor>, k: &str) -> (r: Option<usize>)
    ensures
        r matches Some(i) ==> is_first_key_index(namespace_entries(*m), k@, i as int),
        r is None ==> !has_key(namespace_entries(*m), k@),
{
    m.get_index_of(k)
}

/// Relies on `Index<usize>` of `IndexMap`: the value at a position (it
/// panics only out of bounds).
#[verifier::external_body]
pub(crate) fn namespaces_at(m: &IndexMap<String, NamespaceDescriptor>, i: usize) -> (r: &NamespaceDescriptor)
    requires
        i < namespace_entries(*m).len(),
    ensures
        *r == namespace_entries(*m)[i as int].1,
{
    &m[i]
}

/// Relies on `IndexMut<usize>` of `IndexMap`: the value at a position, to be
/// changed in place; keys and order stay (it panics only out of bounds).
#[verifier::external_body]
pub(crate) fn namespaces_at_mut(m: &mut IndexMap<String, NamespaceDescriptor>, i: usize) -> (r: &mut NamespaceDescriptor)
    requires
        i < namespace_entries(*old(m)).len(),
    ensures
        *r == namespace_entries(*old(m))[i as int].1,
        namespace_entries(*final(m)) == namespace_entries(*old(m)).update(
            i as int,
            (namespace_entries(*old(m))[i as int].0, *final(r)),
        ),
{
    &mut m[i]
}

/// Relies on `IndexMap::new`: a new map holds no entries.
#[verifier::external_body]
pub(crate) fn tables_new() -> (r: IndexMap<String, TableDescriptor>)
    ensures
        table_entries(r) == Seq::<(Seq<char>, TableDescriptor)>::empty(),
{
    IndexMap::new()
}

/// Relies on `IndexMap::insert`: an entry with an equal key keeps its place
/// and takes the new value; otherwise the pair goes last.
#[verifier::external_body]
pub(crate) fn tables_insert(m: &mut IndexMap<String, TableDescriptor>, k: String, v: TableDescriptor)
    ensures
        table_entries(*final(m)) == upserted(table_entries(*old(m)), k@, v),
{
    m.insert(k, v);
}

/// Relies on `IndexMap::len`: the number of entries.
#[verifier::external_body]
pub(crate) fn tables_len(m: &IndexMap<String, TableDescriptor>) -> (r: usize)
    ensures
        r == table_entries(*m).len(),
{
    m.len()
}

/// Relies on `IndexMap::get_index_of`: the position of the entry whose key
/// equals `k` (keys are unique, so it is also the first such position).
#[verifier::external_body]
pub(crate) fn tables_index_of(m: &IndexMap<String, TableDescriptor>, k: &str) -> (r: Option<usize>)
    ensures
        r matches Some(i) ==> is_first_key_index(table_entries(*m), k@, i as int),
        r is None ==> !has_key(table_entries(*m), k@),
{
    m.get_index_of(k)
}

/// Relies on `Index<usize>` of `IndexMap`: the value at a position (it
/// panics only out of bounds).
#[verifier::external_body]
pub(crate) fn tables_at(m: &IndexMap<String, TableDescriptor>, i: usize) -> (r: &TableDescriptor)
    requires
        i < table_entries(*m).len(),
    ensures
        *r == table_entries(*m)[i as int].1,
{
    &m[i]
}

/// Relies on `IndexMut<usize>` of `IndexMap`: the value at a position, to be
/// changed in place; keys and order stay (it panics only out of bounds).
#[verifier::external_body]
pub(crate) fn tables_at_mut(m: &mut IndexMap<String, TableDescriptor>, i: usize) -> (r: &mut TableDescriptor)
    requires
        i < table_entries(*old(m)).len(),
    ensures
        *r == table_entries(*old(m))[i as int].1,
        table_entries(*final(m)) == table_entries(*old(m)).update(
            i as int,
            (table_entries(*old(m))[i as int].0, *final(r)),
        ),
{
    &mut m[i]
}

/// Relies on `IndexMap::new`: a new map holds no entries.
#[verifier::external_body]
pub(crate) fn manifests_new() -> (r: IndexMap<String, Manifest>)
    ensures
        manifest_entries(r) == Seq::<(Seq<char>, Manifest)>::empty(),
{
    IndexMap::new()
}

/// Relies on `IndexMap::insert`: an entry with an equal key keeps its place
/// and takes the new value; otherwise the pair goes last.
#[verifier::external_body]
pub(crate) fn manifests_insert(m: &mut IndexMap<String, Manifest>, k: String, v: Manifest)
    ensures
        manifest_entries(*final(m)) == upserted(manifest_entries(*old(m)), k@, v),
{
    m.insert(k, v);
}

} // verus!
