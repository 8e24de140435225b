use vstd::prelude::*;
use hashbrown::HashTable;
use crate::hash_str::HashStr;

verus! {

/// A `hashbrown::HashTable` of canonical strings, each stored under its own
/// precomputed hash.
#[verifier::external_body]
#[derive(Debug)]
pub struct EntryTable<'host> {
    table: HashTable<HashStr<'host>>,
}

/// The hash an entry is stored under: its own precomputed hash.
pub(crate) fn get_precomputed_hash(hash_str: &HashStr) -> (r: u64)
    ensures
        r == hash_str@.0,
{
    hash_str.precomputed_hash()
}

/// The `(hash, content)` pairs held by a table.
pub uninterp spec fn table_entries(t: EntryTable) -> Set<(u64, Seq<char>)>;

/// Relies on `hashbrown::HashTable::new`: the table starts empty.
#[verifier::external_body]
pub(crate) fn table_new<'host>() -> (t: EntryTable<'host>)
    ensures
        table_entries(t) == Set::<(u64, Seq<char>)>::empty(),
{
    EntryTable { table: HashTable::new() }
}

/// Relies on `hashbrown::HashTable::with_capacity`: the table starts empty.
/// Sizes past the bound overflow its bucket arithmetic, and it panics.
#[verifier::external_body]
pub(crate) fn table_with_capacity<'host>(capacity: usize) -> (t: EntryTable<'host>)
    requires
        capacity <= isize::MAX / 256,
    ensures
        table_entries(t) == Set::<(u64, Seq<char>)>::empty(),
{
    EntryTable { table: HashTable::with_capacity(capacity) }
}

/// Relies on `hashbrown::HashTable::find`: it returns the entry stored under
/// `hash` for which the equality test holds, if there is one. Every entry is
/// inserted under its own hash, and the test compares both hash and content.
#[verifier::external_body]
pub(crate) fn table_find<'host>(t: &EntryTable<'host>, hash: u64, key: &str) -> (r: Option<
    HashStr<'host>,
>)
    ensures
        r is Some <==> table_entries(*t).contains((hash, key@)),
        r is Some ==> r->Some_0@ == (hash, key@),
{
    t.table.find(hash, |e| e.matches(hash, key)).copied()
}

/// Relies on `hashbrown::HashTable::insert_unique`: the value is added under
/// its own precomputed hash.
#[verifier::external_body]
pub(crate) fn table_insert<'host>(t: &mut EntryTable<'host>, value: HashStr<'host>)
    requires
        !table_entries(*old(t)).contains(value@),
    ensures
        table_entries(*final(t)) == table_entries(*old(t)).insert(value@),
{
    t.table.insert_unique(get_precomputed_hash(&value), value, |e| get_precomputed_hash(e));
}

/// Relies on `hashbrown::HashTable::clear`: every entry is removed.
#[verifier::external_body]
pub(crate) fn table_clear<'host>(t: &mut EntryTable<'host>)
    ensures
        table_entries(*final(t)) == Set::<(u64, Seq<char>)>::empty(),
{
    t.table.clear();
}

/// Relies on `hashbrown::HashTable::len`: the number of entries.
#[verifier::external_body]
pub(crate) fn table_len<'host>(t: &EntryTable<'host>) -> (r: usize)
    ensures
        r as nat == table_entries(*t).len(),
{
    t.table.len()
}

/// Relies on `hashbrown::HashTable::capacity`: the number of entries the
/// table holds without reallocating, which counts those it holds.
#[verifier::external_body]
pub(crate) fn table_capacity<'host>(t: &EntryTable<'host>) -> (r: usize)
    ensures
        r as nat >= table_entries(*t).len(),
{
    t.table.capacity()
}

/// Relies on `hashbrown::HashTable::reserve`: it makes room and keeps the
/// entries, rehashing each by its own precomputed hash. Sizes past the bound
/// overflow its bucket arithmetic, and it panics.
#[verifier::external_body]
pub(crate) fn table_reserve<'host>(t: &mut EntryTable<'host>, additional: usize)
    requires
        table_entries(*old(t)).len() + additional <= isize::MAX / 256,
    ensures
        table_entries(*final(t)) == table_entries(*old(t)),
{
    t.table.reserve(additional, |e| get_precomputed_hash(e));
}

/// Relies on `hashbrown::HashTable::iter`: it visits every entry once.
#[verifier::external_body]
pub(crate) fn table_items<'host>(t: &EntryTable<'host>) -> (r: Vec<HashStr<'host>>)
    ensures
        r@.len() == table_entries(*t).len(),
        forall|i: int| 0 <= i < r@.len() ==> table_entries(*t).contains(#[trigger] r@[i]@),
        forall|e: (u64, Seq<char>)|
            table_entries(*t).contains(e) ==> exists|i: int|
                0 <= i < r@.len() && #[trigger] r@[i]@ == e,
{
    t.table.iter().copied().collect()
}

} // verus!
