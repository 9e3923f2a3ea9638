//! The index of the service registry: what the framework assumes of
//! `qp_trie::Trie`, a map keyed on byte strings.
//!
//! The registry keeps its records in a vector and asks the trie only for the
//! slot of an identifier, so that what the trie holds are plain integers.
//! Nothing in this file is proved: each contract restates, over the entries
//! of the trie, what the documentation of the method promises.

use qp_trie::Trie;
use vstd::prelude::*;

verus! {

/// `qp_trie::Trie`, a compressed radix trie that acts as a key-value map.
#[verifier::external_type_specification]
#[verifier::external_body]
#[verifier::reject_recursive_types(K)]
#[verifier::reject_recursive_types(V)]
pub struct ExTrie<K, V>(qp_trie::Trie<K, V>);

/// The entries of a trie: the slot recorded under each identifier.
pub uninterp spec fn trie_entries(trie: Trie<Vec<u8>, usize>) -> Map<Seq<u8>, usize>;

/// `Trie::new` creates a trie without entries.
#[verifier::external_body]
pub(crate) fn trie_new() -> (index: Trie<Vec<u8>, usize>)
    ensures
        trie_entries(index) =~= Map::empty(),
{
    Trie::new()
}

/// `Trie::get` looks one key up: it gives the value stored under exactly that
/// key, and nothing where the key has no entry.
#[verifier::external_body]
pub(crate) fn trie_get(trie: &Trie<Vec<u8>, usize>, key: &Vec<u8>) -> (slot: Option<usize>)
    ensures
        slot is Some <==> trie_entries(*trie).contains_key(key@),
        slot matches Some(s) ==> s == trie_entries(*trie)[key@],
{
    trie.get(key).copied()
}

/// `Trie::insert` stores a value under a key, in place of the value that the
/// key had, and returns the value it replaced. No other entry changes.
#[verifier::external_body]
pub(crate) fn trie_insert(trie: &mut Trie<Vec<u8>, usize>, key: Vec<u8>, slot: usize) -> (replaced:
    Option<usize>)
    ensures
        trie_entries(*final(trie)) == trie_entries(*old(trie)).insert(key@, slot),
        replaced is Some <==> trie_entries(*old(trie)).contains_key(key@),
        replaced matches Some(s) ==> s == trie_entries(*old(trie))[key@],
{
    trie.insert(key, slot)
}

} // verus!
