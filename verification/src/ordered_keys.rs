//! Insertion-ordered sets of integer keys.
//!
//! The sets of this library keep their items in an [`IndexSet`], stored by an
//! integer key so that membership rests on the integer's own equality and
//! hash. This module declares the outside types and gives a contract to each
//! method of [`IndexSet`] that the library calls. None of these contracts is
//! proved: they restate what the documentation of `indexmap` promises.

use hashbrown::DefaultHashBuilder;
use indexmap::IndexSet;
use vstd::prelude::*;

verus! {

/// The set type of `indexmap`, opaque to the verifier.
#[verifier::external_type_specification]
#[verifier::external_body]
#[verifier::reject_recursive_types(T)]
#[verifier::reject_recursive_types(S)]
pub struct ExIndexSet<T, S>(IndexSet<T, S>);

/// The default hasher state of `hashbrown`, opaque to the verifier.
#[verifier::external_type_specification]
#[verifier::external_body]
pub struct ExDefaultHashBuilder(DefaultHashBuilder);

/// An insertion-ordered set of `u64` keys.
pub type KeySet = IndexSet<u64, DefaultHashBuilder>;

/// The keys that a set holds, in the order in which they were inserted.
pub uninterp spec fn set_keys(set: KeySet) -> Seq<u64>;

/// `IndexSet::default`: a new set holds no key.
#[verifier::external_body]
pub(crate) fn keys_new() -> (set: KeySet)
    ensures
        set_keys(set) == Seq::<u64>::empty(),
{
    IndexSet::default()
}

/// `IndexSet::clone`: the clone is equal to the set it was made from.
pub assume_specification<T, S>[ <IndexSet<T, S> as Clone>::clone ](set: &IndexSet<T, S>) -> (copy:
    IndexSet<T, S>)
    where T: Clone, S: Clone
    ensures
        copy == *set,
;

/// `IndexSet::len`: the number of keys in the set.
#[verifier::external_body]
pub(crate) fn keys_len(set: &KeySet) -> (len: usize)
    ensures
        len == set_keys(*set).len(),
{
    set.len()
}

/// `IndexSet::contains`: whether a key equal to `key` is in the set.
#[verifier::external_body]
pub(crate) fn keys_contains(set: &KeySet, key: u64) -> (found: bool)
    ensures
        found == set_keys(*set).contains(key),
{
    set.contains(&key)
}

/// `IndexSet::insert`: a key that is already present leaves the set and its
/// order untouched and gives `false`; a new key goes to the end and gives
/// `true`.
#[verifier::external_body]
pub(crate) fn keys_insert(set: &mut KeySet, key: u64) -> (added: bool)
    ensures
        added == !set_keys(*old(set)).contains(key),
        set_keys(*final(set)) == if set_keys(*old(set)).contains(key) {
            set_keys(*old(set))
        } else {
            set_keys(*old(set)).push(key)
        },
{
    set.insert(key)
}

/// `IndexSet::get_index`: the key at position `index` of the insertion
/// order, or `None` when `index` is not below the length.
#[verifier::external_body]
pub(crate) fn keys_get_index(set: &KeySet, index: usize) -> (key: Option<u64>)
    ensures
        key == if index < set_keys(*set).len() {
            Some(set_keys(*set)[index as int])
        } else {
            None
        },
{
    set.get_index(index).copied()
}

} // verus!
