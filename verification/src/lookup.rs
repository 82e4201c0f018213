//! Search by identity in the bounded lists the engine keeps.
//!
//! Every list is scanned from the front, and the first entry with the wanted
//! identity is the one that counts.

use vstd::prelude::*;
use crate::address::Address;

verus! {

/// The first position of `key` in `keys`, if it is there at all.
pub open spec fn first_index(keys: Seq<Address>, key: Address) -> Option<int>
    decreases keys.len(),
{
    if keys.len() == 0 {
        None
    } else {
        match first_index(keys.drop_last(), key) {
            Some(i) => Some(i),
            None => if keys.last() == key {
                Some(keys.len() - 1)
            } else {
                None
            },
        }
    }
}

/// No two positions of `keys` hold the same identity.
pub open spec fn all_distinct(keys: Seq<Address>) -> bool {
    forall|i: int, j: int| 0 <= i < j < keys.len() ==> keys[i] != keys[j]
}

/// What [`first_index`] finds is in range, holds the key, and has no match
/// before it; what it misses is nowhere in the list.
pub proof fn lemma_first_index(keys: Seq<Address>, key: Address)
    ensures
        match first_index(keys, key) {
            Some(i) => {
                &&& 0 <= i < keys.len()
                &&& keys[i] == key
                &&& forall|j: int| 0 <= j < i ==> keys[j] != key
            },
            None => forall|j: int| 0 <= j < keys.len() ==> keys[j] != key,
        },
    decreases keys.len(),
{
    if keys.len() > 0 {
        let front = keys.drop_last();
        lemma_first_index(front, key);
        assert(forall|j: int| 0 <= j < front.len() ==> front[j] == keys[j]);
        match first_index(front, key) {
            Some(i) => {
                assert(front[i] == keys[i]);
                assert forall|j: int| 0 <= j < i implies keys[j] != key by {
                    assert(front[j] == keys[j]);
                }
            },
            None => {
                assert forall|j: int| 0 <= j < keys.len() - 1 implies keys[j] != key by {
                    assert(front[j] == keys[j]);
                }
            },
        }
    }
}

/// A position that holds the key and has no match before it is the one that
/// [`first_index`] finds.
pub proof fn lemma_first_index_found(keys: Seq<Address>, key: Address, i: int)
    requires
        0 <= i < keys.len(),
        keys[i] == key,
        forall|j: int| 0 <= j < i ==> keys[j] != key,
    ensures
        first_index(keys, key) == Some(i),
{
    lemma_first_index(keys, key);
}

/// A key that is nowhere in the list is not found.
pub proof fn lemma_first_index_absent(keys: Seq<Address>, key: Address)
    requires
        forall|j: int| 0 <= j < keys.len() ==> keys[j] != key,
    ensures
        first_index(keys, key).is_none(),
{
    lemma_first_index(keys, key);
}

/// The first position of `key` among `keys`.
pub fn find_address(keys: &Vec<Address>, key: &Address) -> (r: Option<usize>)
    ensures
        r.is_some() == first_index(keys@, *key).is_some(),
        r matches Some(i) ==> first_index(keys@, *key) == Some(i as int),
{
    let mut i: usize = 0;
    while i < keys.len()
        invariant
            0 <= i <= keys.len(),
            forall|j: int| 0 <= j < i ==> keys@[j] != *key,
        decreases keys.len() - i,
    {
        if keys[i] == *key {
            proof {
                lemma_first_index_found(keys@, *key, i as int);
            }
            return Some(i);
        }
        i += 1;
    }
    proof {
        lemma_first_index_absent(keys@, *key);
    }
    None
}

} // verus!
