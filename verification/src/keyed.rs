//! Records that are found by a text key, kept in a vector in the order in
//! which they were added. A key is looked up from the front, so of two
//! records with one key only the first is ever found.

use vstd::prelude::*;
use vstd::string::*;

verus! {

/// A record with a text key.
pub trait Keyed {
    /// The key of the record.
    spec fn key(&self) -> Seq<char>;

    /// The key of the record.
    fn key_text(&self) -> (text: &String)
        ensures
            text@ == self.key(),
    ;
}

/// The keys of `items`, in order.
pub open spec fn keys_of<T: Keyed>(items: Seq<T>) -> Seq<Seq<char>> {
    items.map_values(|item: T| item.key())
}

/// No key occurs twice.
pub open spec fn distinct<K>(keys: Seq<K>) -> bool {
    forall|i: int, j: int| 0 <= i < j < keys.len() ==> keys[i] != keys[j]
}

/// `i` is the first position at which `key` stands.
pub open spec fn is_first_match<K>(keys: Seq<K>, key: K, i: int) -> bool {
    &&& 0 <= i < keys.len()
    &&& keys[i] == key
    &&& forall|j: int| 0 <= j < i ==> keys[j] != key
}

/// The first position at which `key` stands, if it stands anywhere.
pub open spec fn position_of<K>(keys: Seq<K>, key: K) -> Option<int> {
    if exists|i: int| is_first_match(keys, key, i) {
        Some(choose|i: int| is_first_match(keys, key, i))
    } else {
        None
    }
}

/// A first match is the position of the key.
pub proof fn lemma_first_match_is_position<K>(keys: Seq<K>, key: K, i: int)
    requires
        is_first_match(keys, key, i),
    ensures
        position_of(keys, key) == Some(i),
{
}

/// A key that stands nowhere has no position, and the other way round.
pub proof fn lemma_position_none<K>(keys: Seq<K>, key: K)
    ensures
        position_of(keys, key) is None <==> !keys.contains(key),
        position_of(keys, key) matches Some(i) ==> is_first_match(keys, key, i),
{
    if keys.contains(key) {
        lemma_contains_has_first(keys, key, keys.len() as int);
    }
}

proof fn lemma_contains_has_first<K>(keys: Seq<K>, key: K, bound: int)
    requires
        0 <= bound <= keys.len(),
        exists|i: int| 0 <= i < bound && keys[i] == key,
    ensures
        exists|i: int| is_first_match(keys, key, i),
    decreases bound,
{
    let last = bound - 1;
    if exists|i: int| 0 <= i < last && keys[i] == key {
        lemma_contains_has_first(keys, key, last);
    } else {
        assert(is_first_match(keys, key, last));
    }
}

/// The keys after a record with the key `key` was put: as before when the
/// key stood there, and with the key last when it did not.
pub open spec fn keys_after_put<K>(keys: Seq<K>, key: K) -> Seq<K> {
    match position_of(keys, key) {
        Some(_) => keys,
        None => keys.push(key),
    }
}

/// Putting a record gives its key a position, the old one if it had one,
/// and leaves every other key where it was.
pub proof fn lemma_position_after_put<K>(keys: Seq<K>, key: K, other: K)
    ensures
        position_of(keys_after_put(keys, key), key) == Some(
            match position_of(keys, key) {
                Some(i) => i,
                None => keys.len() as int,
            },
        ),
        other != key ==> position_of(keys_after_put(keys, key), other) == position_of(keys, other),
{
    let after = keys_after_put(keys, key);
    lemma_position_none(keys, key);
    lemma_position_none(keys, other);
    if position_of(keys, key) is None {
        lemma_first_match_is_position(after, key, keys.len() as int);
        if other != key {
            match position_of(keys, other) {
                Some(j) => {
                    lemma_first_match_is_position(after, other, j);
                },
                None => {},
            }
        }
    }
}

/// The position of the first record of `items` with the key `key`.
pub fn find<T: Keyed>(items: &[T], key: &str) -> (found: Option<usize>)
    ensures
        found is None <==> position_of(keys_of(items@), key@) is None,
        found matches Some(i) ==> i < items@.len() && position_of(keys_of(items@), key@) == Some(
            i as int,
        ),
{
    let wanted: String = String::from_str(key);
    let ghost keys = keys_of(items@);
    let mut i: usize = 0;
    while i < items.len()
        invariant
            i <= items.len(),
            keys == keys_of(items@),
            wanted@ == key@,
            forall|j: int| 0 <= j < i ==> keys[j] != key@,
        decreases items.len() - i,
    {
        if *items[i].key_text() == wanted {
            proof {
                lemma_first_match_is_position(keys, key@, i as int);
            }
            return Some(i);
        }
        i = i + 1;
    }
    None
}

} // verus!
