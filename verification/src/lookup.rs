//! Finding records by their text key.

use vstd::prelude::*;

verus! {

/// Position of the first of `keys` equal to `key`.
pub open spec fn first_index(keys: Seq<Seq<char>>, key: Seq<char>) -> Option<int>
    decreases keys.len(),
{
    if keys.len() == 0 {
        None
    } else {
        match first_index(keys.drop_last(), key) {
            Some(i) => Some(i),
            None => if keys.last() == key {
                Some(keys.len() - 1)
            } else {
                None
            },
        }
    }
}

/// No key occurs twice.
pub open spec fn distinct(keys: Seq<Seq<char>>) -> bool {
    forall|i: int, j: int| 0 <= i < j < keys.len() ==> keys[i] != keys[j]
}

/// `first_index` finds a key exactly where it occurs, and then at its first
/// occurrence.
pub proof fn lemma_first_index(keys: Seq<Seq<char>>, key: Seq<char>)
    ensures
        match first_index(keys, key) {
            Some(i) => 0 <= i < keys.len() && keys[i] == key && forall|j: int|
                0 <= j < i ==> keys[j] != key,
            None => forall|j: int| 0 <= j < keys.len() ==> keys[j] != key,
        },
    decreases keys.len(),
{
    if keys.len() > 0 {
        let front = keys.drop_last();
        lemma_first_index(front, key);
        assert(forall|j: int| 0 <= j < front.len() ==> front[j] == keys[j]);
        match first_index(front, key) {
            Some(i) => {
                assert(keys[i] == front[i]);
                assert forall|j: int| 0 <= j < i implies keys[j] != key by {
                    assert(front[j] != key);
                }
            },
            None => {
                assert forall|j: int| 0 <= j < keys.len() - 1 implies keys[j] != key by {
                    assert(front[j] != key);
                }
            },
        }
    }
}

/// An index that matches and has no match before it is the first index.
pub proof fn lemma_first_index_is(keys: Seq<Seq<char>>, key: Seq<char>, i: int)
    requires
        0 <= i < keys.len(),
        keys[i] == key,
        forall|j: int| 0 <= j < i ==> keys[j] != key,
    ensures
        first_index(keys, key) == Some(i),
{
    lemma_first_index(keys, key);
}

/// Where no key matches there is no first index.
pub proof fn lemma_first_index_none(keys: Seq<Seq<char>>, key: Seq<char>)
    requires
        forall|j: int| 0 <= j < keys.len() ==> keys[j] != key,
    ensures
        first_index(keys, key) is None,
{
    lemma_first_index(keys, key);
}

/// Adding a key that does not occur yet keeps the keys distinct.
pub proof fn lemma_push_keeps_distinct(keys: Seq<Seq<char>>, key: Seq<char>)
    requires
        distinct(keys),
        first_index(keys, key) is None,
    ensures
        distinct(keys.push(key)),
{
    lemma_first_index(keys, key);
    let after = keys.push(key);
    assert forall|a: int, b: int| 0 <= a < b < after.len() implies after[a] != after[b] by {
        if b < keys.len() {
            assert(keys[a] != keys[b]);
        } else {
            assert(keys[a] != key);
        }
    }
}

/// Keys picked out of distinct keys, in their order, are distinct.
pub proof fn lemma_selection_keeps_distinct(
    keys: Seq<Seq<char>>,
    picked: Seq<Seq<char>>,
    origin: Seq<int>,
)
    requires
        distinct(keys),
        origin.len() == picked.len(),
        forall|a: int|
            0 <= a < picked.len() ==> 0 <= #[trigger] origin[a] < keys.len() && picked[a]
                == keys[origin[a]],
        forall|a: int, b: int| 0 <= a < b < picked.len() ==> origin[a] < origin[b],
    ensures
        distinct(picked),
{
    assert forall|a: int, b: int| 0 <= a < b < picked.len() implies picked[a] != picked[b] by {
        assert(origin[a] < origin[b]);
        assert(keys[origin[a]] != keys[origin[b]]);
    }
}

/// Taking one key out keeps the others distinct.
pub proof fn lemma_removal_keeps_distinct(keys: Seq<Seq<char>>, i: int)
    requires
        distinct(keys),
        0 <= i < keys.len(),
    ensures
        distinct(keys.remove(i)),
{
    let origin = Seq::new(
        (keys.len() - 1) as nat,
        |a: int|
            if a < i {
                a
            } else {
                a + 1
            },
    );
    lemma_selection_keeps_distinct(keys, keys.remove(i), origin);
}

} // verus!
