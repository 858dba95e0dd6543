//! Association lists: a sequence of key/value pairs read as a map in which a
//! later pair shadows every earlier pair with the same key.

use vstd::prelude::*;

verus! {

/// The map that a sequence of pairs stands for.
pub open spec fn table<V>(pairs: Seq<(Seq<char>, V)>) -> Map<Seq<char>, V>
    decreases pairs.len(),
{
    if pairs.len() == 0 {
        Map::empty()
    } else {
        table(pairs.drop_last()).insert(pairs.last().0, pairs.last().1)
    }
}

/// `i` is the position of the last pair with key `key`.
pub open spec fn is_last_match<V>(pairs: Seq<(Seq<char>, V)>, key: Seq<char>, i: int) -> bool {
    &&& 0 <= i < pairs.len()
    &&& pairs[i].0 == key
    &&& forall|j: int| i < j < pairs.len() ==> (#[trigger] pairs[j]).0 != key
}

/// No pair has key `key`.
pub open spec fn no_match<V>(pairs: Seq<(Seq<char>, V)>, key: Seq<char>) -> bool {
    forall|j: int| 0 <= j < pairs.len() ==> (#[trigger] pairs[j]).0 != key
}

/// Appending a pair inserts it into the map.
pub proof fn lemma_table_push<V>(pairs: Seq<(Seq<char>, V)>, key: Seq<char>, value: V)
    ensures
        table(pairs.push((key, value))) == table(pairs).insert(key, value),
{
    let next = pairs.push((key, value));
    assert(next.drop_last() =~= pairs);
}

/// A key that no pair carries is absent from the map.
pub proof fn lemma_table_absent<V>(pairs: Seq<(Seq<char>, V)>, key: Seq<char>)
    requires
        no_match(pairs, key),
    ensures
        !table(pairs).contains_key(key),
    decreases pairs.len(),
{
    if pairs.len() > 0 {
        let front = pairs.drop_last();
        assert forall|j: int| 0 <= j < front.len() implies (#[trigger] front[j]).0 != key by {
            assert(front[j] == pairs[j]);
        }
        lemma_table_absent(front, key);
        assert(pairs.last() == pairs[pairs.len() - 1]);
    }
}

/// The map holds, under a key, the value of the last pair with that key.
pub proof fn lemma_table_lookup<V>(pairs: Seq<(Seq<char>, V)>, key: Seq<char>, i: int)
    requires
        is_last_match(pairs, key, i),
    ensures
        table(pairs).contains_key(key),
        table(pairs)[key] == pairs[i].1,
    decreases pairs.len(),
{
    if i < pairs.len() - 1 {
        let front = pairs.drop_last();
        assert forall|j: int| i < j < front.len() implies (#[trigger] front[j]).0 != key by {
            assert(front[j] == pairs[j]);
        }
        assert(front[i] == pairs[i]);
        lemma_table_lookup(front, key, i);
        assert(pairs.last() == pairs[pairs.len() - 1]);
    }
}

/// The keys of the map are the keys of the pairs.
pub proof fn lemma_table_keys<V>(pairs: Seq<(Seq<char>, V)>)
    ensures
        forall|key: Seq<char>| #[trigger]
            table(pairs).contains_key(key) <==> exists|i: int| 0 <= i < pairs.len() && (#[trigger] pairs[i]).0 == key,
    decreases pairs.len(),
{
    if pairs.len() > 0 {
        let front = pairs.drop_last();
        lemma_table_keys(front);
        assert forall|key: Seq<char>| #[trigger] table(pairs).contains_key(key) implies exists|i: int|
            0 <= i < pairs.len() && (#[trigger] pairs[i]).0 == key by {
            if key == pairs.last().0 {
                assert(pairs[pairs.len() - 1].0 == key);
            } else {
                assert(table(front).contains_key(key));
                let i = choose|i: int| 0 <= i < front.len() && (#[trigger] front[i]).0 == key;
                assert(pairs[i] == front[i]);
            }
        }
        assert forall|key: Seq<char>|
            (exists|i: int| 0 <= i < pairs.len() && (#[trigger] pairs[i]).0 == key) implies #[trigger] table(
            pairs,
        ).contains_key(key) by {
            let i = choose|i: int| 0 <= i < pairs.len() && (#[trigger] pairs[i]).0 == key;
            if i < pairs.len() - 1 {
                assert(front[i].0 == key);
                assert(table(front).contains_key(key));
            } else {
                assert(pairs.last().0 == key);
            }
        }
    }
}

/// Two sequences with the same keys in the same places stand for maps with
/// the same keys.
pub proof fn lemma_table_names<V, W>(left: Seq<(Seq<char>, V)>, right: Seq<(Seq<char>, W)>)
    requires
        left.len() == right.len(),
        forall|i: int| 0 <= i < left.len() ==> (#[trigger] left[i]).0 == right[i].0,
    ensures
        table(right).dom() == table(left).dom(),
{
    lemma_table_keys(left);
    lemma_table_keys(right);
    assert forall|key: Seq<char>| table(left).contains_key(key) == table(right).contains_key(key) by {
        if table(left).contains_key(key) {
            let i = choose|i: int| 0 <= i < left.len() && (#[trigger] left[i]).0 == key;
            assert(right[i].0 == key);
        }
        if table(right).contains_key(key) {
            let i = choose|i: int| 0 <= i < right.len() && (#[trigger] right[i]).0 == key;
            assert(left[i].0 == key);
        }
    }
    assert(table(right).dom() =~= table(left).dom());
}

/// Replacing the value of the last pair with a key replaces the key's value in
/// the map and leaves every other key as it was.
pub proof fn lemma_table_replace<V>(pairs: Seq<(Seq<char>, V)>, key: Seq<char>, i: int, value: V)
    requires
        is_last_match(pairs, key, i),
    ensures
        table(pairs.update(i, (key, value))) == table(pairs).insert(key, value),
    decreases pairs.len(),
{
    let next = pairs.update(i, (key, value));
    if i == pairs.len() - 1 {
        assert(next.drop_last() =~= pairs.drop_last());
        assert(table(next) =~= table(pairs).insert(key, value));
    } else {
        let front = pairs.drop_last();
        assert forall|j: int| i < j < front.len() implies (#[trigger] front[j]).0 != key by {
            assert(front[j] == pairs[j]);
        }
        assert(front[i] == pairs[i]);
        lemma_table_replace(front, key, i, value);
        assert(next.drop_last() =~= front.update(i, (key, value)));
        assert(next.last() == pairs.last());
        assert(pairs.last() == pairs[pairs.len() - 1]);
        assert(table(next) =~= table(pairs).insert(key, value));
    }
}

} // verus!
