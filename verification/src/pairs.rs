//! Sequences of key-value pairs without repeated keys, read as maps.

use vstd::prelude::*;

verus! {

/// No key occurs twice.
pub open spec fn keys_distinct<K, V>(s: Seq<(K, V)>) -> bool {
    forall|i: int, j: int| 0 <= i < j < s.len() ==> (#[trigger] s[i]).0 != (#[trigger] s[j]).0
}

/// The map that holds the pairs; of a repeated key the last pair counts.
pub open spec fn pairs_map<K, V>(s: Seq<(K, V)>) -> Map<K, V>
    decreases s.len(),
{
    if s.len() == 0 {
        Map::empty()
    } else {
        pairs_map(s.drop_last()).insert(s.last().0, s.last().1)
    }
}

/// Without repeated keys the map holds exactly the pairs.
pub proof fn lemma_pairs_map<K, V>(s: Seq<(K, V)>)
    requires
        keys_distinct(s),
    ensures
        forall|i: int|
            0 <= i < s.len() ==> pairs_map(s).contains_key((#[trigger] s[i]).0) && pairs_map(
                s,
            )[s[i].0] == s[i].1,
        forall|k: K| #[trigger]
            pairs_map(s).contains_key(k) ==> exists|i: int|
                0 <= i < s.len() && (#[trigger] s[i]).0 == k,
    decreases s.len(),
{
    if s.len() > 0 {
        let t = s.drop_last();
        assert forall|i: int, j: int| 0 <= i < j < t.len() implies (#[trigger] t[i]).0 != (
        #[trigger] t[j]).0 by {
            assert(s[i].0 != s[j].0);
        }
        lemma_pairs_map(t);
        assert forall|i: int| 0 <= i < s.len() implies pairs_map(s).contains_key(
            (#[trigger] s[i]).0,
        ) && pairs_map(s)[s[i].0] == s[i].1 by {
            if i < t.len() {
                assert(t[i] == s[i]);
                assert(s[i].0 != s[t.len() as int].0);
            }
        }
        assert forall|k: K| #[trigger] pairs_map(s).contains_key(k) implies exists|i: int|
            0 <= i < s.len() && (#[trigger] s[i]).0 == k by {
            if k == s.last().0 {
                assert(s[s.len() - 1].0 == k);
            } else {
                assert(pairs_map(t).contains_key(k));
                let i = choose|i: int| 0 <= i < t.len() && (#[trigger] t[i]).0 == k;
                assert(s[i].0 == k);
            }
        }
    }
}

/// Appending a pair with a new key inserts it.
pub proof fn lemma_pairs_push<K, V>(s: Seq<(K, V)>, pair: (K, V))
    requires
        keys_distinct(s),
        !pairs_map(s).contains_key(pair.0),
    ensures
        keys_distinct(s.push(pair)),
        pairs_map(s.push(pair)) == pairs_map(s).insert(pair.0, pair.1),
{
    lemma_pairs_map(s);
    assert(s.push(pair).drop_last() =~= s);
}

/// Replacing a pair by another one of the same key inserts it.
pub proof fn lemma_pairs_update<K, V>(s: Seq<(K, V)>, at: int, pair: (K, V))
    requires
        keys_distinct(s),
        0 <= at < s.len(),
        s[at].0 == pair.0,
    ensures
        keys_distinct(s.update(at, pair)),
        pairs_map(s.update(at, pair)) == pairs_map(s).insert(pair.0, pair.1),
{
    let t = s.update(at, pair);
    assert forall|i: int, j: int| 0 <= i < j < t.len() implies (#[trigger] t[i]).0 != (#[trigger] t[j]).0 by {
        assert(s[i].0 != s[j].0);
    }
    lemma_pairs_map(s);
    lemma_pairs_map(t);
    let m = pairs_map(s).insert(pair.0, pair.1);
    assert(t[at].0 == pair.0);
    assert forall|k: K| #[trigger] pairs_map(t).contains_key(k) implies m.contains_key(k)
        && pairs_map(t)[k] == m[k] by {
        let i = choose|i: int| 0 <= i < t.len() && (#[trigger] t[i]).0 == k;
        assert(s[i].0 == k);
        if i != at {
            assert(s[i].0 != s[at].0);
        }
    }
    assert forall|k: K| #[trigger] m.contains_key(k) implies pairs_map(t).contains_key(k) by {
        if pairs_map(s).contains_key(k) {
            let i = choose|i: int| 0 <= i < s.len() && (#[trigger] s[i]).0 == k;
            assert(t[i].0 == k);
        }
    }
    assert(pairs_map(t) =~= m);
}

/// Removing the last pair removes its key.
pub proof fn lemma_pairs_pop<K, V>(s: Seq<(K, V)>)
    requires
        keys_distinct(s),
        s.len() > 0,
    ensures
        keys_distinct(s.drop_last()),
        pairs_map(s).contains_key(s.last().0),
        pairs_map(s)[s.last().0] == s.last().1,
        pairs_map(s.drop_last()) == pairs_map(s).remove(s.last().0),
{
    let t = s.drop_last();
    assert forall|i: int, j: int| 0 <= i < j < t.len() implies (#[trigger] t[i]).0 != (#[trigger] t[j]).0 by {
        assert(s[i].0 != s[j].0);
    }
    lemma_pairs_map(t);
    assert(!pairs_map(t).contains_key(s.last().0)) by {
        if pairs_map(t).contains_key(s.last().0) {
            let i = choose|i: int| 0 <= i < t.len() && (#[trigger] t[i]).0 == s.last().0;
            assert(s[i].0 != s[s.len() - 1].0);
        }
    }
    assert(pairs_map(t) =~= pairs_map(s).remove(s.last().0));
}

} // verus!
