//! Association lists: vectors of key/value pairs with distinct keys, read
//! as finite maps.
use vstd::prelude::*;

verus! {

/// No key occurs twice.
pub open spec fn keys_distinct<K, V>(s: Seq<(K, V)>) -> bool {
    forall|i: int, j: int| 0 <= i < j < s.len() ==> s[i].0 != s[j].0
}

/// The map that an association list denotes; a later pair wins over an
/// earlier one with the same key.
pub open spec fn to_map<K, V>(s: Seq<(K, V)>) -> Map<K, V>
    decreases s.len(),
{
    if s.len() == 0 {
        Map::empty()
    } else {
        to_map(s.drop_last()).insert(s.last().0, s.last().1)
    }
}

/// The key `k` occurs in `s`.
pub open spec fn has_key<K, V>(s: Seq<(K, V)>, k: K) -> bool {
    exists|i: int| 0 <= i < s.len() && s[i].0 == k
}

/// The keys of an association list are exactly its map's domain.
pub proof fn lemma_to_map_dom<K, V>(s: Seq<(K, V)>, k: K)
    ensures
        to_map(s).dom().contains(k) <==> has_key(s, k),
    decreases s.len(),
{
    if s.len() > 0 {
        lemma_to_map_dom(s.drop_last(), k);
        if has_key(s.drop_last(), k) {
            let i = choose|i: int| 0 <= i < s.drop_last().len() && s.drop_last()[i].0 == k;
            assert(s[i].0 == k);
        }
        if has_key(s, k) && s.last().0 != k {
            let i = choose|i: int| 0 <= i < s.len() && s[i].0 == k;
            assert(i < s.len() - 1);
            assert(s.drop_last()[i].0 == k);
        }
    }
}

/// With distinct keys, each pair's value is what the map gives for its key.
pub proof fn lemma_to_map_value<K, V>(s: Seq<(K, V)>, i: int)
    requires
        keys_distinct(s),
        0 <= i < s.len(),
    ensures
        to_map(s).dom().contains(s[i].0),
        to_map(s)[s[i].0] == s[i].1,
    decreases s.len(),
{
    if i < s.len() - 1 {
        let t = s.drop_last();
        assert(keys_distinct(t));
        lemma_to_map_value(t, i);
        assert(t[i] == s[i]);
        assert(s.last().0 != s[i].0);
    }
}

/// Both characterizations at once, for every key.
pub proof fn lemma_to_map<K, V>(s: Seq<(K, V)>)
    requires
        keys_distinct(s),
    ensures
        forall|k: K| #[trigger] to_map(s).dom().contains(k) <==> has_key(s, k),
        forall|i: int| 0 <= i < s.len() ==> #[trigger] to_map(s)[s[i].0] == s[i].1,
{
    assert forall|k: K| #[trigger] to_map(s).dom().contains(k) <==> has_key(s, k) by {
        lemma_to_map_dom(s, k);
    }
    assert forall|i: int| 0 <= i < s.len() implies #[trigger] to_map(s)[s[i].0] == s[i].1 by {
        lemma_to_map_value(s, i);
    }
}

/// Appending a pair with a new key inserts it.
pub proof fn lemma_push<K, V>(s: Seq<(K, V)>, k: K, v: V)
    requires
        keys_distinct(s),
        !has_key(s, k),
    ensures
        keys_distinct(s.push((k, v))),
        to_map(s.push((k, v))) == to_map(s).insert(k, v),
{
    assert(s.push((k, v)).drop_last() =~= s);
    assert forall|i: int, j: int| 0 <= i < j < s.push((k, v)).len() implies s.push((k, v))[i].0
        != s.push((k, v))[j].0 by {
        if j == s.len() {
            assert(s[i].0 != k);
        }
    }
}

/// Replacing the value of an existing pair updates the map.
pub proof fn lemma_update<K, V>(s: Seq<(K, V)>, i: int, v: V)
    requires
        keys_distinct(s),
        0 <= i < s.len(),
    ensures
        keys_distinct(s.update(i, (s[i].0, v))),
        to_map(s.update(i, (s[i].0, v))) == to_map(s).insert(s[i].0, v),
{
    let t = s.update(i, (s[i].0, v));
    assert(keys_distinct(t));
    lemma_to_map(s);
    lemma_to_map(t);
    assert forall|k: K| #[trigger] has_key(t, k) <==> has_key(s, k) by {
        if has_key(t, k) {
            let j = choose|j: int| 0 <= j < t.len() && t[j].0 == k;
            assert(s[j].0 == k);
        }
        if has_key(s, k) {
            let j = choose|j: int| 0 <= j < s.len() && s[j].0 == k;
            assert(t[j].0 == k);
        }
    }
    assert forall|k: K| #[trigger] to_map(t).dom().contains(k) implies to_map(t)[k] == to_map(
        s,
    ).insert(s[i].0, v)[k] by {
        let j = choose|j: int| 0 <= j < t.len() && t[j].0 == k;
        assert(to_map(t)[t[j].0] == t[j].1);
        if j != i {
            assert(to_map(s)[s[j].0] == s[j].1);
        }
    }
    assert(to_map(t) =~= to_map(s).insert(s[i].0, v));
}

} // verus!
