//! Association lists with string keys, and the finite map each denotes.
//! The stateful components keep their keyed state in vectors with unique
//! keys; contracts speak of the denoted map.

use vstd::prelude::*;

verus! {

/// The finite map an association list denotes; a later entry would win,
/// though every list kept by this crate has unique keys.
pub open spec fn assoc_map<V>(s: Seq<(Seq<char>, V)>) -> Map<Seq<char>, V>
    decreases s.len(),
{
    if s.len() == 0 {
        Map::<Seq<char>, V>::empty()
    } else {
        assoc_map(s.drop_last()).insert(s.last().0, s.last().1)
    }
}

/// No two entries share a key.
pub open spec fn assoc_keys_unique<V>(s: Seq<(Seq<char>, V)>) -> bool {
    forall|i: int, j: int| 0 <= i < j < s.len() ==> (#[trigger] s[i]).0 != (#[trigger] s[j]).0
}

/// A key that no entry carries is absent from the denoted map.
pub proof fn lemma_assoc_absent<V>(s: Seq<(Seq<char>, V)>, key: Seq<char>)
    requires
        forall|j: int| 0 <= j < s.len() ==> (#[trigger] s[j]).0 != key,
    ensures
        !assoc_map(s).contains_key(key),
    decreases s.len(),
{
    if s.len() > 0 {
        lemma_assoc_absent(s.drop_last(), key);
    }
}

/// With unique keys, the entry at any index gives the denoted map's value
/// for its key.
pub proof fn lemma_assoc_found<V>(s: Seq<(Seq<char>, V)>, i: int)
    requires
        assoc_keys_unique(s),
        0 <= i < s.len(),
    ensures
        assoc_map(s).contains_key(s[i].0),
        assoc_map(s)[s[i].0] == s[i].1,
    decreases s.len(),
{
    if i == s.len() - 1 {
    } else {
        assert(s.drop_last()[i] == s[i]);
        lemma_assoc_found(s.drop_last(), i);
    }
}

/// Replacing the entry at an index by one with the same key updates the
/// denoted map at that key.
pub proof fn lemma_assoc_update<V>(s: Seq<(Seq<char>, V)>, i: int, p: (Seq<char>, V))
    requires
        assoc_keys_unique(s),
        0 <= i < s.len(),
        p.0 == s[i].0,
    ensures
        assoc_map(s.update(i, p)) == assoc_map(s).insert(p.0, p.1),
        assoc_keys_unique(s.update(i, p)),
    decreases s.len(),
{
    let s2 = s.update(i, p);
    assert forall|a: int, b: int| 0 <= a < b < s2.len() implies (#[trigger] s2[a]).0 != (
    #[trigger] s2[b]).0 by {
        assert(s[a].0 != s[b].0);
    }
    if i == s.len() - 1 {
        assert(s2.drop_last() =~= s.drop_last());
        assert(s2.last() == p);
        assert(assoc_map(s.drop_last()).insert(s.last().0, s.last().1).insert(p.0, p.1)
            =~= assoc_map(s.drop_last()).insert(p.0, p.1));
    } else {
        assert(s2.drop_last() =~= s.drop_last().update(i, p));
        assert(s2.last() == s.last());
        assert(s.drop_last()[i] == s[i]);
        lemma_assoc_update(s.drop_last(), i, p);
        assert(p.0 != s.last().0);
        assert(assoc_map(s.drop_last()).insert(p.0, p.1).insert(s.last().0, s.last().1)
            =~= assoc_map(s.drop_last()).insert(s.last().0, s.last().1).insert(p.0, p.1));
    }
}

/// Appending an entry updates the denoted map at its key; a fresh key keeps
/// the keys unique.
pub proof fn lemma_assoc_push<V>(s: Seq<(Seq<char>, V)>, p: (Seq<char>, V))
    requires
        forall|j: int| 0 <= j < s.len() ==> (#[trigger] s[j]).0 != p.0,
        assoc_keys_unique(s),
    ensures
        assoc_map(s.push(p)) == assoc_map(s).insert(p.0, p.1),
        assoc_keys_unique(s.push(p)),
{
    let s2 = s.push(p);
    assert(s2.drop_last() =~= s);
    assert(s2.last() == p);
    assert forall|a: int, b: int| 0 <= a < b < s2.len() implies (#[trigger] s2[a]).0 != (
    #[trigger] s2[b]).0 by {
        if b < s.len() {
            assert(s[a].0 != s[b].0);
        } else {
            assert(s2[b] == p);
            assert(s2[a] == s[a]);
        }
    }
}

/// Removing the entry at an index removes its key from the denoted map.
pub proof fn lemma_assoc_remove<V>(s: Seq<(Seq<char>, V)>, i: int)
    requires
        assoc_keys_unique(s),
        0 <= i < s.len(),
    ensures
        assoc_map(s.remove(i)) == assoc_map(s).remove(s[i].0),
        assoc_keys_unique(s.remove(i)),
    decreases s.len(),
{
    let s2 = s.remove(i);
    let k = s[i].0;
    assert forall|a: int, b: int| 0 <= a < b < s2.len() implies (#[trigger] s2[a]).0 != (
    #[trigger] s2[b]).0 by {
        let a0 = if a < i {
            a
        } else {
            a + 1
        };
        let b0 = if b < i {
            b
        } else {
            b + 1
        };
        assert(s2[a] == s[a0]);
        assert(s2[b] == s[b0]);
        assert(s[a0].0 != s[b0].0);
    }
    if i == s.len() - 1 {
        assert(s2 =~= s.drop_last());
        assert forall|j: int| 0 <= j < s.drop_last().len() implies (#[trigger] s.drop_last()[j]).0
            != k by {
            assert(s.drop_last()[j] == s[j]);
        }
        lemma_assoc_absent(s.drop_last(), k);
        assert(assoc_map(s.drop_last()).insert(k, s.last().1).remove(k) =~= assoc_map(
            s.drop_last(),
        ));
    } else {
        assert(s2.drop_last() =~= s.drop_last().remove(i));
        assert(s2.last() == s.last());
        assert(s.drop_last()[i] == s[i]);
        lemma_assoc_remove(s.drop_last(), i);
        assert(k != s.last().0);
        assert(assoc_map(s.drop_last()).remove(k).insert(s.last().0, s.last().1) =~= assoc_map(
            s.drop_last(),
        ).insert(s.last().0, s.last().1).remove(k));
    }
}

} // verus!
