//! A small keyed registry: a vector of `(key, entry)` pairs with unique
//! keys, viewed as a finite map from key to the entry's view.

use vstd::prelude::*;

verus! {

/// The finite map a sequence of keyed entries stands for; a later entry
/// with the same key would shadow an earlier one.
pub open spec fn pairs_map<T: View>(s: Seq<(u64, T)>) -> Map<u64, T::V>
    decreases s.len(),
{
    if s.len() == 0 {
        Map::empty()
    } else {
        pairs_map(s.drop_last()).insert(s.last().0, s.last().1@)
    }
}

/// No key appears twice.
pub open spec fn unique_keys<T>(s: Seq<(u64, T)>) -> bool {
    forall|i: int, j: int| 0 <= i < j < s.len() ==> (#[trigger] s[i]).0 != (#[trigger] s[j]).0
}

/// A key under no entry is not in the map.
pub proof fn lemma_pairs_map_absent<T: View>(s: Seq<(u64, T)>, u: u64)
    requires
        forall|i: int| 0 <= i < s.len() ==> (#[trigger] s[i]).0 != u,
    ensures
        !pairs_map(s).contains_key(u),
    decreases s.len(),
{
    if s.len() > 0 {
        let d = s.drop_last();
        assert forall|i: int| 0 <= i < d.len() implies (#[trigger] d[i]).0 != u by {
            assert(d[i] == s[i]);
        }
        lemma_pairs_map_absent(d, u);
        assert(s.last() == s[s.len() - 1]);
    }
}

/// Uniqueness carries over to the sequence without its last entry.
pub proof fn lemma_unique_drop_last<T>(s: Seq<(u64, T)>)
    requires
        unique_keys(s),
        s.len() > 0,
    ensures
        unique_keys(s.drop_last()),
{
    let d = s.drop_last();
    assert forall|i: int, j: int| 0 <= i < j < d.len() implies (#[trigger] d[i]).0 != (
    #[trigger] d[j]).0 by {
        assert(d[i] == s[i]);
        assert(d[j] == s[j]);
    }
}

/// With unique keys, each entry is in the map under its own key.
pub proof fn lemma_pairs_map_index<T: View>(s: Seq<(u64, T)>, i: int)
    requires
        unique_keys(s),
        0 <= i < s.len(),
    ensures
        pairs_map(s).contains_key(s[i].0),
        pairs_map(s)[s[i].0] == s[i].1@,
    decreases s.len(),
{
    let d = s.drop_last();
    assert(s.last() == s[s.len() - 1]);
    if i < s.len() - 1 {
        lemma_unique_drop_last(s);
        assert(d[i] == s[i]);
        lemma_pairs_map_index(d, i);
    }
}

/// Overwriting an entry in place inserts its view under the same key.
pub proof fn lemma_pairs_map_update<T: View>(s: Seq<(u64, T)>, i: int, p: (u64, T))
    requires
        unique_keys(s),
        0 <= i < s.len(),
        p.0 == s[i].0,
    ensures
        pairs_map(s.update(i, p)) == pairs_map(s).insert(p.0, p.1@),
        unique_keys(s.update(i, p)),
    decreases s.len(),
{
    let n = s.len() as int;
    let u = s.update(i, p);
    assert forall|a: int, b: int| 0 <= a < b < u.len() implies (#[trigger] u[a]).0 != (
    #[trigger] u[b]).0 by {
        assert(u[a].0 == s[a].0);
        assert(u[b].0 == s[b].0);
    }
    assert(s.last() == s[n - 1]);
    assert(u.last() == u[n - 1]);
    if i == n - 1 {
        assert(u.drop_last() =~= s.drop_last());
        assert(pairs_map(u) == pairs_map(s.drop_last()).insert(p.0, p.1@));
        assert(pairs_map(s.drop_last()).insert(s[i].0, s[i].1@).insert(p.0, p.1@) =~= pairs_map(
            s.drop_last(),
        ).insert(p.0, p.1@));
    } else {
        lemma_unique_drop_last(s);
        assert(u.drop_last() =~= s.drop_last().update(i, p));
        assert(s.drop_last()[i] == s[i]);
        lemma_pairs_map_update(s.drop_last(), i, p);
        // the entry at `i` and the last entry carry different keys, so the
        // two inserts commute
        assert(p.0 != s[n - 1].0);
        assert(pairs_map(s.drop_last()).insert(p.0, p.1@).insert(s[n - 1].0, s[n - 1].1@)
            =~= pairs_map(s.drop_last()).insert(s[n - 1].0, s[n - 1].1@).insert(p.0, p.1@));
    }
}

/// Appending an entry under a new key inserts its view.
pub proof fn lemma_pairs_map_push<T: View>(s: Seq<(u64, T)>, p: (u64, T))
    requires
        unique_keys(s),
        forall|i: int| 0 <= i < s.len() ==> (#[trigger] s[i]).0 != p.0,
    ensures
        pairs_map(s.push(p)) == pairs_map(s).insert(p.0, p.1@),
        unique_keys(s.push(p)),
{
    let u = s.push(p);
    assert(u.drop_last() =~= s);
    assert(u.last() == p);
    assert forall|a: int, b: int| 0 <= a < b < u.len() implies (#[trigger] u[a]).0 != (
    #[trigger] u[b]).0 by {
        if b < u.len() - 1 {
            assert(u[a] == s[a]);
            assert(u[b] == s[b]);
        } else {
            assert(u[a] == s[a]);
            assert(u[b] == p);
        }
    }
}

/// Index of the entry under `key`, if any.
pub fn find_key<T: View>(s: &Vec<(u64, T)>, key: u64) -> (r: Option<usize>)
    requires
        unique_keys(s@),
    ensures
        match r {
            Some(i) => {
                &&& (i as int) < s@.len()
                &&& s@[i as int].0 == key
                &&& pairs_map(s@).contains_key(key)
                &&& pairs_map(s@)[key] == s@[i as int].1@
            },
            None => !pairs_map(s@).contains_key(key),
        },
{
    let mut i: usize = 0;
    while i < s.len()
        invariant
            i <= s@.len(),
            unique_keys(s@),
            forall|j: int| 0 <= j < i ==> (#[trigger] s@[j]).0 != key,
        decreases s@.len() - i,
    {
        if s[i].0 == key {
            proof {
                lemma_pairs_map_index(s@, i as int);
            }
            return Some(i);
        }
        i += 1;
    }
    proof {
        lemma_pairs_map_absent(s@, key);
    }
    None
}

} // verus!
