//! Association lists keyed by strings, where a later entry for a key hides
//! every earlier one.
use vstd::prelude::*;

verus! {

/// Index of the last entry whose key is `k`, if any.
pub open spec fn last_index<V>(s: Seq<(String, V)>, k: Seq<char>) -> Option<int>
    decreases s.len(),
{
    if s.len() == 0 {
        None
    } else if s.last().0@ == k {
        Some(s.len() - 1)
    } else {
        last_index(s.drop_last(), k)
    }
}

/// The map that an association list stands for: each key bound to the view
/// (under `f`) of its last value.
pub open spec fn to_map<V, W>(s: Seq<(String, V)>, f: spec_fn(V) -> W) -> Map<Seq<char>, W>
    decreases s.len(),
{
    if s.len() == 0 {
        Map::empty()
    } else {
        to_map(s.drop_last(), f).insert(s.last().0@, f(s.last().1))
    }
}

/// A key is in the map exactly when some entry carries it, and it is bound
/// to the value of the last such entry.
pub proof fn lemma_to_map_lookup<V, W>(s: Seq<(String, V)>, f: spec_fn(V) -> W, k: Seq<char>)
    ensures
        to_map(s, f).contains_key(k) <==> last_index(s, k).is_some(),
        last_index(s, k).is_some() ==> {
            let i = last_index(s, k).unwrap();
            &&& 0 <= i < s.len()
            &&& s[i].0@ == k
            &&& to_map(s, f)[k] == f(s[i].1)
        },
    decreases s.len(),
{
    if s.len() > 0 {
        lemma_to_map_lookup(s.drop_last(), f, k);
    }
}

/// Finds the last entry of `s` whose key is `k`.
pub fn find_last<V>(s: &Vec<(String, V)>, k: &String) -> (r: Option<usize>)
    ensures
        r matches Some(i) ==> last_index(s@, k@) == Some(i as int),
        r is None ==> last_index(s@, k@) is None,
{
    let mut i: usize = s.len();
    assert(s@.take(i as int) =~= s@);
    while i > 0
        invariant
            i <= s@.len(),
            last_index(s@, k@) == last_index(s@.take(i as int), k@),
        decreases i,
    {
        assert(s@.take(i as int).drop_last() =~= s@.take(i - 1));
        if s[i - 1].0 == *k {
            return Some(i - 1);
        }
        i = i - 1;
    }
    None
}

} // verus!
