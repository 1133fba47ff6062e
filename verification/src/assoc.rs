//! Lists of (key, value) pairs used as maps keyed by strings: a key's value is that of
//! its first pair.
use crate::text::str_eq;
use vstd::prelude::*;

verus! {

/// The keys of a list of pairs, in order.
pub open spec fn keys_of<V>(s: Seq<(String, V)>) -> Seq<Seq<char>> {
    s.map_values(|e: (String, V)| e.0@)
}

/// The position of the first occurrence of `k` in `keys`.
pub open spec fn first_index(keys: Seq<Seq<char>>, k: Seq<char>) -> Option<int>
    decreases keys.len(),
{
    if keys.len() == 0 {
        None
    } else if keys[0] == k {
        Some(0)
    } else {
        match first_index(keys.drop_first(), k) {
            Some(i) => Some(i + 1),
            None => None,
        }
    }
}

/// `first_index` is the least position holding `k`, and `None` means `k` is absent.
pub proof fn lemma_first_index(keys: Seq<Seq<char>>, k: Seq<char>)
    ensures
        match first_index(keys, k) {
            Some(i) => 0 <= i < keys.len() && keys[i] == k && forall|j: int|
                0 <= j < i ==> keys[j] != k,
            None => forall|j: int| 0 <= j < keys.len() ==> keys[j] != k,
        },
    decreases keys.len(),
{
    if keys.len() > 0 && keys[0] != k {
        lemma_first_index(keys.drop_first(), k);
        assert forall|j: int| 0 < j < keys.len() implies keys[j] == keys.drop_first()[j - 1] by {}
    }
}

/// The position of the first pair whose key is `k`.
pub fn find_key<V>(v: &Vec<(String, V)>, k: &str) -> (r: Option<usize>)
    ensures
        match r {
            Some(i) => i < v@.len() && v@[i as int].0@ == k@ && first_index(keys_of(v@), k@) == Some(
                i as int,
            ),
            None => first_index(keys_of(v@), k@) is None,
        },
{
    let ghost keys = keys_of(v@);
    let mut i: usize = 0;
    while i < v.len()
        invariant
            keys == keys_of(v@),
            i <= v@.len(),
            forall|j: int| 0 <= j < i ==> keys[j] != k@,
        decreases v@.len() - i,
    {
        if str_eq(v[i].0.as_str(), k) {
            proof {
                lemma_first_index(keys, k@);
                match first_index(keys, k@) {
                    Some(f) => {
                        if f < i {
                            assert(keys[f] != k@);
                        } else if f > i {
                            assert(keys[i as int] == k@);
                        }
                    },
                    None => {
                        assert(keys[i as int] == k@);
                    },
                }
            }
            return Some(i);
        }
        i = i + 1;
    }
    proof {
        lemma_first_index(keys, k@);
        if let Some(f) = first_index(keys, k@) {
            assert(keys[f] != k@);
        }
    }
    None
}

/// The value of `k`: that of its first pair.
pub open spec fn assoc_get<V>(s: Seq<(Seq<char>, V)>, k: Seq<char>) -> Option<V> {
    match first_index(s.map_values(|e: (Seq<char>, V)| e.0), k) {
        Some(i) => Some(s[i].1),
        None => None,
    }
}

/// `k` set to `v`: its first pair gets the value, or a pair is appended.
pub open spec fn assoc_set<V>(s: Seq<(Seq<char>, V)>, k: Seq<char>, v: V) -> Seq<(Seq<char>, V)> {
    match first_index(s.map_values(|e: (Seq<char>, V)| e.0), k) {
        Some(i) => s.update(i, (k, v)),
        None => s.push((k, v)),
    }
}

/// The pairs whose key is not `k`, in order.
pub open spec fn assoc_remove<V>(s: Seq<(Seq<char>, V)>, k: Seq<char>) -> Seq<(Seq<char>, V)>
    decreases s.len(),
{
    if s.len() == 0 {
        s
    } else if s.last().0 == k {
        assoc_remove(s.drop_last(), k)
    } else {
        assoc_remove(s.drop_last(), k).push(s.last())
    }
}

/// After setting `k`, its value is the one set and the other keys keep theirs.
pub proof fn lemma_assoc_set_get<V>(s: Seq<(Seq<char>, V)>, k: Seq<char>, v: V, k2: Seq<char>)
    ensures
        assoc_get(assoc_set(s, k, v), k) == Some(v),
        k2 != k ==> assoc_get(assoc_set(s, k, v), k2) == assoc_get(s, k2),
{
    let keys = s.map_values(|e: (Seq<char>, V)| e.0);
    let t = assoc_set(s, k, v);
    let tkeys = t.map_values(|e: (Seq<char>, V)| e.0);
    lemma_first_index(keys, k);
    lemma_first_index(keys, k2);
    lemma_first_index(tkeys, k);
    lemma_first_index(tkeys, k2);
    match first_index(keys, k) {
        Some(i) => {
            assert(tkeys =~= keys);
        },
        None => {
            assert(tkeys =~= keys.push(k));
            assert(tkeys[keys.len() as int] == k);
            if let Some(f) = first_index(tkeys, k) {
                if f < keys.len() {
                    assert(keys[f] == tkeys[f]);
                }
            }
            if k2 != k {
                if let Some(f) = first_index(keys, k2) {
                    assert(tkeys[f] == keys[f]);
                    if let Some(g) = first_index(tkeys, k2) {
                        if g < f {
                            assert(keys[g] == tkeys[g]);
                        }
                    }
                }
                if let Some(g) = first_index(tkeys, k2) {
                    if g < keys.len() {
                        assert(keys[g] == tkeys[g]);
                    }
                }
            }
        },
    }
}

/// After removing `k`, it has no value and the other keys keep theirs.
pub proof fn lemma_assoc_remove_get<V>(s: Seq<(Seq<char>, V)>, k: Seq<char>, k2: Seq<char>)
    ensures
        assoc_get(assoc_remove(s, k), k) is None,
        k2 != k ==> assoc_get(assoc_remove(s, k), k2) == assoc_get(s, k2),
    decreases s.len(),
{
    if s.len() > 0 {
        let p = s.drop_last();
        lemma_assoc_remove_get(p, k, k2);
        lemma_assoc_get_push(assoc_remove(p, k), s.last(), k);
        lemma_assoc_get_push(assoc_remove(p, k), s.last(), k2);
        lemma_assoc_get_push(p, s.last(), k2);
        assert(p.push(s.last()) =~= s);
    } else {
        lemma_first_index(s.map_values(|e: (Seq<char>, V)| e.0), k);
        lemma_first_index(s.map_values(|e: (Seq<char>, V)| e.0), k2);
    }
}

/// Looking a key up after a pair is appended.
pub proof fn lemma_assoc_get_push<V>(s: Seq<(Seq<char>, V)>, e: (Seq<char>, V), k: Seq<char>)
    ensures
        assoc_get(s.push(e), k) == (match assoc_get(s, k) {
            Some(v) => Some(v),
            None => if e.0 == k {
                Some(e.1)
            } else {
                None
            },
        }),
{
    let keys = s.map_values(|x: (Seq<char>, V)| x.0);
    let tkeys = s.push(e).map_values(|x: (Seq<char>, V)| x.0);
    assert(tkeys =~= keys.push(e.0));
    lemma_first_index(keys, k);
    lemma_first_index(tkeys, k);
    match first_index(keys, k) {
        Some(i) => {
            assert(tkeys[i] == k);
            if let Some(g) = first_index(tkeys, k) {
                if g < i {
                    assert(keys[g] == tkeys[g]);
                }
            }
        },
        None => {
            if let Some(g) = first_index(tkeys, k) {
                if g < keys.len() {
                    assert(keys[g] == tkeys[g]);
                }
            }
            if e.0 == k {
                assert(tkeys[keys.len() as int] == k);
            }
        },
    }
}

} // verus!
