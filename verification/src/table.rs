//! Records kept in a vector and found by their string id.
//!
//! A vector whose ids are pairwise distinct is viewed as a map from id to the
//! view of the record; lookups in a vector take the first record with the id.
use vstd::prelude::*;

verus! {

/// A record that carries a string id.
pub trait Keyed: View + Sized {
    spec fn key(&self) -> Seq<char>;

    fn id_ref(&self) -> (r: &String)
        ensures
            r@ == self.key(),
    ;
}

/// No two records of `s` share an id.
pub open spec fn keys_unique<T: Keyed>(s: Seq<T>) -> bool {
    forall|i: int, j: int|
        0 <= i < s.len() && 0 <= j < s.len() && #[trigger] s[i].key() == #[trigger] s[j].key() ==> i
            == j
}

/// Some record of `s` has the id `k`.
pub open spec fn has_key<T: Keyed>(s: Seq<T>, k: Seq<char>) -> bool {
    exists|i: int| 0 <= i < s.len() && #[trigger] s[i].key() == k
}

/// `i` is the position of the first record of `s` with the id `k`.
pub open spec fn first_with_key<T: Keyed>(s: Seq<T>, k: Seq<char>, i: int) -> bool {
    &&& 0 <= i < s.len()
    &&& s[i].key() == k
    &&& forall|j: int| 0 <= j < i ==> #[trigger] s[j].key() != k
}

/// A position of a record of `s` with the id `k`.
pub open spec fn index_of_key<T: Keyed>(s: Seq<T>, k: Seq<char>) -> int {
    choose|i: int| 0 <= i < s.len() && #[trigger] s[i].key() == k
}

/// The map from each id of `s` to the view of a record with that id.
pub open spec fn keyed_map<T: Keyed>(s: Seq<T>) -> Map<Seq<char>, T::V> {
    Map::new(|k: Seq<char>| has_key(s, k), |k: Seq<char>| s[index_of_key(s, k)]@)
}

/// In a vector without repeated ids, the record at `i` is the one the map
/// gives for its id.
pub proof fn lemma_keyed_index<T: Keyed>(s: Seq<T>, i: int)
    requires
        keys_unique(s),
        0 <= i < s.len(),
    ensures
        keyed_map(s).contains_key(s[i].key()),
        keyed_map(s)[s[i].key()] == s[i]@,
        index_of_key(s, s[i].key()) == i,
{
    assert(has_key(s, s[i].key()));
}

/// Appending a record with a new id inserts it into the map.
pub proof fn lemma_keyed_push<T: Keyed>(s: Seq<T>, x: T)
    requires
        keys_unique(s),
        !has_key(s, x.key()),
    ensures
        keys_unique(s.push(x)),
        keyed_map(s.push(x)) == keyed_map(s).insert(x.key(), x@),
{
    let t = s.push(x);
    assert forall|i: int, j: int|
        0 <= i < t.len() && 0 <= j < t.len() && #[trigger] t[i].key() == #[trigger] t[j].key()
        implies i == j by {
        if i < s.len() && j == s.len() {
            assert(s[i].key() == x.key());
        } else if j < s.len() && i == s.len() {
            assert(s[j].key() == x.key());
        }
    }
    assert forall|k: Seq<char>| has_key(t, k) == (has_key(s, k) || k == x.key()) by {
        if has_key(t, k) {
            let i = choose|i: int| 0 <= i < t.len() && #[trigger] t[i].key() == k;
            if i < s.len() {
                assert(s[i].key() == k);
            }
        }
        if has_key(s, k) {
            let i = choose|i: int| 0 <= i < s.len() && #[trigger] s[i].key() == k;
            assert(t[i].key() == k);
        }
        if k == x.key() {
            assert(t[s.len() as int].key() == k);
        }
    }
    assert forall|k: Seq<char>| #[trigger] keyed_map(t).contains_key(k) implies keyed_map(t)[k]
        == keyed_map(s).insert(x.key(), x@)[k] by {
        let i = index_of_key(t, k);
        if k == x.key() {
            assert(t[s.len() as int].key() == k);
        } else {
            let j = index_of_key(s, k);
            assert(t[j].key() == k);
        }
    }
    assert(keyed_map(t) =~= keyed_map(s).insert(x.key(), x@));
}

/// Replacing a record by one with the same id updates the map at that id.
pub proof fn lemma_keyed_update<T: Keyed>(s: Seq<T>, i: int, x: T)
    requires
        keys_unique(s),
        0 <= i < s.len(),
        x.key() == s[i].key(),
    ensures
        keys_unique(s.update(i, x)),
        keyed_map(s.update(i, x)) == keyed_map(s).insert(x.key(), x@),
{
    let t = s.update(i, x);
    assert forall|a: int, b: int|
        0 <= a < t.len() && 0 <= b < t.len() && #[trigger] t[a].key() == #[trigger] t[b].key()
        implies a == b by {
        assert(s[a].key() == t[a].key());
        assert(s[b].key() == t[b].key());
    }
    assert forall|k: Seq<char>| has_key(t, k) == has_key(s, k) by {
        if has_key(t, k) {
            let a = choose|a: int| 0 <= a < t.len() && #[trigger] t[a].key() == k;
            assert(s[a].key() == k);
        }
        if has_key(s, k) {
            let a = choose|a: int| 0 <= a < s.len() && #[trigger] s[a].key() == k;
            assert(t[a].key() == k);
        }
    }
    assert(has_key(s, x.key())) by {
        assert(s[i].key() == x.key());
    }
    assert forall|k: Seq<char>| #[trigger] keyed_map(t).contains_key(k) implies keyed_map(t)[k]
        == keyed_map(s).insert(x.key(), x@)[k] by {
        let a = index_of_key(t, k);
        let b = index_of_key(s, k);
        assert(t[a].key() == k);
        assert(s[b].key() == k);
        if k == x.key() {
            assert(t[i].key() == k);
        } else {
            assert(t[b].key() == k);
        }
    }
    assert(keyed_map(t) =~= keyed_map(s).insert(x.key(), x@));
}

/// Finds the first record of `v` whose id is `k`.
pub fn find_by_key<T: Keyed>(v: &Vec<T>, k: &String) -> (r: Option<usize>)
    ensures
        match r {
            Some(i) => first_with_key(v@, k@, i as int),
            None => !has_key(v@, k@),
        },
{
    let mut i: usize = 0;
    while i < v.len()
        invariant
            i <= v.len(),
            forall|j: int| 0 <= j < i ==> #[trigger] v@[j].key() != k@,
        decreases v.len() - i,
    {
        if v[i].id_ref().eq(k) {
            return Some(i);
        }
        i += 1;
    }
    None
}

/// In a vector without repeated ids, the first record with an id is the only one.
pub proof fn lemma_first_is_unique<T: Keyed>(s: Seq<T>, k: Seq<char>, i: int)
    requires
        keys_unique(s),
        first_with_key(s, k, i),
    ensures
        keyed_map(s).contains_key(k),
        keyed_map(s)[k] == s[i]@,
        index_of_key(s, k) == i,
{
    lemma_keyed_index(s, i);
}

} // verus!
