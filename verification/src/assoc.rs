//! Association lists keyed by names: a `Vec` of `(String, V)` pairs whose keys are
//! pairwise distinct, seen as a finite map from names to values.
use vstd::prelude::*;

verus! {

/// No two entries have the same name.
pub open spec fn keys_distinct<V>(s: Seq<(String, V)>) -> bool {
    forall|i: int, j: int| 0 <= i < s.len() && 0 <= j < s.len() && i != j ==> s[i].0@ != s[j].0@
}

/// Some entry is called `k`.
pub open spec fn has_key<V>(s: Seq<(String, V)>, k: Seq<char>) -> bool {
    exists|i: int| 0 <= i < s.len() && #[trigger] s[i].0@ == k
}

/// The position of an entry called `k` (meaningful when there is one).
pub open spec fn key_index<V>(s: Seq<(String, V)>, k: Seq<char>) -> int {
    choose|i: int| 0 <= i < s.len() && #[trigger] s[i].0@ == k
}

/// The list as a map from names to the values that `f` gives of the entries.
pub open spec fn assoc_view<V, W>(s: Seq<(String, V)>, f: spec_fn(V) -> W) -> Map<Seq<char>, W> {
    Map::new(|k: Seq<char>| has_key(s, k), |k: Seq<char>| f(s[key_index(s, k)].1))
}

/// In a list with distinct keys, the entry at `i` is what the map gives for its name.
pub proof fn lemma_assoc_index<V, W>(s: Seq<(String, V)>, f: spec_fn(V) -> W, i: int)
    requires
        keys_distinct(s),
        0 <= i < s.len(),
    ensures
        assoc_view(s, f).contains_key(s[i].0@),
        assoc_view(s, f)[s[i].0@] == f(s[i].1),
{
    let k = s[i].0@;
    assert(has_key(s, k));
    let j = key_index(s, k);
    assert(s[j].0@ == k);
}

/// A name that no entry has is not in the map.
pub proof fn lemma_assoc_absent<V, W>(s: Seq<(String, V)>, f: spec_fn(V) -> W, k: Seq<char>)
    requires
        forall|i: int| 0 <= i < s.len() ==> s[i].0@ != k,
    ensures
        !assoc_view(s, f).contains_key(k),
{
}

/// Appending an entry with a new name inserts it into the map.
pub proof fn lemma_assoc_push<V, W>(s: Seq<(String, V)>, f: spec_fn(V) -> W, k: String, v: V)
    requires
        keys_distinct(s),
        !has_key(s, k@),
    ensures
        keys_distinct(s.push((k, v))),
        assoc_view(s.push((k, v)), f) == assoc_view(s, f).insert(k@, f(v)),
{
    let t = s.push((k, v));
    assert forall|i: int, j: int| 0 <= i < t.len() && 0 <= j < t.len() && i != j implies t[i].0@
        != t[j].0@ by {
        if i == s.len() as int {
            assert(s[j].0@ == t[j].0@);
        } else if j == s.len() as int {
            assert(s[i].0@ == t[i].0@);
        }
    }
    let m = assoc_view(t, f);
    let n = assoc_view(s, f).insert(k@, f(v));
    assert forall|key: Seq<char>| #[trigger] m.contains_key(key) <==> n.contains_key(key) by {
        if has_key(s, key) {
            let i = choose|i: int| 0 <= i < s.len() && #[trigger] s[i].0@ == key;
            assert(t[i].0@ == key);
        }
        if key == k@ {
            assert(t[s.len() as int].0@ == key);
        }
        if has_key(t, key) {
            let i = choose|i: int| 0 <= i < t.len() && #[trigger] t[i].0@ == key;
            if i < s.len() {
                assert(s[i].0@ == key);
            }
        }
    }
    assert forall|key: Seq<char>| #[trigger] m.contains_key(key) implies m[key] == n[key] by {
        if key == k@ {
            lemma_assoc_index(t, f, s.len() as int);
        } else {
            let i = choose|i: int| 0 <= i < t.len() && #[trigger] t[i].0@ == key;
            assert(i < s.len());
            assert(s[i].0@ == key);
            lemma_assoc_index(t, f, i);
            lemma_assoc_index(s, f, i);
        }
    }
    assert(m =~= n);
}

/// Replacing the value of the entry at `i` (keeping its name) updates the map there.
pub proof fn lemma_assoc_update<V, W>(
    s: Seq<(String, V)>,
    f: spec_fn(V) -> W,
    i: int,
    k: String,
    v: V,
)
    requires
        keys_distinct(s),
        0 <= i < s.len(),
        s[i].0@ == k@,
    ensures
        keys_distinct(s.update(i, (k, v))),
        assoc_view(s.update(i, (k, v)), f) == assoc_view(s, f).insert(k@, f(v)),
{
    let t = s.update(i, (k, v));
    assert forall|a: int, b: int| 0 <= a < t.len() && 0 <= b < t.len() && a != b implies t[a].0@
        != t[b].0@ by {
        assert(t[a].0@ == s[a].0@);
        assert(t[b].0@ == s[b].0@);
    }
    let m = assoc_view(t, f);
    let n = assoc_view(s, f).insert(k@, f(v));
    assert forall|key: Seq<char>| #[trigger] m.contains_key(key) <==> n.contains_key(key) by {
        if has_key(s, key) {
            let j = choose|j: int| 0 <= j < s.len() && #[trigger] s[j].0@ == key;
            assert(t[j].0@ == key);
        }
        if key == k@ {
            assert(t[i].0@ == key);
        }
        if has_key(t, key) {
            let j = choose|j: int| 0 <= j < t.len() && #[trigger] t[j].0@ == key;
            assert(s[j].0@ == key);
        }
    }
    assert forall|key: Seq<char>| #[trigger] m.contains_key(key) implies m[key] == n[key] by {
        let j = choose|j: int| 0 <= j < t.len() && #[trigger] t[j].0@ == key;
        lemma_assoc_index(t, f, j);
        if j != i {
            assert(s[j].0@ == key);
            lemma_assoc_index(s, f, j);
        }
    }
    assert(m =~= n);
}

/// Position of the entry called `key`, if there is one.
pub fn find_key<V>(entries: &Vec<(String, V)>, key: &str) -> (found: Option<usize>)
    ensures
        match found {
            Some(i) => i < entries@.len() && entries@[i as int].0@ == key@,
            None => forall|i: int| 0 <= i < entries@.len() ==> entries@[i].0@ != key@,
        },
{
    let wanted = key.to_owned();
    let mut i: usize = 0;
    while i < entries.len()
        invariant
            0 <= i <= entries@.len(),
            wanted@ == key@,
            forall|j: int| 0 <= j < i ==> entries@[j].0@ != key@,
        decreases entries@.len() - i,
    {
        if entries[i].0 == wanted {
            return Some(i);
        }
        i = i + 1;
    }
    None
}

} // verus!
