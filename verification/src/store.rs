//! A small map keyed by strings.
//!
//! Accounts and subscription names are strings, and every table of the engine
//! is keyed by one of them. The table is an association list in which the
//! first entry under a key is the one that counts; its view is the
//! mathematical map from key text to value.

use vstd::prelude::*;

verus! {

/// Some entry of `s` carries the key text `k`.
pub open spec fn has_key<V>(s: Seq<(String, V)>, k: Seq<char>) -> bool {
    exists|i: int| 0 <= i < s.len() && #[trigger] s[i].0@ == k
}

/// The entry at `i` is the first one of `s` that carries the key text `k`.
pub open spec fn is_first<V>(s: Seq<(String, V)>, k: Seq<char>, i: int) -> bool {
    &&& 0 <= i < s.len()
    &&& s[i].0@ == k
    &&& forall|j: int| 0 <= j < i ==> #[trigger] s[j].0@ != k
}

/// The map that an association list stands for: each key with the value of
/// its first entry.
pub open spec fn map_of<V>(s: Seq<(String, V)>) -> Map<Seq<char>, V> {
    Map::new(
        |k: Seq<char>| has_key(s, k),
        |k: Seq<char>| s[choose|i: int| is_first(s, k, i)].1,
    )
}

/// The first entry under a key is what the map holds under it.
pub proof fn lemma_first_entry<V>(s: Seq<(String, V)>, k: Seq<char>, i: int)
    requires
        is_first(s, k, i),
    ensures
        map_of(s).contains_key(k),
        map_of(s)[k] == s[i].1,
{
    assert(s[i].0@ == k);
    let j = choose|j: int| is_first(s, k, j);
    assert(s[j].0@ == k);
    assert(j == i);
}

/// A key that occurs at `w` has a first entry.
pub proof fn lemma_first_exists<V>(s: Seq<(String, V)>, k: Seq<char>, w: int)
    requires
        0 <= w < s.len(),
        s[w].0@ == k,
    ensures
        exists|i: int| is_first(s, k, i),
    decreases w,
{
    if exists|j: int| 0 <= j < w && #[trigger] s[j].0@ == k {
        let j = choose|j: int| 0 <= j < w && #[trigger] s[j].0@ == k;
        lemma_first_exists(s, k, j);
    } else {
        assert(is_first(s, k, w));
    }
}

/// Appending an entry under a key that does not occur inserts it.
pub proof fn lemma_map_of_push<V>(s: Seq<(String, V)>, key: String, value: V)
    requires
        !has_key(s, key@),
    ensures
        map_of(s.push((key, value))) =~= map_of(s).insert(key@, value),
{
    let t = s.push((key, value));
    let n = s.len() as int;
    assert(t[n].0@ == key@);
    assert forall|k: Seq<char>| has_key(t, k) <==> (k == key@ || has_key(s, k)) by {
        if has_key(t, k) {
            let i = choose|i: int| 0 <= i < t.len() && #[trigger] t[i].0@ == k;
            if i < n {
                assert(s[i].0@ == k);
            }
        }
        if has_key(s, k) {
            let i = choose|i: int| 0 <= i < s.len() && #[trigger] s[i].0@ == k;
            assert(t[i].0@ == k);
        }
    }
    assert forall|k: Seq<char>| has_key(t, k) implies map_of(t)[k] == map_of(s).insert(
        key@,
        value,
    )[k] by {
        if k == key@ {
            assert forall|j: int| 0 <= j < n implies #[trigger] t[j].0@ != k by {
                assert(s[j].0@ != k);
            }
            assert(is_first(t, k, n));
            lemma_first_entry(t, k, n);
        } else {
            let w = choose|i: int| 0 <= i < s.len() && #[trigger] s[i].0@ == k;
            lemma_first_exists(s, k, w);
            let i = choose|i: int| is_first(s, k, i);
            assert forall|j: int| 0 <= j < i implies #[trigger] t[j].0@ != k by {
                assert(s[j].0@ != k);
            }
            assert(t[i] == s[i]);
            assert(is_first(t, k, i));
            lemma_first_entry(t, k, i);
            lemma_first_entry(s, k, i);
        }
    }
}

/// Dropping the first entry under a key leaves every other key as it was.
pub proof fn lemma_map_of_remove<V>(s: Seq<(String, V)>, gone: Seq<char>, i: int)
    requires
        is_first(s, gone, i),
    ensures
        map_of(s.remove(i)).remove(gone) =~= map_of(s).remove(gone),
{
    let t = s.remove(i);
    assert forall|a: int| 0 <= a < t.len() implies #[trigger] t[a] == s[if a < i {
        a
    } else {
        a + 1
    }] by {}
    assert forall|k: Seq<char>| k != gone implies (has_key(t, k) <==> has_key(s, k)) by {
        if has_key(t, k) {
            let a = choose|a: int| 0 <= a < t.len() && #[trigger] t[a].0@ == k;
            let a2 = if a < i { a } else { a + 1 };
            assert(t[a] == s[a2]);
            assert(s[a2].0@ == k);
        }
        if has_key(s, k) {
            let a = choose|a: int| 0 <= a < s.len() && #[trigger] s[a].0@ == k;
            let a1 = if a < i { a } else { a - 1 };
            assert(t[a1] == s[a]);
            assert(t[a1].0@ == k);
        }
    }
    assert forall|k: Seq<char>| k != gone && has_key(s, k) implies map_of(t)[k] == map_of(s)[k] by {
        let w = choose|a: int| 0 <= a < s.len() && #[trigger] s[a].0@ == k;
        lemma_first_exists(s, k, w);
        let a = choose|a: int| is_first(s, k, a);
        let a1 = if a < i { a } else { a - 1 };
        assert(t[a1] == s[a]);
        assert forall|j: int| 0 <= j < a1 implies #[trigger] t[j].0@ != k by {
            let j2 = if j < i { j } else { j + 1 };
            assert(t[j] == s[j2]);
            assert(s[j2].0@ != k);
        }
        assert(is_first(t, k, a1));
        lemma_first_entry(t, k, a1);
        lemma_first_entry(s, k, a);
    }
}

/// A map from strings to `V`.
#[derive(Debug)]
pub struct StrMap<V> {
    entries: Vec<(String, V)>,
}

impl<V> View for StrMap<V> {
    type V = Map<Seq<char>, V>;

    closed spec fn view(&self) -> Map<Seq<char>, V> {
        map_of(self.entries@)
    }
}

impl<V> StrMap<V> {
    /// The empty map.
    pub fn new() -> (r: Self)
        ensures
            r@ == Map::<Seq<char>, V>::empty(),
    {
        let r = StrMap { entries: Vec::new() };
        assert(r@ =~= Map::<Seq<char>, V>::empty());
        r
    }

    /// Position of the first entry under `key`, if there is one.
    fn position(&self, key: &String) -> (r: Option<usize>)
        ensures
            match r {
                Some(i) => is_first(self.entries@, key@, i as int),
                None => !has_key(self.entries@, key@),
            },
    {
        let mut i: usize = 0;
        while i < self.entries.len()
            invariant
                i <= self.entries@.len(),
                forall|j: int| 0 <= j < i ==> #[trigger] self.entries@[j].0@ != key@,
            decreases self.entries@.len() - i,
        {
            if self.entries[i].0 == *key {
                return Some(i);
            }
            i += 1;
        }
        None
    }

    /// The value stored under `key`.
    pub fn get(&self, key: &String) -> (r: Option<&V>)
        ensures
            match r {
                Some(v) => self@.contains_key(key@) && *v == self@[key@],
                None => !self@.contains_key(key@),
            },
    {
        match self.position(key) {
            Some(i) => {
                proof {
                    lemma_first_entry(self.entries@, key@, i as int);
                }
                Some(&self.entries[i].1)
            },
            None => None,
        }
    }

    /// Whether a value is stored under `key`.
    pub fn contains_key(&self, key: &String) -> (r: bool)
        ensures
            r == self@.contains_key(key@),
    {
        self.get(key).is_some()
    }

    /// Whether the map holds nothing.
    pub fn is_empty(&self) -> (r: bool)
        ensures
            r == (self@ =~= Map::<Seq<char>, V>::empty()),
    {
        proof {
            if self.entries@.len() > 0 {
                assert(self.entries@[0].0@ == self.entries@[0].0@);
                assert(has_key(self.entries@, self.entries@[0].0@));
                assert(self@.contains_key(self.entries@[0].0@));
            }
        }
        self.entries.len() == 0
    }

    /// The keys of the map, each once.
    pub fn keys(&self) -> (r: Vec<String>)
        ensures
            forall|k: Seq<char>|
                self@.contains_key(k) <==> exists|i: int| 0 <= i < r@.len() && #[trigger] r@[i]@ == k,
            forall|i: int, j: int| 0 <= i < j < r@.len() ==> r@[i]@ != r@[j]@,
    {
        let mut out: Vec<String> = Vec::new();
        let ghost mut at: Seq<int> = Seq::empty();
        let mut i: usize = 0;
        while i < self.entries.len()
            invariant
                i <= self.entries@.len(),
                at.len() == out@.len(),
                forall|a: int|
                    0 <= a < at.len() ==> 0 <= #[trigger] at[a] < i && is_first(
                        self.entries@,
                        out@[a]@,
                        at[a],
                    ),
                forall|a: int, b: int| 0 <= a < b < at.len() ==> at[a] < at[b],
                forall|j: int|
                    0 <= j < i && is_first(self.entries@, #[trigger] self.entries@[j].0@, j)
                        ==> exists|a: int| 0 <= a < at.len() && at[a] == j,
            decreases self.entries@.len() - i,
        {
            let first = self.position(&self.entries[i].0);
            if first == Some(i) {
                let ghost before = at;
                out.push(self.entries[i].0.clone());
                proof {
                    at = at.push(i as int);
                    assert forall|j: int|
                        0 <= j < i + 1 && is_first(
                            self.entries@,
                            #[trigger] self.entries@[j].0@,
                            j,
                        ) implies exists|a: int| 0 <= a < at.len() && at[a] == j by {
                        if j < i {
                            let a = choose|a: int| 0 <= a < before.len() && before[a] == j;
                            assert(at[a] == j);
                        } else {
                            assert(at[before.len() as int] == j);
                        }
                    }
                }
            } else {
                proof {
                    let k = self.entries@[i as int].0@;
                    assert(self.entries@[i as int].0@ == k);
                    assert(!is_first(self.entries@, k, i as int)) by {
                        if is_first(self.entries@, k, i as int) {
                            let p = first->0 as int;
                            assert(is_first(self.entries@, k, p));
                            assert(self.entries@[p].0@ == k);
                            assert(self.entries@[i as int].0@ == k);
                        }
                    }
                }
            }
            i += 1;
        }
        proof {
            assert forall|k: Seq<char>| self@.contains_key(k) implies exists|i: int|
                0 <= i < out@.len() && #[trigger] out@[i]@ == k by {
                let w = choose|w: int| 0 <= w < self.entries@.len() && #[trigger] self.entries@[w].0@ == k;
                lemma_first_exists(self.entries@, k, w);
                let j = choose|j: int| is_first(self.entries@, k, j);
                assert(self.entries@[j].0@ == k);
                let a = choose|a: int| 0 <= a < at.len() && at[a] == j;
                assert(is_first(self.entries@, out@[a]@, at[a]));
                assert(out@[a]@ == k);
            }
            assert forall|k: Seq<char>|
                (exists|i: int| 0 <= i < out@.len() && #[trigger] out@[i]@ == k)
                    implies self@.contains_key(k) by {
                let a = choose|a: int| 0 <= a < out@.len() && #[trigger] out@[a]@ == k;
                assert(is_first(self.entries@, out@[a]@, at[a]));
                assert(self.entries@[at[a]].0@ == k);
            }
            assert forall|a: int, b: int| 0 <= a < b < out@.len() implies out@[a]@ != out@[b]@ by {
                if out@[a]@ == out@[b]@ {
                    assert(is_first(self.entries@, out@[a]@, at[a]));
                    assert(is_first(self.entries@, out@[b]@, at[b]));
                    assert(at[a] < at[b]);
                    assert(self.entries@[at[a]].0@ == out@[a]@);
                }
            }
        }
        out
    }

    /// Stores `value` under `key` and returns what was stored there before.
    pub fn insert(&mut self, key: String, value: V) -> (r: Option<V>)
        ensures
            final(self)@ == old(self)@.insert(key@, value),
            r == if old(self)@.contains_key(key@) {
                Some(old(self)@[key@])
            } else {
                None::<V>
            },
    {
        let previous = self.purge(&key);
        proof {
            lemma_map_of_push(self.entries@, key, value);
            assert(old(self)@.remove(key@).insert(key@, value) =~= old(self)@.insert(key@, value));
        }
        self.entries.push((key, value));
        previous
    }

    /// Deletes what is stored under `key` and returns it.
    pub fn remove(&mut self, key: &String) -> (r: Option<V>)
        ensures
            final(self)@ == old(self)@.remove(key@),
            r == if old(self)@.contains_key(key@) {
                Some(old(self)@[key@])
            } else {
                None::<V>
            },
    {
        self.purge(key)
    }

    /// Drops every entry under `key` and returns the value of the first.
    fn purge(&mut self, key: &String) -> (r: Option<V>)
        ensures
            final(self)@ == old(self)@.remove(key@),
            !has_key(final(self).entries@, key@),
            r == if old(self)@.contains_key(key@) {
                Some(old(self)@[key@])
            } else {
                None::<V>
            },
    {
        let mut found: Option<V> = None;
        loop
            invariant
                map_of(self.entries@).remove(key@) =~= map_of(old(self).entries@).remove(key@),
                found is None ==> self.entries@ == old(self).entries@,
                found is Some ==> old(self)@.contains_key(key@) && found->0 == old(self)@[key@],
            ensures
                !has_key(self.entries@, key@),
                found is None ==> !old(self)@.contains_key(key@),
            decreases self.entries@.len(),
        {
            match self.position(key) {
                Some(i) => {
                    proof {
                        lemma_first_entry(self.entries@, key@, i as int);
                        lemma_map_of_remove(self.entries@, key@, i as int);
                    }
                    let entry = self.entries.remove(i);
                    if found.is_none() {
                        found = Some(entry.1);
                    }
                },
                None => {
                    break ;
                },
            }
        }
        assert(self@.remove(key@) =~= self@);
        found
    }
}

} // verus!
