//! A map from data paths (one Signal store each) to the state kept for them:
//! the loaded managers and the linking sessions that are under way.

use vstd::prelude::*;

verus! {

/// No two entries of `s` have the same key.
pub open spec fn keys_distinct<T>(s: Seq<(String, T)>) -> bool {
    forall|i: int, j: int| 0 <= i < j < s.len() ==> #[trigger] s[i].0@ != #[trigger] s[j].0@
}

/// Entry `i` of `s` has the key `key`.
pub open spec fn has_key_at<T>(s: Seq<(String, T)>, key: Seq<char>, i: int) -> bool {
    0 <= i < s.len() && s[i].0@ == key
}

/// The entries `s` as a map from key to value.
pub open spec fn map_of<T>(s: Seq<(String, T)>) -> Map<Seq<char>, T> {
    Map::new(
        |key: Seq<char>| exists|i: int| has_key_at(s, key, i),
        |key: Seq<char>| s[choose|i: int| has_key_at(s, key, i)].1,
    )
}

proof fn lemma_lookup<T>(s: Seq<(String, T)>, i: int)
    requires
        keys_distinct(s),
        0 <= i < s.len(),
    ensures
        map_of(s).dom().contains(s[i].0@),
        map_of(s)[s[i].0@] == s[i].1,
{
    let key = s[i].0@;
    assert(has_key_at(s, key, i));
    let j = choose|j: int| has_key_at(s, key, j);
    if i != j {
        if i < j {
            assert(s[i].0@ != s[j].0@);
        } else {
            assert(s[j].0@ != s[i].0@);
        }
    }
}

/// Removing entry `i` removes its key from the map and keeps the keys distinct.
proof fn lemma_remove_at<T>(s: Seq<(String, T)>, i: int)
    requires
        keys_distinct(s),
        0 <= i < s.len(),
    ensures
        keys_distinct(s.remove(i)),
        map_of(s.remove(i)) == map_of(s).remove(s[i].0@),
{
    let r = s.remove(i);
    let key = s[i].0@;
    lemma_lookup(s, i);
    assert forall|a: int, b: int| 0 <= a < b < r.len() implies #[trigger] r[a].0@ != #[trigger] r[b].0@ by {
        let a0 = if a < i { a } else { a + 1 };
        let b0 = if b < i { b } else { b + 1 };
        assert(r[a] == s[a0]);
        assert(r[b] == s[b0]);
        assert(s[a0].0@ != s[b0].0@);
    }
    assert forall|k: Seq<char>|
        #![trigger map_of(r).dom().contains(k)]
        map_of(r).dom().contains(k) == map_of(s).remove(key).dom().contains(k) by {
        if map_of(r).dom().contains(k) {
            let j = choose|j: int| has_key_at(r, k, j);
            let j0 = if j < i { j } else { j + 1 };
            assert(r[j] == s[j0]);
            assert(has_key_at(s, k, j0));
            if k == key {
                if i < j0 {
                    assert(s[i].0@ != s[j0].0@);
                } else {
                    assert(s[j0].0@ != s[i].0@);
                }
            }
        }
        if map_of(s).remove(key).dom().contains(k) {
            let j0 = choose|j: int| has_key_at(s, k, j);
            assert(j0 != i);
            let j = if j0 < i { j0 } else { j0 - 1 };
            assert(r[j] == s[j0]);
            assert(has_key_at(r, k, j));
        }
    }
    assert forall|k: Seq<char>|
        #![trigger map_of(r)[k]]
        map_of(r).dom().contains(k) implies map_of(r)[k] == map_of(s)[k] by {
        let j = choose|j: int| has_key_at(r, k, j);
        let j0 = if j < i { j } else { j + 1 };
        assert(r[j] == s[j0]);
        lemma_lookup(r, j);
        lemma_lookup(s, j0);
    }
    assert(map_of(r) =~= map_of(s).remove(key));
}

/// Appending an entry whose key is absent adds it to the map and keeps the keys distinct.
proof fn lemma_push_new<T>(s: Seq<(String, T)>, key: String, value: T)
    requires
        keys_distinct(s),
        !map_of(s).dom().contains(key@),
    ensures
        keys_distinct(s.push((key, value))),
        map_of(s.push((key, value))) == map_of(s).insert(key@, value),
{
    let r = s.push((key, value));
    let n = s.len() as int;
    let k0 = key@;
    assert(r[n].0@ == k0);
    assert forall|a: int, b: int| 0 <= a < b < r.len() implies #[trigger] r[a].0@ != #[trigger] r[b].0@ by {
        assert(r[a] == s[a]);
        if b < n {
            assert(r[b] == s[b]);
        } else if r[a].0@ == k0 {
            assert(has_key_at(s, k0, a));
        }
    }
    lemma_lookup(r, n);
    assert forall|k: Seq<char>|
        #![trigger map_of(r).dom().contains(k)]
        map_of(r).dom().contains(k) == map_of(s).insert(k0, value).dom().contains(k) by {
        if map_of(r).dom().contains(k) && k != k0 {
            let j = choose|j: int| has_key_at(r, k, j);
            assert(j != n);
            assert(r[j] == s[j]);
            assert(has_key_at(s, k, j));
        }
        if map_of(s).dom().contains(k) {
            let j = choose|j: int| has_key_at(s, k, j);
            assert(r[j] == s[j]);
            assert(has_key_at(r, k, j));
        }
    }
    assert forall|k: Seq<char>|
        #![trigger map_of(r)[k]]
        map_of(r).dom().contains(k) && k != k0 implies map_of(r)[k] == map_of(s)[k] by {
        let j = choose|j: int| has_key_at(r, k, j);
        assert(j != n);
        assert(r[j] == s[j]);
        lemma_lookup(r, j);
        lemma_lookup(s, j);
    }
    assert(map_of(r) =~= map_of(s).insert(k0, value));
}

/// The position of the entry for `key` in `entries`, if there is one.
fn position<T>(entries: &Vec<(String, T)>, key: &String) -> (pos: Option<usize>)
    requires
        keys_distinct(entries@),
    ensures
        match pos {
            Some(i) => i < entries.len() && entries@[i as int].0@ == key@,
            None => !map_of(entries@).dom().contains(key@),
        },
{
    let mut i: usize = 0;
    while i < entries.len()
        invariant
            i <= entries.len(),
            forall|j: int| 0 <= j < i ==> entries@[j].0@ != key@,
        decreases entries.len() - i,
    {
        if entries[i].0 == *key {
            return Some(i);
        }
        i = i + 1;
    }
    proof {
        if map_of(entries@).dom().contains(key@) {
            let j = choose|j: int| has_key_at(entries@, key@, j);
            assert(entries@[j].0@ == key@);
        }
    }
    None
}

/// Entries keyed by a data path; no key occurs twice.
pub struct Registry<T> {
    entries: Vec<(String, T)>,
}

impl<T> View for Registry<T> {
    type V = Map<Seq<char>, T>;

    /// The registry as a map from data path to value.
    closed spec fn view(&self) -> Map<Seq<char>, T> {
        map_of(self.entries@)
    }
}

impl<T> Registry<T> {
    /// No two entries have the same key.
    #[verifier::type_invariant]
    closed spec fn well_formed(&self) -> bool {
        keys_distinct(self.entries@)
    }

    /// An empty registry.
    pub fn new() -> (r: Self)
        ensures
            r@ == Map::<Seq<char>, T>::empty(),
    {
        let r = Registry { entries: Vec::new() };
        assert(map_of(r.entries@) =~= Map::<Seq<char>, T>::empty());
        r
    }

    /// Whether an entry for `key` exists.
    pub fn contains(&self, key: &String) -> (found: bool)
        ensures
            found == self@.dom().contains(key@),
    {
        proof {
            use_type_invariant(self);
        }
        match position(&self.entries, key) {
            Some(i) => {
                proof {
                    lemma_lookup(self.entries@, i as int);
                }
                true
            },
            None => false,
        }
    }

    /// The value kept for `key`, if any.
    pub fn get(&self, key: &String) -> (value: Option<&T>)
        ensures
            match value {
                Some(v) => self@.dom().contains(key@) && *v == self@[key@],
                None => !self@.dom().contains(key@),
            },
    {
        proof {
            use_type_invariant(self);
        }
        match position(&self.entries, key) {
            Some(i) => {
                proof {
                    lemma_lookup(self.entries@, i as int);
                }
                Some(&self.entries[i].1)
            },
            None => None,
        }
    }

    /// Removes the entry for `key` and hands its value back, if there was one.
    pub fn remove(&mut self, key: &String) -> (value: Option<T>)
        ensures
            final(self)@ == old(self)@.remove(key@),
            match value {
                Some(v) => old(self)@.dom().contains(key@) && v == old(self)@[key@],
                None => !old(self)@.dom().contains(key@),
            },
    {
        proof {
            use_type_invariant(&*self);
        }
        let mut entries: Vec<(String, T)> = Vec::new();
        std::mem::swap(&mut entries, &mut self.entries);
        let ghost s = entries@;
        let value = match position(&entries, key) {
            Some(i) => {
                proof {
                    lemma_lookup(s, i as int);
                    lemma_remove_at(s, i as int);
                }
                let (_, v) = entries.remove(i);
                Some(v)
            },
            None => {
                assert(map_of(s) =~= map_of(s).remove(key@));
                None
            },
        };
        self.entries = entries;
        value
    }

    /// Keeps `value` for `key`, replacing and handing back the value kept before, if any.
    pub fn insert(&mut self, key: String, value: T) -> (previous: Option<T>)
        ensures
            final(self)@ == old(self)@.insert(key@, value),
            match previous {
                Some(v) => old(self)@.dom().contains(key@) && v == old(self)@[key@],
                None => !old(self)@.dom().contains(key@),
            },
    {
        let previous = self.remove(&key);
        proof {
            use_type_invariant(&*self);
        }
        let mut entries: Vec<(String, T)> = Vec::new();
        std::mem::swap(&mut entries, &mut self.entries);
        proof {
            lemma_push_new(entries@, key, value);
        }
        entries.push((key, value));
        self.entries = entries;
        previous
    }
}

} // verus!
