//! A string-keyed map held as an association list, viewed as a finite
//! `Map<Seq<char>, V>`. Both registries of the control plane store their
//! shared state in one of these, so insert, lookup and remove carry exact
//! map-level contracts.
use vstd::prelude::*;

verus! {

/// The finite map that an association list denotes when read left to right:
/// a later binding for a key overrides an earlier one.
pub open spec fn assoc_map<V>(s: Seq<(String, V)>) -> Map<Seq<char>, V>
    decreases s.len(),
{
    if s.len() == 0 {
        Map::empty()
    } else {
        assoc_map(s.drop_last()).insert(s.last().0@, s.last().1)
    }
}

/// Key views of the list are pairwise distinct.
pub open spec fn distinct_keys<V>(s: Seq<(String, V)>) -> bool {
    forall|i: int, j: int| 0 <= i < j < s.len() ==> s[i].0@ != s[j].0@
}

/// A key is in the denoted map exactly when some entry carries it.
pub proof fn lemma_assoc_map_contains<V>(s: Seq<(String, V)>, k: Seq<char>)
    ensures
        assoc_map(s).contains_key(k) <==> exists|i: int| 0 <= i < s.len() && s[i].0@ == k,
    decreases s.len(),
{
    if s.len() > 0 {
        lemma_assoc_map_contains(s.drop_last(), k);
        if s.last().0@ == k {
            assert(s[s.len() - 1].0@ == k);
        } else if assoc_map(s).contains_key(k) {
            let i = choose|i: int| 0 <= i < s.drop_last().len() && s.drop_last()[i].0@ == k;
            assert(s[i].0@ == k);
        } else {
            assert forall|i: int| 0 <= i < s.len() implies s[i].0@ != k by {
                if i < s.len() - 1 {
                    assert(s.drop_last()[i].0@ == s[i].0@);
                }
            }
        }
    }
}

/// Under distinct keys, the entry that carries a key gives its value in the map.
pub proof fn lemma_assoc_map_get<V>(s: Seq<(String, V)>, i: int)
    requires
        distinct_keys(s),
        0 <= i < s.len(),
    ensures
        assoc_map(s).contains_key(s[i].0@),
        assoc_map(s)[s[i].0@] == s[i].1,
    decreases s.len(),
{
    if i == s.len() - 1 {
    } else {
        assert(s.drop_last()[i] == s[i]);
        lemma_assoc_map_get(s.drop_last(), i);
        assert(s.last().0@ != s[i].0@);
    }
}

/// Appending one entry inserts its binding.
pub proof fn lemma_assoc_map_push<V>(s: Seq<(String, V)>, p: (String, V))
    ensures
        assoc_map(s.push(p)) == assoc_map(s).insert(p.0@, p.1),
{
    assert(s.push(p).drop_last() =~= s);
    assert(s.push(p).last() == p);
}

/// Overwriting the entry that carries a key re-inserts that key.
pub proof fn lemma_assoc_map_update<V>(s: Seq<(String, V)>, i: int, p: (String, V))
    requires
        distinct_keys(s),
        0 <= i < s.len(),
        p.0@ == s[i].0@,
    ensures
        assoc_map(s.update(i, p)) == assoc_map(s).insert(p.0@, p.1),
    decreases s.len(),
{
    let t = s.update(i, p);
    if i == s.len() - 1 {
        assert(t.drop_last() =~= s.drop_last());
        assert(t.last() == p);
        assert(assoc_map(t) == assoc_map(s.drop_last()).insert(p.0@, p.1));
        assert(assoc_map(s.drop_last()).insert(s.last().0@, s.last().1).insert(p.0@, p.1)
            =~= assoc_map(s.drop_last()).insert(p.0@, p.1));
    } else {
        assert(t.drop_last() =~= s.drop_last().update(i, p));
        assert(s.drop_last()[i] == s[i]);
        lemma_assoc_map_update(s.drop_last(), i, p);
        assert(t.last() == s.last());
        assert(s.last().0@ != p.0@);
        assert(assoc_map(s.drop_last()).insert(p.0@, p.1).insert(s.last().0@, s.last().1)
            =~= assoc_map(s.drop_last()).insert(s.last().0@, s.last().1).insert(p.0@, p.1));
    }
}

/// Removing the entry that carries a key removes that key from the map.
pub proof fn lemma_assoc_map_remove<V>(s: Seq<(String, V)>, i: int)
    requires
        distinct_keys(s),
        0 <= i < s.len(),
    ensures
        assoc_map(s.remove(i)) == assoc_map(s).remove(s[i].0@),
    decreases s.len(),
{
    let k = s[i].0@;
    if i == s.len() - 1 {
        assert(s.remove(i) =~= s.drop_last());
        lemma_assoc_map_contains(s.drop_last(), k);
        assert forall|j: int| 0 <= j < s.drop_last().len() implies s.drop_last()[j].0@ != k by {
            assert(s.drop_last()[j] == s[j]);
        }
        assert(!assoc_map(s.drop_last()).contains_key(k));
        assert(assoc_map(s.drop_last()).insert(k, s.last().1).remove(k) =~= assoc_map(
            s.drop_last(),
        ));
    } else {
        let t = s.remove(i);
        assert(t.drop_last() =~= s.drop_last().remove(i));
        assert(t.last() == s.last());
        assert(s.drop_last()[i] == s[i]);
        lemma_assoc_map_remove(s.drop_last(), i);
        assert(s.last().0@ != k);
        assert(assoc_map(s.drop_last()).remove(k).insert(s.last().0@, s.last().1)
            =~= assoc_map(s.drop_last()).insert(s.last().0@, s.last().1).remove(k));
    }
}

/// A string-keyed map with exclusive-access insert, lookup and remove.
pub struct StrMap<V> {
    entries: Vec<(String, V)>,
}

impl<V> View for StrMap<V> {
    type V = Map<Seq<char>, V>;

    closed spec fn view(&self) -> Map<Seq<char>, V> {
        assoc_map(self.entries@)
    }
}

impl<V> StrMap<V> {
    /// Well-formedness: at most one entry per key. Constructors establish it
    /// and every method preserves it.
    pub closed spec fn wf(&self) -> bool {
        distinct_keys(self.entries@)
    }

    /// The empty map.
    pub fn new() -> (r: StrMap<V>)
        ensures
            r.wf(),
            r@ == Map::<Seq<char>, V>::empty(),
    {
        StrMap { entries: Vec::new() }
    }

    /// The position of the entry that carries `k`, if any.
    fn find_index(&self, k: &String) -> (r: Option<usize>)
        ensures
            match r {
                Some(i) => i < self.entries@.len() && self.entries@[i as int].0@ == k@,
                None => forall|i: int| 0 <= i < self.entries@.len() ==> self.entries@[i].0@ != k@,
            },
    {
        let n = self.entries.len();
        let mut i: usize = 0;
        while i < n
            invariant
                n == self.entries@.len(),
                i <= n,
                forall|j: int| 0 <= j < i ==> self.entries@[j].0@ != k@,
            decreases n - i,
        {
            if self.entries[i].0 == *k {
                return Some(i);
            }
            i = i + 1;
        }
        None
    }

    /// Whether a binding for `k` is present.
    pub fn contains_key(&self, k: &String) -> (r: bool)
        requires
            self.wf(),
        ensures
            r == self@.contains_key(k@),
    {
        proof {
            lemma_assoc_map_contains(self.entries@, k@);
        }
        self.find_index(k).is_some()
    }

    /// The value bound to `k`, if any.
    pub fn get(&self, k: &String) -> (r: Option<&V>)
        requires
            self.wf(),
        ensures
            match r {
                Some(v) => self@.contains_key(k@) && *v == self@[k@],
                None => !self@.contains_key(k@),
            },
    {
        proof {
            lemma_assoc_map_contains(self.entries@, k@);
        }
        match self.find_index(k) {
            Some(i) => {
                proof {
                    lemma_assoc_map_get(self.entries@, i as int);
                }
                Some(&self.entries[i].1)
            },
            None => None,
        }
    }

    /// Binds `k` to `v`, overriding any earlier binding.
    pub fn insert(&mut self, k: String, v: V)
        requires
            old(self).wf(),
        ensures
            final(self).wf(),
            final(self)@ == old(self)@.insert(k@, v),
    {
        match self.find_index(&k) {
            Some(i) => {
                proof {
                    lemma_assoc_map_update(self.entries@, i as int, (k, v));
                }
                self.entries.set(i, (k, v));
                proof {
                    assert forall|a: int, b: int|
                        0 <= a < b < self.entries@.len() implies self.entries@[a].0@
                        != self.entries@[b].0@ by {
                        assert(old(self).entries@[a].0@ != old(self).entries@[b].0@);
                    }
                }
            },
            None => {
                proof {
                    lemma_assoc_map_push(self.entries@, (k, v));
                }
                self.entries.push((k, v));
                proof {
                    assert forall|a: int, b: int|
                        0 <= a < b < self.entries@.len() implies self.entries@[a].0@
                        != self.entries@[b].0@ by {
                        if b < self.entries@.len() - 1 {
                            assert(old(self).entries@[a].0@ != old(self).entries@[b].0@);
                        }
                    }
                }
            },
        }
    }

    /// Hands the bindings out as an association list with distinct keys,
    /// denoting exactly this map.
    pub fn into_entries(self) -> (r: Vec<(String, V)>)
        requires
            self.wf(),
        ensures
            distinct_keys(r@),
            assoc_map(r@) == self@,
    {
        self.entries
    }

    /// Removes the binding for `k`, handing back its value if one was present.
    pub fn remove(&mut self, k: &String) -> (r: Option<V>)
        requires
            old(self).wf(),
        ensures
            final(self).wf(),
            final(self)@ == old(self)@.remove(k@),
            match r {
                Some(v) => old(self)@.contains_key(k@) && v == old(self)@[k@],
                None => !old(self)@.contains_key(k@),
            },
    {
        proof {
            lemma_assoc_map_contains(self.entries@, k@);
        }
        match self.find_index(k) {
            Some(i) => {
                proof {
                    lemma_assoc_map_get(self.entries@, i as int);
                    lemma_assoc_map_remove(self.entries@, i as int);
                }
                let p = self.entries.remove(i);
                proof {
                    assert forall|a: int, b: int|
                        0 <= a < b < self.entries@.len() implies self.entries@[a].0@
                        != self.entries@[b].0@ by {
                        let a0: int = if a < i { a } else { a + 1 };
                        let b0: int = if b < i { b } else { b + 1 };
                        assert(old(self).entries@[a0].0@ != old(self).entries@[b0].0@);
                    }
                }
                Some(p.1)
            },
            None => {
                proof {
                    assert(old(self)@.remove(k@) =~= old(self)@);
                }
                None
            },
        }
    }
}

} // verus!
