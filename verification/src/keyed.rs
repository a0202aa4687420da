//! A map from string keys to values, held as a list of pairs.
use vstd::prelude::*;

verus! {

/// The map of a list of keyed values (later entries win).
pub open spec fn to_map<V>(t: Seq<(String, V)>) -> Map<Seq<char>, V>
    decreases t.len(),
{
    if t.len() == 0 {
        Map::empty()
    } else {
        to_map(t.drop_last()).insert(t.last().0@, t.last().1)
    }
}

/// No key occurs twice.
pub open spec fn keys_unique<V>(t: Seq<(String, V)>) -> bool {
    forall|i: int, j: int| 0 <= i < j < t.len() ==> t[i].0@ != t[j].0@
}

proof fn lemma_to_map_dom<V>(t: Seq<(String, V)>, k: Seq<char>)
    ensures
        to_map(t).dom().contains(k) <==> exists|i: int| 0 <= i < t.len() && t[i].0@ == k,
    decreases t.len(),
{
    if t.len() > 0 {
        lemma_to_map_dom(t.drop_last(), k);
        if to_map(t).dom().contains(k) && k != t.last().0@ {
            let i = choose|i: int| 0 <= i < t.len() - 1 && t.drop_last()[i].0@ == k;
            assert(t[i].0@ == k);
        }
        if exists|i: int| 0 <= i < t.len() && t[i].0@ == k {
            let i = choose|i: int| 0 <= i < t.len() && t[i].0@ == k;
            if i < t.len() - 1 {
                assert(t.drop_last()[i].0@ == k);
            }
        }
    }
}

proof fn lemma_to_map_at<V>(t: Seq<(String, V)>, i: int)
    requires
        keys_unique(t),
        0 <= i < t.len(),
    ensures
        to_map(t).dom().contains(t[i].0@),
        to_map(t)[t[i].0@] == t[i].1,
    decreases t.len(),
{
    if i < t.len() - 1 {
        lemma_to_map_at(t.drop_last(), i);
        assert(t.drop_last()[i] == t[i]);
    }
}

proof fn lemma_to_map_update<V>(t: Seq<(String, V)>, i: int, x: (String, V))
    requires
        keys_unique(t),
        0 <= i < t.len(),
        x.0@ == t[i].0@,
    ensures
        to_map(t.update(i, x)) == to_map(t).insert(x.0@, x.1),
    decreases t.len(),
{
    if i == t.len() - 1 {
        assert(t.update(i, x).drop_last() =~= t.drop_last());
    } else {
        lemma_to_map_update(t.drop_last(), i, x);
        assert(t.update(i, x).drop_last() =~= t.drop_last().update(i, x));
        assert(to_map(t.update(i, x)) =~= to_map(t).insert(x.0@, x.1));
    }
}

proof fn lemma_to_map_remove<V>(t: Seq<(String, V)>, i: int)
    requires
        keys_unique(t),
        0 <= i < t.len(),
    ensures
        to_map(t.remove(i)) == to_map(t).remove(t[i].0@),
    decreases t.len(),
{
    let k = t[i].0@;
    if i == t.len() - 1 {
        assert(t.remove(i) =~= t.drop_last());
        lemma_to_map_dom(t.drop_last(), k);
        assert(!to_map(t.drop_last()).dom().contains(k));
        assert(to_map(t.remove(i)) =~= to_map(t).remove(k));
    } else {
        lemma_to_map_remove(t.drop_last(), i);
        assert(t.remove(i).drop_last() =~= t.drop_last().remove(i));
        assert(t.remove(i).last() == t.last());
        assert(to_map(t.remove(i)) =~= to_map(t).remove(k));
    }
}

/// A map from string keys to values: each key names at most one value.
pub struct KeyedVec<V> {
    pub entries: Vec<(String, V)>,
}

impl<T> View for KeyedVec<T> {
    type V = Map<Seq<char>, T>;

    /// The map held.
    open spec fn view(&self) -> Map<Seq<char>, T> {
        to_map(self.entries@)
    }
}

impl<V> KeyedVec<V> {
    /// Each key occurs once.
    pub open spec fn wf(&self) -> bool {
        keys_unique(self.entries@)
    }

    /// The empty map.
    pub fn new() -> (m: Self)
        ensures
            m.wf(),
            m@ == Map::<Seq<char>, V>::empty(),
    {
        KeyedVec { entries: Vec::new() }
    }

    /// Where `key` is held.
    pub fn find(&self, key: &str) -> (r: Option<usize>)
        requires
            self.wf(),
        ensures
            r matches Some(i) ==> i < self.entries@.len() && self.entries@[i as int].0@ == key@
                && self@.dom().contains(key@) && self@[key@] == self.entries@[i as int].1,
            r is None ==> !self@.dom().contains(key@),
    {
        let mut i: usize = 0;
        while i < self.entries.len()
            invariant
                self.wf(),
                i <= self.entries@.len(),
                forall|k: int| 0 <= k < i ==> self.entries@[k].0@ != key@,
            decreases self.entries.len() - i,
        {
            if crate::text::str_eq(self.entries[i].0.as_str(), key) {
                proof {
                    lemma_to_map_at(self.entries@, i as int);
                }
                return Some(i);
            }
            i = i + 1;
        }
        proof {
            lemma_to_map_dom(self.entries@, key@);
        }
        None
    }

    /// The value under `key`, if any.
    pub fn get(&self, key: &str) -> (r: Option<&V>)
        requires
            self.wf(),
        ensures
            r is Some == self@.dom().contains(key@),
            r matches Some(v) ==> *v == self@[key@],
    {
        match self.find(key) {
            Some(i) => Some(&self.entries[i].1),
            None => None,
        }
    }

    /// Puts `value` under `key`, replacing any value already there.
    pub fn insert(&mut self, key: String, value: V)
        requires
            old(self).wf(),
        ensures
            final(self).wf(),
            final(self)@ == old(self)@.insert(key@, value),
    {
        let ghost k = key@;
        match self.find(key.as_str()) {
            Some(i) => {
                proof {
                    lemma_to_map_update(self.entries@, i as int, (key, value));
                }
                self.entries.set(i, (key, value));
                assert(keys_unique(self.entries@));
            },
            None => {
                proof {
                    lemma_to_map_dom(self.entries@, k);
                }
                self.entries.push((key, value));
                assert(self.entries@.drop_last() =~= old(self).entries@);
                assert forall|i: int, j: int| 0 <= i < j < self.entries@.len() implies self.entries@[i].0@
                    != self.entries@[j].0@ by {
                    if j == self.entries@.len() - 1 {
                        assert(old(self).entries@[i].0@ != k);
                    }
                }
            },
        }
    }

    /// Removes and returns the value under `key`, if any.
    pub fn remove(&mut self, key: &str) -> (r: Option<V>)
        requires
            old(self).wf(),
        ensures
            final(self).wf(),
            final(self)@ == old(self)@.remove(key@),
            r is Some == old(self)@.dom().contains(key@),
            r matches Some(v) ==> v == old(self)@[key@],
    {
        match self.find(key) {
            Some(i) => {
                proof {
                    lemma_to_map_remove(self.entries@, i as int);
                }
                let (_, v) = self.entries.remove(i);
                assert forall|a: int, b: int| 0 <= a < b < self.entries@.len() implies self.entries@[a].0@
                    != self.entries@[b].0@ by {
                    let ot = old(self).entries@;
                    let oa = if a < i { a } else { a + 1 };
                    let ob = if b < i { b } else { b + 1 };
                    assert(self.entries@[a] == ot[oa]);
                    assert(self.entries@[b] == ot[ob]);
                }
                Some(v)
            },
            None => {
                assert(old(self)@.remove(key@) =~= old(self)@);
                None
            },
        }
    }

    /// The number of keys held.
    pub fn len(&self) -> (n: usize)
        requires
            self.wf(),
        ensures
            n == self@.dom().len(),
    {
        proof {
            lemma_len(self.entries@);
        }
        self.entries.len()
    }

    /// The keys held, in insertion order.
    pub fn keys(&self) -> (ks: Vec<String>)
        requires
            self.wf(),
        ensures
            ks@.len() == self.entries@.len(),
            forall|i: int| 0 <= i < ks@.len() ==> #[trigger] ks@[i]@ == self.entries@[i].0@,
            forall|i: int| 0 <= i < ks@.len() ==> self@.dom().contains(#[trigger] ks@[i]@),
            forall|k: Seq<char>| #[trigger] self@.dom().contains(k) ==> exists|i: int| 0 <= i < ks@.len() && ks@[i]@ == k,
    {
        let mut ks: Vec<String> = Vec::new();
        let mut i: usize = 0;
        while i < self.entries.len()
            invariant
                self.wf(),
                i <= self.entries@.len(),
                ks@.len() == i,
                forall|j: int| 0 <= j < i ==> #[trigger] ks@[j]@ == self.entries@[j].0@,
            decreases self.entries.len() - i,
        {
            ks.push(self.entries[i].0.clone());
            i = i + 1;
        }
        assert forall|j: int| 0 <= j < ks@.len() implies self@.dom().contains(#[trigger] ks@[j]@) by {
            lemma_to_map_at(self.entries@, j);
        }
        assert forall|k: Seq<char>| #[trigger] self@.dom().contains(k) implies exists|j: int| 0 <= j < ks@.len() && ks@[j]@ == k by {
            lemma_to_map_dom(self.entries@, k);
            let j = choose|j: int| 0 <= j < self.entries@.len() && self.entries@[j].0@ == k;
            assert(ks@[j]@ == k);
        }
        ks
    }
}

proof fn lemma_len<V>(t: Seq<(String, V)>)
    requires
        keys_unique(t),
    ensures
        to_map(t).dom().finite(),
        to_map(t).dom().len() == t.len(),
    decreases t.len(),
{
    if t.len() > 0 {
        let s = t.drop_last();
        assert(keys_unique(s));
        lemma_len(s);
        lemma_to_map_dom(s, t.last().0@);
        assert(!to_map(s).dom().contains(t.last().0@)) by {
            if to_map(s).dom().contains(t.last().0@) {
                let i = choose|i: int| 0 <= i < s.len() && s[i].0@ == t.last().0@;
                assert(t[i].0@ == t[t.len() - 1].0@);
            }
        }
        assert(to_map(t).dom() =~= to_map(s).dom().insert(t.last().0@));
    }
}

} // verus!
