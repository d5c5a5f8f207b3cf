//! A byte-keyed key-value store, the storage capability both registry tables
//! are built on. It is an append-only journal: `set` appends an entry, and
//! the most recent entry for a key is authoritative. Its abstract content is
//! the map built by replaying the journal from oldest to newest.

use vstd::prelude::*;
use crate::bytes::bytes_eq;

verus! {

pub struct KvStore<V> {
    entries: Vec<(Vec<u8>, V)>,
}

/// The map a journal denotes: later entries override earlier ones.
spec fn map_of<V: DeepView>(s: Seq<(Vec<u8>, V)>) -> Map<Seq<u8>, V::V>
    decreases s.len(),
{
    if s.len() == 0 {
        Map::empty()
    } else {
        map_of(s.drop_last()).insert(s.last().0@, s.last().1.deep_view())
    }
}

impl<V: DeepView> View for KvStore<V> {
    type V = Map<Seq<u8>, V::V>;

    closed spec fn view(&self) -> Map<Seq<u8>, V::V> {
        map_of(self.entries@)
    }
}

proof fn lemma_map_of_absent<V: DeepView>(s: Seq<(Vec<u8>, V)>, key: Seq<u8>)
    requires
        forall|i: int| 0 <= i < s.len() ==> s[i].0@ != key,
    ensures
        !map_of(s).contains_key(key),
    decreases s.len(),
{
    if s.len() > 0 {
        assert forall|i: int| 0 <= i < s.drop_last().len() implies s.drop_last()[i].0@ != key by {
            assert(s.drop_last()[i] == s[i]);
        }
        lemma_map_of_absent(s.drop_last(), key);
        assert(s.last() == s[s.len() - 1]);
    }
}

proof fn lemma_map_of_found<V: DeepView>(s: Seq<(Vec<u8>, V)>, i: int, key: Seq<u8>)
    requires
        0 <= i < s.len(),
        s[i].0@ == key,
        forall|j: int| i < j < s.len() ==> s[j].0@ != key,
    ensures
        map_of(s).contains_key(key),
        map_of(s)[key] == s[i].1.deep_view(),
    decreases s.len(),
{
    if i == s.len() - 1 {
        assert(s.last() == s[i]);
    } else {
        assert(s.drop_last()[i] == s[i]);
        assert forall|j: int| i < j < s.drop_last().len() implies s.drop_last()[j].0@ != key by {
            assert(s.drop_last()[j] == s[j]);
        }
        lemma_map_of_found(s.drop_last(), i, key);
        assert(s.last() == s[s.len() - 1]);
    }
}

impl<V: DeepView> KvStore<V> {
    /// The empty store.
    pub fn new() -> (r: Self)
        ensures
            r@ == Map::<Seq<u8>, V::V>::empty(),
    {
        let r = KvStore { entries: Vec::new() };
        proof {
            assert(r.entries@.len() == 0);
        }
        r
    }

    /// Unconditional upsert: afterwards the key denotes `value`, and every
    /// other key denotes what it did before.
    pub fn set(&mut self, key: Vec<u8>, value: V)
        ensures
            final(self)@ == old(self)@.insert(key@, value.deep_view()),
    {
        self.entries.push((key, value));
        proof {
            assert(self.entries@.drop_last() =~= old(self).entries@);
        }
    }

    /// Looks the key up; `None` exactly where the key denotes nothing.
    pub fn get<'a>(&'a self, key: &Vec<u8>) -> (r: Option<&'a V>)
        ensures
            match r {
                Some(v) => self@.contains_key(key@) && v.deep_view() == self@[key@],
                None => !self@.contains_key(key@),
            },
    {
        let mut i: usize = self.entries.len();
        while i > 0
            invariant
                i <= self.entries@.len(),
                forall|j: int| i <= j < self.entries@.len() ==> self.entries@[j].0@ != key@,
            decreases i,
        {
            i -= 1;
            if bytes_eq(&self.entries[i].0, key) {
                proof {
                    lemma_map_of_found(self.entries@, i as int, key@);
                }
                return Some(&self.entries[i].1);
            }
        }
        proof {
            lemma_map_of_absent(self.entries@, key@);
        }
        None
    }
}

} // verus!
