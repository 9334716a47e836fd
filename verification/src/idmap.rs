//! Maps keyed by the `u64` ids this crate hands out.

use std::collections::HashMap;

use vstd::prelude::*;

verus! {

broadcast use vstd::std_specs::hash::group_hash_axioms;

/// A map keyed by an id. Contracts speak of what its values stand for.
pub struct IdMap<V> {
    map: HashMap<u64, V>,
}

/// What the values of a map stand for.
spec fn viewed<V: View>(map: Map<u64, V>) -> Map<u64, V::V> {
    Map::new(|id: u64| map.contains_key(id), |id: u64| map[id]@)
}

impl<V: View> View for IdMap<V> {
    type V = Map<u64, V::V>;

    closed spec fn view(&self) -> Map<u64, V::V> {
        viewed(self.map@)
    }
}

impl<V: View> IdMap<V> {
    /// No entries.
    pub fn new() -> (map: Self)
        ensures
            map@ == Map::<u64, V::V>::empty(),
    {
        let map = IdMap { map: HashMap::new() };
        assert(map@ =~= Map::<u64, V::V>::empty());
        map
    }

    /// Puts `value` under `id`.
    pub fn insert(&mut self, id: u64, value: V)
        ensures
            final(self)@ == old(self)@.insert(id, value@),
    {
        let ghost before = self.map@;
        self.map.insert(id, value);
        assert(viewed(self.map@) =~= viewed(before).insert(id, value@));
    }

    /// Takes the value under `id` out.
    pub fn remove(&mut self, id: u64) -> (value: Option<V>)
        ensures
            final(self)@ == old(self)@.remove(id),
            match value {
                Some(value) => old(self)@.contains_key(id) && value@ == old(self)@[id],
                None => !old(self)@.contains_key(id),
            },
    {
        let ghost before = self.map@;
        let value = self.map.remove(&id);
        assert(viewed(self.map@) =~= viewed(before).remove(id));
        value
    }

    /// The value under `id`.
    pub fn get(&self, id: u64) -> (value: Option<&V>)
        ensures
            match value {
                Some(value) => self@.contains_key(id) && value@ == self@[id],
                None => !self@.contains_key(id),
            },
    {
        self.map.get(&id)
    }

    /// How many entries there are.
    pub fn len(&self) -> (len: usize)
        ensures
            len == self@.dom().len(),
    {
        assert(viewed(self.map@).dom() =~= self.map@.dom());
        self.map.len()
    }

    /// The ids, in no particular order.
    pub fn ids(&self) -> (ids: Vec<u64>)
        ensures
            ids@.no_duplicates(),
            forall|id: u64| #[trigger] ids@.contains(id) <==> self@.contains_key(id),
            ids@.len() == self@.dom().len(),
    {
        let ghost keys = vstd::std_specs::iter::IteratorSpec::remaining(
            &vstd::std_specs::hash::spec_keys_iter(&self.map),
        );
        let mut ids: Vec<u64> = Vec::new();
        for id in iter: self.map.keys()
            invariant
                iter.seq() == keys,
                ids@.len() == iter.index(),
                forall|i: int| 0 <= i < ids@.len() ==> ids@[i] == *keys[i],
        {
            ids.push(*id);
        }
        proof {
            assert(ids@ =~= keys.unref());
            assert(keys.unref().to_set() == self.map@.dom());
            assert(viewed(self.map@).dom() =~= self.map@.dom());
            assert forall|id: u64| #[trigger] ids@.contains(id) <==> self@.contains_key(id) by {
                assert(ids@.contains(id) <==> ids@.to_set().contains(id));
            }
        }
        ids
    }
}

} // verus!
