//! The connection registry: assigns identifiers to accepted connections and
//! stores a handle for each.
//!
//! The registry is generic in the handle it stores: the transport hands in
//! whatever capability it uses to reach a connection, and the registry only
//! promises to hand the very same value back. Identifiers count up from zero
//! and are never reused while the process runs, even after an unregister.

use crate::assoc::{
    distinct_keys, lemma_pairs_to_map_contains, lemma_pairs_to_map_index, lemma_pairs_to_map_push,
    lemma_pairs_to_map_remove, pairs_to_map,
};
use vstd::prelude::*;

verus! {

/// Maps a connection identifier to the handle registered for it.
pub struct ConnectionRegistry<T> {
    entries: Vec<(u32, T)>,
    next_id: u32,
}

impl<T> View for ConnectionRegistry<T> {
    type V = Map<u32, T>;

    closed spec fn view(&self) -> Map<u32, T> {
        pairs_to_map(self.entries@)
    }
}

impl<T> ConnectionRegistry<T> {
    /// The identifier the next registration will take.
    pub closed spec fn spec_next_id(&self) -> u32 {
        self.next_id
    }

    /// Identifiers of distinct entries differ and all sit below `next_id`,
    /// so a fresh registration can never collide with a stored one.
    pub closed spec fn wf(&self) -> bool {
        &&& distinct_keys(self.entries@)
        &&& forall|i: int| 0 <= i < self.entries@.len() ==> self.entries@[i].0 < self.next_id
    }

    /// An empty registry; identifiers start at zero.
    pub fn new() -> (r: Self)
        ensures
            r.wf(),
            r@ == Map::<u32, T>::empty(),
            r.spec_next_id() == 0,
    {
        ConnectionRegistry { entries: Vec::new(), next_id: 0 }
    }

    /// The identifier the next registration will take; registering is only
    /// possible while this has not reached the identifier space's end.
    pub fn next_connection_id(&self) -> (n: u32)
        ensures
            n == self.spec_next_id(),
    {
        self.next_id
    }

    /// Store `handle` under the next unused identifier and return it.
    pub fn register(&mut self, handle: T) -> (id: u32)
        requires
            old(self).wf(),
            old(self).spec_next_id() < u32::MAX,
        ensures
            final(self).wf(),
            id == old(self).spec_next_id(),
            !old(self)@.contains_key(id),
            final(self)@ == old(self)@.insert(id, handle),
            final(self).spec_next_id() == old(self).spec_next_id() + 1,
    {
        let ghost h = handle;
        let ghost pre = self.entries@;
        let id = self.next_id;
        self.entries.push((id, handle));
        self.next_id = self.next_id + 1;
        proof {
            assert(self.entries@ =~= pre.push((id, h)));
            lemma_pairs_to_map_push(pre, id, h);
            lemma_pairs_to_map_contains(pre, id);
        }
        id
    }

    /// Whether `id` is registered.
    pub fn contains_connection(&self, id: u32) -> (b: bool)
        ensures
            b == self@.contains_key(id),
    {
        let n = self.entries.len();
        let mut i: usize = 0;
        while i < n
            invariant
                n == self.entries@.len(),
                i <= n,
                forall|j: int| 0 <= j < i ==> self.entries@[j].0 != id,
            decreases n - i,
        {
            if self.entries[i].0 == id {
                proof {
                    lemma_pairs_to_map_contains(self.entries@, id);
                }
                return true;
            }
            i = i + 1;
        }
        proof {
            lemma_pairs_to_map_contains(self.entries@, id);
        }
        false
    }

    /// The handle registered for `id`, if the connection is still registered.
    pub fn get(&self, id: u32) -> (r: Option<&T>)
        requires
            self.wf(),
        ensures
            match r {
                Some(h) => self@.contains_key(id) && *h == self@[id],
                None => !self@.contains_key(id),
            },
    {
        let n = self.entries.len();
        let mut i: usize = 0;
        while i < n
            invariant
                self.wf(),
                n == self.entries@.len(),
                i <= n,
                forall|j: int| 0 <= j < i ==> self.entries@[j].0 != id,
            decreases n - i,
        {
            if self.entries[i].0 == id {
                proof {
                    lemma_pairs_to_map_index(self.entries@, i as int);
                }
                return Some(&self.entries[i].1);
            }
            i = i + 1;
        }
        proof {
            lemma_pairs_to_map_contains(self.entries@, id);
        }
        None
    }

    /// Drop the entry for `id` and hand its handle back; the identifier
    /// stays used up. Removing an unknown identifier changes nothing.
    pub fn unregister(&mut self, id: u32) -> (r: Option<T>)
        requires
            old(self).wf(),
        ensures
            final(self).wf(),
            final(self)@ == old(self)@.remove(id),
            final(self).spec_next_id() == old(self).spec_next_id(),
            match r {
                Some(h) => old(self)@.contains_key(id) && h == old(self)@[id],
                None => !old(self)@.contains_key(id),
            },
    {
        proof {
            lemma_pairs_to_map_contains(self.entries@, id);
        }
        let n = self.entries.len();
        let mut i: usize = 0;
        while i < n
            invariant
                old(self) == self,
                old(self).wf(),
                n == self.entries@.len(),
                i <= n,
                forall|j: int| 0 <= j < i ==> self.entries@[j].0 != id,
            decreases n - i,
        {
            if self.entries[i].0 == id {
                proof {
                    lemma_pairs_to_map_index(self.entries@, i as int);
                    lemma_pairs_to_map_remove(self.entries@, i as int);
                }
                let pair = self.entries.remove(i);
                return Some(pair.1);
            }
            i = i + 1;
        }
        proof {
            lemma_pairs_to_map_contains(self.entries@, id);
            assert(old(self)@.remove(id) =~= old(self)@);
        }
        None
    }
}

} // verus!
