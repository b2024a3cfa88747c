//! A registry of Lua callbacks under unique numeric ids.
use vstd::prelude::*;
use vstd::std_specs::hash::spec_keys_iter;
use vstd::std_specs::iter::IteratorSpec;
use std::collections::HashMap;
use mlua::{Error, Function, Lua, RegistryKey};
use crate::lua::{function_of_runtime, load_from_registry, store_in_registry};

verus! {

broadcast use vstd::std_specs::hash::group_hash_axioms;

/// Registry for Lua function callbacks with numeric ids.
pub struct CallbackRegistry {
    next_id: u64,
    callbacks: HashMap<u64, RegistryKey>,
    /// The function handed to the runtime's registry under each stored id.
    registered: Ghost<Map<u64, Function>>,
}

impl CallbackRegistry {
    /// The id the next registration receives.
    pub closed spec fn upcoming_id(&self) -> u64 {
        self.next_id
    }

    /// The stored registry keys by id.
    pub closed spec fn keys(&self) -> Map<u64, RegistryKey> {
        self.callbacks@
    }

    /// The function registered under each stored id.
    pub closed spec fn stored(&self) -> Map<u64, Function> {
        self.registered@
    }

    /// Every stored id is below the next id, which is at least one, and has
    /// its registered function.
    pub closed spec fn wf(&self) -> bool {
        &&& self.next_id >= 1
        &&& self.registered@.dom() == self.callbacks@.dom()
        &&& forall|id: u64| #[trigger] self.callbacks@.contains_key(id) ==> 1 <= id < self.next_id
    }

    /// The id the next registration hands out is not in use.
    pub proof fn lemma_fresh_id(&self)
        requires
            self.wf(),
        ensures
            !self.keys().contains_key(self.upcoming_id()),
    {
    }

    /// The id the next registration receives.
    pub fn next_id(&self) -> (r: u64)
        ensures
            r == self.upcoming_id(),
    {
        self.next_id
    }

    /// An empty registry whose first id is 1.
    pub fn new() -> (r: Self)
        ensures
            r.wf(),
            r.upcoming_id() == 1,
            r.keys() == Map::<u64, RegistryKey>::empty(),
            r.stored() == Map::<u64, Function>::empty(),
    {
        CallbackRegistry { next_id: 1, callbacks: HashMap::new(), registered: Ghost(Map::empty()) }
    }

    /// Store `func` in the runtime's registry and record it under a fresh id.
    /// The id is used up even when the runtime refuses to store the function.
    pub fn register(&mut self, lua: &Lua, func: Function) -> (r: Result<u64, Error>)
        requires
            old(self).wf(),
            old(self).upcoming_id() < u64::MAX,
            function_of_runtime(func, *lua),
        ensures
            final(self).wf(),
            final(self).upcoming_id() == old(self).upcoming_id() + 1,
            match r {
                Ok(id) => id == old(self).upcoming_id() && final(self).keys().dom()
                    == old(self).keys().dom().insert(id) && forall|k: u64| k != id
                    ==> #[trigger] final(self).keys().contains_key(k) ==> final(self).keys()[k]
                    == old(self).keys()[k],
                Err(_) => final(self).keys() == old(self).keys(),
            },
            r matches Ok(id) ==> final(self).stored() == old(self).stored().insert(id, func),
            r is Err ==> final(self).stored() == old(self).stored(),
    {
        let id = self.next_id;
        self.next_id = self.next_id + 1;
        let (stored, record) = store_in_registry(lua, func);
        match stored {
            Ok(key) => {
                self.callbacks.insert(id, key);
                self.registered = Ghost(self.registered@.insert(id, record@));
                Ok(id)
            },
            Err(e) => Err(e),
        }
    }

    /// Remove the callback stored under `id` and return its registry key.
    pub fn unregister(&mut self, id: u64) -> (r: Option<RegistryKey>)
        requires
            old(self).wf(),
        ensures
            final(self).wf(),
            final(self).upcoming_id() == old(self).upcoming_id(),
            final(self).keys() == old(self).keys().remove(id),
            final(self).stored() == old(self).stored().remove(id),
            match r {
                Some(key) => old(self).keys().contains_key(id) && key == old(self).keys()[id],
                None => !old(self).keys().contains_key(id),
            },
    {
        self.registered = Ghost(self.registered@.remove(id));
        self.callbacks.remove(&id)
    }

    /// Whether a callback is stored under `id`.
    pub fn contains(&self, id: u64) -> (r: bool)
        ensures
            r == self.keys().contains_key(id),
    {
        self.callbacks.contains_key(&id)
    }

    /// Number of stored callbacks.
    pub fn len(&self) -> (r: usize)
        ensures
            r == self.keys().len(),
    {
        self.callbacks.len()
    }

    /// Read the function stored under `id` back from the runtime's registry;
    /// `Ok(None)` when no callback has that id. The second part of the result
    /// records, as a ghost value, the registry key that was read: the one
    /// stored under `id`.
    pub fn get(&self, lua: &Lua, id: u64) -> (r: (Result<Option<Function>, Error>, Ghost<Option<RegistryKey>>))
        ensures
            !self.keys().contains_key(id) ==> r.0 == Ok::<Option<Function>, Error>(None) && r.1@ is None,
            self.keys().contains_key(id) ==> !(r.0 matches Ok(None)) && r.1@ == Some(self.keys()[id]),
            r.0 matches Ok(Some(f)) ==> function_of_runtime(f, *lua),
    {
        match self.callbacks.get(&id) {
            Some(key) => {
                let (loaded, read) = load_from_registry(lua, key);
                let record = Ghost(Some(read@));
                match loaded {
                    Ok(func) => (Ok(Some(func)), record),
                    Err(e) => (Err(e), record),
                }
            },
            None => (Ok(None), Ghost(None)),
        }
    }

    /// Remove every callback and return their registry keys; the ids handed
    /// out so far are not reused.
    pub fn clear(&mut self) -> (r: Vec<RegistryKey>)
        requires
            old(self).wf(),
        ensures
            final(self).wf(),
            final(self).upcoming_id() == old(self).upcoming_id(),
            final(self).keys() == Map::<u64, RegistryKey>::empty(),
            final(self).stored() == Map::<u64, Function>::empty(),
            r@.len() == old(self).keys().len(),
            forall|i: int| 0 <= i < r@.len() ==> old(self).keys().values().contains(#[trigger] r@[i]),
    {
        let ghost old_keys = self.callbacks@;
        let mut ids: Vec<u64> = Vec::new();
        for id in it: self.callbacks.keys()
            invariant
                ids@ == it.seq().take(it.index() as int).unref(),
        {
            ids.push(*id);
            assert(it.seq().take(it.index() as int + 1).unref() =~= ids@);
        }
        assert(ids@ =~= spec_keys_iter(&self.callbacks).remaining().unref());
        let mut out: Vec<RegistryKey> = Vec::new();
        let mut k: usize = 0;
        while k < ids.len()
            invariant
                k <= ids@.len(),
                ids@.to_set() == old_keys.dom(),
                ids@.no_duplicates(),
                ids@.len() == old_keys.dom().len(),
                out@.len() == k,
                self.callbacks@ == old_keys.remove_keys(ids@.take(k as int).to_set()),
                self.next_id == old(self).next_id,
                old_keys == old(self).callbacks@,
                forall|i: int| 0 <= i < out@.len() ==> old_keys.values().contains(#[trigger] out@[i]),
            decreases ids@.len() - k,
        {
            let id = ids[k];
            proof {
                assert(ids@.to_set().contains(id));
                if ids@.take(k as int).to_set().contains(id) {
                    let j = choose|j: int| 0 <= j < k && ids@.take(k as int)[j] == id;
                    assert(ids@[j] == ids@[k as int]);
                }
                let a = ids@.take(k as int + 1);
                let b = ids@.take(k as int);
                assert forall|x: u64| a.to_set().contains(x) <==> b.to_set().insert(id).contains(x) by {
                    if a.to_set().contains(x) {
                        let j = choose|j: int| 0 <= j < a.len() && a[j] == x;
                        if j < k {
                            assert(b[j] == x);
                        }
                    }
                    if b.to_set().contains(x) {
                        let j = choose|j: int| 0 <= j < b.len() && b[j] == x;
                        assert(a[j] == x);
                    }
                    if x == id {
                        assert(a[k as int] == x);
                    }
                }
                assert(a.to_set() =~= b.to_set().insert(id));
            }
            match self.callbacks.remove(&id) {
                Some(key) => {
                    assert(old_keys.contains_key(id) && old_keys[id] == key);
                    assert(old_keys.values().contains(key));
                    out.push(key);
                },
                None => {
                    assert(false);
                },
            }
            assert(self.callbacks@ =~= old_keys.remove_keys(ids@.take(k as int + 1).to_set()));
            k = k + 1;
        }
        assert(ids@.take(k as int) =~= ids@);
        assert(self.callbacks@ =~= Map::<u64, RegistryKey>::empty());
        self.registered = Ghost(Map::empty());
        assert(self.registered@.dom() =~= self.callbacks@.dom());
        proof { ids@.unique_seq_to_set(); }
        out
    }
}

impl Default for CallbackRegistry {
    fn default() -> (r: Self)
        ensures
            r.wf(),
            r.upcoming_id() == 1,
            r.keys() == Map::<u64, RegistryKey>::empty(),
            r.stored() == Map::<u64, Function>::empty(),
    {
        Self::new()
    }
}

} // verus!
