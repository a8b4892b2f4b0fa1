//! Opaque handles with generations.
//!
//! A handle names a slot and the generation at which that slot was filled.
//! Destroying the object empties the slot; filling it again raises its
//! generation. So a handle that outlived its object, or one that was never
//! issued, is told apart from a live one and reported, instead of being
//! followed to freed memory.
use vstd::prelude::*;

verus! {

/// The value behind every opaque handle: a slot and a generation.
#[derive(Clone, Copy, PartialEq, Eq, Structural, Debug)]
pub struct HandleKey {
    pub index: u64,
    pub generation: u64,
}

struct Slot<T> {
    generation: u64,
    value: Option<T>,
}

/// A table of live objects, each reachable through the handle that its
/// insertion returned and through no other.
pub struct HandleRegistry<T> {
    slots: Vec<Slot<T>>,
}

impl<T> HandleRegistry<T> {
    /// `k` names an object that has not been removed.
    pub closed spec fn is_live(&self, k: HandleKey) -> bool {
        &&& k.index < self.slots@.len()
        &&& self.slots@[k.index as int].value is Some
        &&& self.slots@[k.index as int].generation == k.generation
    }

    /// The live objects, by handle.
    pub closed spec fn live(&self) -> Map<HandleKey, T> {
        Map::new(
            |k: HandleKey| self.is_live(k),
            |k: HandleKey| self.slots@[k.index as int].value->Some_0,
        )
    }

    /// Every handle that this registry has returned satisfies this; a handle
    /// that does not was never returned.
    pub closed spec fn issued(&self, k: HandleKey) -> bool {
        &&& k.index < self.slots@.len()
        &&& k.generation <= self.slots@[k.index as int].generation
    }

    /// `k` may have been returned, but its object is gone.
    pub open spec fn dead(&self, k: HandleKey) -> bool {
        self.issued(k) && !self.live().contains_key(k)
    }

    /// A live handle has been issued.
    pub proof fn lemma_live_issued(&self, k: HandleKey)
        ensures
            self.live().contains_key(k) ==> self.issued(k),
    {
    }

    /// An empty registry.
    pub fn new() -> (r: Self)
        ensures
            r.live() == Map::<HandleKey, T>::empty(),
            forall|k: HandleKey| !r.issued(k),
    {
        let r = HandleRegistry { slots: Vec::new() };
        assert(r.live() =~= Map::<HandleKey, T>::empty());
        r
    }

    /// Stores `v` and returns a handle that was never returned before.
    pub fn insert(&mut self, v: T) -> (k: HandleKey)
        ensures
            !old(self).issued(k),
            final(self).issued(k),
            final(self).live() == old(self).live().insert(k, v),
            forall|j: HandleKey| old(self).issued(j) ==> final(self).issued(j),
            forall|j: HandleKey| old(self).dead(j) ==> final(self).dead(j),
    {
        let n = self.slots.len();
        let mut i: usize = 0;
        while i < n
            invariant
                i <= n,
                n == self.slots@.len(),
                self.slots@ == old(self).slots@,
                forall|j: int|
                    0 <= j < i ==> (#[trigger] self.slots@[j]).value is Some
                        || self.slots@[j].generation == u64::MAX,
            decreases n - i,
        {
            if self.slots[i].value.is_none() && self.slots[i].generation < u64::MAX {
                let g = self.slots[i].generation + 1;
                let ghost pre = *self;
                self.slots.set(i, Slot { generation: g, value: Some(v) });
                let k = HandleKey { index: i as u64, generation: g };
                assert(self.live() =~= pre.live().insert(k, v));
                return k;
            }
            i += 1;
        }
        let ghost pre = *self;
        self.slots.push(Slot { generation: 0, value: Some(v) });
        let k = HandleKey { index: n as u64, generation: 0 };
        assert(self.live() =~= pre.live().insert(k, v));
        k
    }

    /// Whether `k` names a live object.
    pub fn contains(&self, k: HandleKey) -> (r: bool)
        ensures
            r == self.live().contains_key(k),
    {
        if k.index < self.slots.len() as u64 {
            let s = &self.slots[k.index as usize];
            s.generation == k.generation && s.value.is_some()
        } else {
            false
        }
    }

    /// The object that `k` names, if it is live.
    pub fn get(&self, k: HandleKey) -> (r: Option<&T>)
        ensures
            r is Some == self.live().contains_key(k),
            r is Some ==> *r->Some_0 == self.live()[k],
    {
        if k.index < self.slots.len() as u64 {
            let s = &self.slots[k.index as usize];
            if s.generation == k.generation {
                s.value.as_ref()
            } else {
                None
            }
        } else {
            None
        }
    }

    /// Takes the object that `k` names out of the registry. From then on
    /// `k` is dead, and a second removal finds nothing.
    pub fn remove(&mut self, k: HandleKey) -> (r: Option<T>)
        ensures
            r == (if old(self).live().contains_key(k) {
                Some(old(self).live()[k])
            } else {
                None::<T>
            }),
            final(self).live() == old(self).live().remove(k),
            forall|j: HandleKey| old(self).issued(j) == final(self).issued(j),
            forall|j: HandleKey| old(self).dead(j) ==> final(self).dead(j),
            old(self).issued(k) ==> final(self).dead(k),
    {
        if k.index < self.slots.len() as u64 {
            let idx = k.index as usize;
            if self.slots[idx].generation == k.generation && self.slots[idx].value.is_some() {
                let ghost pre = *self;
                let g = self.slots[idx].generation;
                let r = self.slots[idx].value.take();
                assert(self.slots@[idx as int].generation == g);
                assert(self.live() =~= pre.live().remove(k));
                return r;
            }
        }
        assert(self.live() =~= old(self).live().remove(k));
        None
    }
}

} // verus!
