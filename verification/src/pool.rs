//! A pool of values under stable integer keys.
//!
//! Each value lives in a box of its own, so it stays where it is for as long
//! as it is in the pool, whatever is inserted or removed around it. A key that
//! was released is handed out again before the pool grows.

use vstd::prelude::*;

verus! {

pub struct Pool<T> {
    slots: Vec<Option<Box<T>>>,
    free: Vec<usize>,
    live: usize,
    keys: Ghost<Set<usize>>,
}

impl<T> Pool<T> {
    /// The values in the pool, by key.
    pub closed spec fn view(&self) -> Map<usize, T> {
        Map::new(
            |key: usize| self.keys@.contains(key),
            |key: usize| *self.slots@[key as int]->Some_0,
        )
    }

    /// The released keys are vacant and listed once, and the count of live
    /// values is the number of keys in use.
    pub closed spec fn wf(&self) -> bool {
        &&& forall|i: int|
            0 <= i < self.free@.len() ==> (#[trigger] self.free@[i] as int) < self.slots@.len()
                && self.slots@[self.free@[i] as int] is None
        &&& forall|i: int, j: int|
            0 <= i < j < self.free@.len() ==> self.free@[i] != self.free@[j]
        &&& forall|key: usize|
            self.keys@.contains(key) <==> (key as int) < self.slots@.len()
                && self.slots@[key as int] is Some
        &&& self.live + self.free.len() == self.slots.len()
        &&& self.keys@.finite()
        &&& self.live == self.keys@.len()
    }

    /// The key that the next insertion will use.
    pub closed spec fn spec_next_key(&self) -> usize {
        if self.free@.len() > 0 {
            self.free@.last()
        } else {
            self.slots@.len() as usize
        }
    }

    /// The next key is not in use.
    pub proof fn next_key_is_vacant(&self)
        requires
            self.wf(),
        ensures
            !self@.contains_key(self.spec_next_key()),
    {
    }

    pub fn new() -> (pool: Self)
        ensures
            pool.wf(),
            pool@ == Map::<usize, T>::empty(),
    {
        let pool = Pool { slots: Vec::new(), free: Vec::new(), live: 0, keys: Ghost(Set::empty()) };
        pool
    }

    /// Whether no key is in use.
    pub fn is_empty(&self) -> (empty: bool)
        requires
            self.wf(),
        ensures
            empty <==> self@ == Map::<usize, T>::empty(),
            empty <==> forall|key: usize| !self@.contains_key(key),
    {
        proof {
            assert(self@.dom() =~= self.keys@);
            if self.live == 0 {
                assert(self@ =~= Map::<usize, T>::empty());
            } else if forall|key: usize| !self@.contains_key(key) {
                assert(self.keys@ =~= Set::<usize>::empty());
            }
        }
        self.live == 0
    }

    /// The number of keys in use.
    pub fn len(&self) -> (count: usize)
        requires
            self.wf(),
        ensures
            count == self@.dom().len(),
    {
        proof {
            assert(self@.dom() =~= self.keys@);
        }
        self.live
    }

    /// The key that the next insertion will use, so that it can be written
    /// into the value before the value goes in.
    pub fn next_key(&self) -> (key: usize)
        requires
            self.wf(),
        ensures
            key == self.spec_next_key(),
            !self@.contains_key(key),
    {
        let n = self.free.len();
        if n > 0 {
            self.free[n - 1]
        } else {
            self.slots.len()
        }
    }

    /// Puts `value` under the next key and returns that key. Nothing else in
    /// the pool changes.
    pub fn insert(&mut self, value: T) -> (key: usize)
        requires
            old(self).wf(),
        ensures
            final(self).wf(),
            key == old(self).spec_next_key(),
            !old(self)@.contains_key(key),
            final(self)@ == old(self)@.insert(key, value),
    {
        let key = match self.free.pop() {
            Some(key) => {
                self.slots[key] = Some(Box::new(value));
                key
            },
            None => {
                self.slots.push(Some(Box::new(value)));
                self.slots.len() - 1
            },
        };
        self.live = self.live + 1;
        proof {
            self.keys@ = self.keys@.insert(key);
        }
        key
    }

    /// Whether `key` is in use.
    pub fn contains(&self, key: usize) -> (present: bool)
        requires
            self.wf(),
        ensures
            present == self@.contains_key(key),
    {
        key < self.slots.len() && self.slots[key].is_some()
    }

    /// The value under `key`.
    pub fn get(&self, key: usize) -> (value: &T)
        requires
            self.wf(),
            self@.contains_key(key),
        ensures
            *value == self@[key],
    {
        match &self.slots[key] {
            Some(value) => &**value,
            None => unreached(),
        }
    }

    /// The value under `key`, to change in place. It keeps its key, and
    /// nothing else in the pool changes.
    pub fn get_mut(&mut self, key: usize) -> (value: &mut T)
        requires
            old(self).wf(),
            old(self)@.contains_key(key),
        ensures
            *value == old(self)@[key],
            final(self).wf(),
            final(self)@ == old(self)@.insert(key, *final(value)),
            final(self).spec_next_key() == old(self).spec_next_key(),
    {
        match &mut self.slots[key] {
            Some(value) => &mut **value,
            None => unreached(),
        }
    }

    /// Takes the value under `key` out of the pool and frees the key. A key
    /// that is not in use is refused: the pool stays as it is.
    pub fn remove(&mut self, key: usize) -> (value: Option<T>)
        requires
            old(self).wf(),
        ensures
            final(self).wf(),
            old(self)@.contains_key(key) ==> value == Some(old(self)@[key]) && final(self)@
                == old(self)@.remove(key),
            !old(self)@.contains_key(key) ==> value is None && *final(self) == *old(self),
            value is Some <==> old(self)@.contains_key(key),
    {
        if key >= self.slots.len() || self.slots[key].is_none() {
            return None;
        }
        proof {
            assert(self.keys@.remove(key).len() + 1 == self.keys@.len());
        }
        let value = self.slots[key].take();
        self.free.push(key);
        self.live = self.live - 1;
        proof {
            self.keys@ = self.keys@.remove(key);
        }
        match value {
            Some(value) => Some(*value),
            None => None,
        }
    }
}

} // verus!
