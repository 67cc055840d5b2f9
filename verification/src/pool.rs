//! The storage of one payload-carrying variant: an append-only sequence of
//! payloads, addressed by position.

use vstd::prelude::*;

verus! {

/// The payloads of one variant, in the order in which they were allocated.
pub struct Pool<T> {
    items: Vec<T>,
}

impl<T> View for Pool<T> {
    type V = Seq<T>;

    closed spec fn view(&self) -> Seq<T> {
        self.items@
    }
}

impl<T> Pool<T> {
    /// An empty pool.
    pub fn new() -> (pool: Self)
        ensures
            pool@ == Seq::<T>::empty(),
    {
        Pool { items: Vec::new() }
    }

    /// The number of payloads in the pool.
    pub fn len(&self) -> (n: usize)
        ensures
            n == self@.len(),
    {
        self.items.len()
    }

    /// Appends `value` and returns the position it now occupies.
    pub fn push(&mut self, value: T) -> (at: usize)
        ensures
            at == old(self)@.len(),
            final(self)@ == old(self)@.push(value),
    {
        let at = self.items.len();
        self.items.push(value);
        at
    }

    /// The payload at `at`, or `None` where the pool is not that long.
    pub fn get(&self, at: usize) -> (slot: Option<&T>)
        ensures
            slot == if at < self@.len() {
                Some(&self@[at as int])
            } else {
                None
            },
    {
        if at < self.items.len() {
            Some(&self.items[at])
        } else {
            None
        }
    }

    /// Exclusive access to the payload at `at`. What the caller leaves in the
    /// slot is what the pool holds there afterwards; nothing else changes.
    pub fn get_mut(&mut self, at: usize) -> (slot: Option<&mut T>)
        ensures
            match slot {
                Some(payload) => {
                    &&& at < old(self)@.len()
                    &&& *payload == old(self)@[at as int]
                    &&& final(self)@ == old(self)@.update(at as int, *final(payload))
                },
                None => at >= old(self)@.len() && final(self)@ == old(self)@,
            },
    {
        if at < self.items.len() {
            Some(&mut self.items[at])
        } else {
            None
        }
    }

    /// Overwrites the payload at `at`. A position past the end is refused and
    /// the pool stays as it was.
    pub fn set(&mut self, at: usize, value: T) -> (stored: bool)
        ensures
            stored == (at < old(self)@.len()),
            final(self)@ == if stored {
                old(self)@.update(at as int, value)
            } else {
                old(self)@
            },
    {
        if at < self.items.len() {
            self.items[at] = value;
            true
        } else {
            false
        }
    }

    /// Drops every payload.
    pub fn clear(&mut self)
        ensures
            final(self)@ == Seq::<T>::empty(),
    {
        self.items.clear();
    }
}

} // verus!
