//! The offset table: for every allocation since the last `clear`, in order,
//! the position of its payload in the pool of its variant.

use vstd::prelude::*;
use crate::policy::{Generation, Index};

verus! {

/// Where a handle's payload lies, if the handle can be followed at all: its
/// stamp must be the current one and its logical offset must lie in the table.
pub open spec fn slot_of<I: Index, G>(offsets: Seq<I>, current: G, index: I, stamp: G) -> Option<
    usize,
> {
    if stamp == current && index.position() < offsets.len() {
        Some(offsets[index.position() as int].position())
    } else {
        None
    }
}

/// How an arena regards a handle, going by the handle's stamp and logical
/// offset alone.
#[derive(Clone, Copy, Debug, PartialEq, Eq, Hash, Structural)]
pub enum HandleState {
    /// The stamp is current and the offset lies in the table.
    Fresh,
    /// The stamp is not the current one.
    Stale,
    /// The stamp is current, but the table has no such offset.
    OutOfRange,
}

/// The state of a handle with logical offset `index` and stamp `stamp` in an
/// arena with table `offsets` and stamp `current`.
pub open spec fn state_of<I: Index, G>(
    offsets: Seq<I>,
    current: G,
    index: I,
    stamp: G,
) -> HandleState {
    if stamp != current {
        HandleState::Stale
    } else if index.position() >= offsets.len() {
        HandleState::OutOfRange
    } else {
        HandleState::Fresh
    }
}

/// A handle can be followed exactly when it is fresh.
pub proof fn lemma_followed_iff_fresh<I: Index, G>(offsets: Seq<I>, current: G, index: I, stamp: G)
    ensures
        slot_of(offsets, current, index, stamp) is Some <==> state_of(
            offsets,
            current,
            index,
            stamp,
        ) == HandleState::Fresh,
{
}

/// The offsets of one arena together with the arena's current stamp.
pub struct OffsetTable<I, G> {
    generation: G,
    offsets: Vec<I>,
}

impl<I, G> View for OffsetTable<I, G> {
    type V = Seq<I>;

    closed spec fn view(&self) -> Seq<I> {
        self.offsets@
    }
}

impl<I, G> OffsetTable<I, G> {
    /// The stamp that newly issued handles carry.
    pub closed spec fn generation(&self) -> G {
        self.generation
    }

    /// A table never holds more entries than a `usize` can count.
    pub proof fn lemma_len_bounded(&self)
        ensures
            self@.len() <= usize::MAX,
    {
        assert(self.offsets@.len() == self.offsets.len());
    }
}

impl<I: Index, G: Generation + Copy> OffsetTable<I, G> {
    /// An empty table that issues the stamp `generation`.
    pub fn new(generation: G) -> (table: Self)
        ensures
            table@ == Seq::<I>::empty(),
            table.generation() == generation,
    {
        OffsetTable { generation, offsets: Vec::new() }
    }

    /// The number of allocations on record.
    pub fn len(&self) -> (n: usize)
        ensures
            n == self@.len(),
    {
        self.offsets.len()
    }

    /// Records one more allocation, whose payload lies at `at` in its pool
    /// (zero for a variant without payload), and returns the logical offset
    /// and the stamp of its handle.
    pub fn push(&mut self, at: usize) -> (issued: (I, G))
        ensures
            final(self)@ == old(self)@.push(I::of_position(at)),
            final(self).generation() == old(self).generation(),
            issued.0 == I::of_position(old(self)@.len() as usize),
            issued.1 == old(self).generation(),
    {
        let index = I::from_usize(self.offsets.len());
        self.offsets.push(I::from_usize(at));
        (index, self.generation)
    }

    /// Follows a handle's logical offset to the position of its payload.
    pub fn resolve(&self, index: I, stamp: G) -> (found: Option<usize>)
        ensures
            found == slot_of(self@, self.generation(), index, stamp),
    {
        if !stamp.same(&self.generation) {
            return None;
        }
        let at = index.to_usize();
        if at < self.offsets.len() {
            Some(self.offsets[at].to_usize())
        } else {
            None
        }
    }

    /// Forgets every allocation and moves on to the next stamp.
    pub fn clear(&mut self)
        requires
            !old(self).generation().exhausted(),
        ensures
            final(self)@ == Seq::<I>::empty(),
            final(self).generation() == old(self).generation().successor(),
    {
        self.generation.add();
        self.offsets.clear();
    }
}

} // verus!
