//! What an arena holds, as mathematics, whatever sum type it stores: the
//! current stamp, the offset table, and one pool per variant. The contracts of
//! every arena speak of this model.

use vstd::prelude::*;
use crate::policy::{Generation, Index};
use crate::table::{slot_of, state_of, HandleState};

verus! {

/// A sum type whose values an arena can store: every value belongs to a
/// variant, named by its tag, and a variant carries one payload or none.
pub trait SumType: Sized {
    /// The variants without their payloads.
    type Tag;

    /// The variant that `self` belongs to.
    spec fn tag(self) -> Self::Tag;

    /// The value of the variant `tag`, where that variant carries no payload.
    spec fn unit(tag: Self::Tag) -> Option<Self>;

    /// A variant without payload has no value but that one.
    proof fn lemma_unit_is_alone(self)
        ensures
            Self::unit(self.tag()) matches Some(only) ==> only == self,
    ;

    /// The value of a variant without payload belongs to that variant.
    proof fn lemma_unit_is_tagged(tag: Self::Tag)
        ensures
            Self::unit(tag) matches Some(only) ==> only.tag() == tag,
    ;
}

/// The state of an arena for the sum type `E`.
#[verifier::ext_equal]
pub struct ArenaModel<E: SumType, I, G> {
    /// The stamp that the arena currently issues and accepts.
    pub generation: G,
    /// One entry per allocation since the last `clear`, in order: where the
    /// payload lies in the pool of its variant, or zero where there is none.
    pub offsets: Seq<I>,
    /// The variant of each of those allocations.
    pub tags: Seq<E::Tag>,
    /// For each variant, the values allocated as that variant, in order.
    pub pools: Map<E::Tag, Seq<E>>,
}

impl<E: SumType, I: Index, G: Generation> ArenaModel<E, I, G> {
    /// Whether the allocation at logical offset `i` has its payload in place:
    /// the entry of a variant without payload is zero, that of one with
    /// payload lies within the variant's pool.
    pub open spec fn placed(self, i: int) -> bool {
        if E::unit(self.tags[i]) is Some {
            self.offsets[i].position() == 0
        } else {
            self.offsets[i].position() < self.pools[self.tags[i]].len()
        }
    }

    /// Every allocation has a tag and its payload in place, every variant has
    /// a pool, a pool holds values of its own variant only, and no pool holds
    /// more of them than there were allocations.
    pub open spec fn wf(self) -> bool {
        &&& self.offsets.len() <= usize::MAX
        &&& self.tags.len() == self.offsets.len()
        &&& forall|tag: E::Tag| #[trigger]
            self.pools.dom().contains(tag) && self.pools[tag].len() <= self.offsets.len()
        &&& forall|tag: E::Tag, at: int|
            0 <= at < self.pools[tag].len() ==> (#[trigger] self.pools[tag][at]).tag() == tag
        &&& forall|i: int| 0 <= i < self.offsets.len() ==> #[trigger] self.placed(i)
    }

    /// The handle that the next allocation of variant `tag` returns.
    pub open spec fn next_id(self, tag: E::Tag) -> (E::Tag, I, G) {
        (tag, I::of_position(self.offsets.len() as usize), self.generation)
    }

    /// The entry that `id` leads to, where its stamp is current and its
    /// logical offset lies in the table.
    pub open spec fn slot(self, id: (E::Tag, I, G)) -> Option<usize> {
        slot_of(self.offsets, self.generation, id.1, id.2)
    }

    /// How the arena regards `id`: fresh, stale or out of range.
    pub open spec fn state(self, id: (E::Tag, I, G)) -> HandleState {
        state_of(self.offsets, self.generation, id.1, id.2)
    }

    /// A handle is live when it carries the current stamp and names an
    /// allocation of its own variant that has not been cleared.
    pub open spec fn live(self, id: (E::Tag, I, G)) -> bool {
        &&& id.2 == self.generation
        &&& id.1.position() < self.offsets.len()
        &&& self.tags[id.1.position() as int] == id.0
    }

    /// The value that `id` leads to: for a tag without payload the value of
    /// that variant, if the entry is zero; for a tag with payload what the
    /// variant's pool holds at the entry, if it holds that much.
    pub open spec fn lookup(self, id: (E::Tag, I, G)) -> Option<E> {
        match (self.slot(id), E::unit(id.0)) {
            (Some(at), Some(only)) if at == 0 => Some(only),
            (Some(at), None) if at < self.pools[id.0].len() => Some(self.pools[id.0][at as int]),
            _ => None,
        }
    }

    /// What the accessor for variant `tag` finds under `id`: what `id` leads
    /// to, provided that `id` was allocated as that variant.
    pub open spec fn find(self, id: (E::Tag, I, G), tag: E::Tag) -> Option<E> {
        if id.0 == tag {
            self.lookup(id)
        } else {
            None
        }
    }

    /// The arena after `val` has been allocated.
    pub open spec fn with(self, val: E) -> Self {
        if E::unit(val.tag()) is Some {
            ArenaModel {
                offsets: self.offsets.push(I::of_position(0)),
                tags: self.tags.push(val.tag()),
                ..self
            }
        } else {
            ArenaModel {
                offsets: self.offsets.push(
                    I::of_position(self.pools[val.tag()].len() as usize),
                ),
                tags: self.tags.push(val.tag()),
                pools: self.pools.insert(val.tag(), self.pools[val.tag()].push(val)),
                ..self
            }
        }
    }

    /// Whether an update of `id` with `val` goes through: `id` can be
    /// followed, `val` is of the variant that `id` was allocated as, and a
    /// payload has a place to go to.
    pub open spec fn accepts(self, id: (E::Tag, I, G), val: E) -> bool {
        &&& self.slot(id) matches Some(at)
        &&& id.0 == val.tag()
        &&& E::unit(id.0) is Some || at < self.pools[id.0].len()
    }

    /// The arena with `val` written where `id` leads to. A value without
    /// payload leaves no trace.
    pub open spec fn rewritten(self, id: (E::Tag, I, G), val: E) -> Self {
        if E::unit(val.tag()) is Some {
            self
        } else {
            ArenaModel {
                pools: self.pools.insert(
                    val.tag(),
                    self.pools[val.tag()].update(self.slot(id).unwrap() as int, val),
                ),
                ..self
            }
        }
    }

    /// The arena after an update of `id` with `val`: rewritten if the update
    /// is accepted, else as it was.
    pub open spec fn updated(self, id: (E::Tag, I, G), val: E) -> Self {
        if self.accepts(id, val) {
            self.rewritten(id, val)
        } else {
            self
        }
    }

    /// The arena after `clear`: empty, and one stamp further.
    pub open spec fn cleared(self) -> Self {
        ArenaModel {
            generation: self.generation.successor(),
            offsets: Seq::empty(),
            tags: Seq::empty(),
            pools: Map::total(|tag: E::Tag| Seq::empty()),
        }
    }

    /// The arena after allocating each of `vals` in turn.
    pub open spec fn with_all(self, vals: Seq<E>) -> Self
        decreases vals.len(),
    {
        if vals.len() == 0 {
            self
        } else {
            self.with_all(vals.drop_last()).with(vals.last())
        }
    }
}

} // verus!
