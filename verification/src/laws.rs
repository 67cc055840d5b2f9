//! What holds of every arena, whatever sum type it stores, stated over the
//! model that the arenas' contracts speak of.

use vstd::prelude::*;
use crate::model::{ArenaModel, SumType};
use crate::policy::{Generation, Index};
use crate::table::HandleState;

verus! {

impl<E: SumType, I: Index, G: Generation> ArenaModel<E, I, G> {
    /// Allocation keeps an arena well-formed.
    pub proof fn lemma_wf_after_allocation(self, val: E)
        requires
            self.wf(),
            self.offsets.len() < usize::MAX,
        ensures
            self.with(val).wf(),
    {
        let after = self.with(val);
        I::lemma_never_grows(0);
        I::lemma_never_grows(self.pools[val.tag()].len() as usize);
        assert forall|i: int| 0 <= i < after.offsets.len() implies #[trigger] after.placed(i) by {
            if i < self.offsets.len() {
                assert(self.placed(i));
            }
        }
        assert forall|tag: E::Tag| #[trigger]
            after.pools.dom().contains(tag) && after.pools[tag].len() <= after.offsets.len() by {
            assert(self.pools.dom().contains(tag));
        }
    }

    /// An update, accepted or not, keeps an arena well-formed.
    pub proof fn lemma_wf_after_update(self, id: (E::Tag, I, G), val: E)
        requires
            self.wf(),
        ensures
            self.updated(id, val).wf(),
    {
        let after = self.updated(id, val);
        assert forall|i: int| 0 <= i < after.offsets.len() implies #[trigger] after.placed(i) by {
            assert(self.placed(i));
        }
        assert forall|tag: E::Tag| #[trigger]
            after.pools.dom().contains(tag) && after.pools[tag].len() <= after.offsets.len() by {
            assert(self.pools.dom().contains(tag));
        }
    }

    /// Whatever is written through a handle that accepts it, the arena stays
    /// well-formed.
    pub proof fn lemma_wf_after_rewrite(self, id: (E::Tag, I, G))
        requires
            self.wf(),
        ensures
            forall|val: E| self.accepts(id, val) ==> (#[trigger] self.rewritten(id, val)).wf(),
    {
        assert forall|val: E| self.accepts(id, val) implies (#[trigger] self.rewritten(
            id,
            val,
        )).wf() by {
            self.lemma_wf_after_update(id, val);
        }
    }

    /// A cleared arena is well-formed.
    pub proof fn lemma_wf_after_clear(self)
        ensures
            self.cleared().wf(),
    {
    }

    /// Looking up the handle of a new allocation gives the allocated value
    /// back, whatever its variant and payload, as long as the number of
    /// allocations so far fits the index type. The handle is fresh and live.
    pub proof fn lemma_round_trip(self, val: E)
        requires
            self.wf(),
            I::representable(self.offsets.len() as usize),
        ensures
            self.with(val).lookup(self.next_id(val.tag())) == Some(val),
            self.with(val).state(self.next_id(val.tag())) == HandleState::Fresh,
            self.with(val).live(self.next_id(val.tag())),
    {
        let n = self.offsets.len() as usize;
        let held = self.pools[val.tag()].len() as usize;
        assert(self.pools.dom().contains(val.tag()));
        I::lemma_round_trip(n);
        I::lemma_initial_segment(0, n);
        I::lemma_initial_segment(held, n);
        I::lemma_round_trip(0);
        I::lemma_round_trip(held);
        val.lemma_unit_is_alone();
    }

    /// A handle allocated as one variant is never taken for another: in any
    /// state of the arena, the accessor of another variant finds nothing
    /// under it, and what a lookup finds is of the handle's variant.
    pub proof fn lemma_tag_integrity(self, id: (E::Tag, I, G), other: E::Tag)
        requires
            self.wf(),
        ensures
            other != id.0 ==> self.find(id, other) is None,
            self.lookup(id) matches Some(val) ==> val.tag() == id.0,
    {
        E::lemma_unit_is_tagged(id.0);
    }

    /// A handle that is stale or out of range leads nowhere, and an update
    /// through it is refused and changes nothing.
    pub proof fn lemma_absent_unless_fresh(self, id: (E::Tag, I, G), tag: E::Tag, val: E)
        requires
            self.state(id) != HandleState::Fresh,
        ensures
            self.lookup(id) is None,
            self.find(id, tag) is None,
            !self.accepts(id, val),
            self.updated(id, val) == self,
    {
    }

    /// Under an advancing stamp, `clear` puts an end to every handle issued
    /// before it: whichever stamp of the arena's past the handle carries, it is
    /// stale afterwards and every accessor reports it absent.
    pub proof fn lemma_stale_after_clear(self, id: (E::Tag, I, G), tag: E::Tag, val: E)
        requires
            G::advancing(),
            !self.generation.exhausted(),
            id.2.ordinal() <= self.generation.ordinal(),
        ensures
            self.cleared().state(id) == HandleState::Stale,
            self.cleared().lookup(id) is None,
            self.cleared().find(id, tag) is None,
            !self.cleared().accepts(id, val),
            self.cleared().updated(id, val) == self.cleared(),
    {
        G::lemma_successor(self.generation);
    }

    /// Under an advancing stamp a stale handle never becomes fresh again:
    /// nothing that is done to the arena brings an earlier stamp back.
    pub proof fn lemma_stale_for_good(self, id: (E::Tag, I, G), other: (E::Tag, I, G), val: E)
        requires
            G::advancing(),
            id.2.ordinal() < self.generation.ordinal(),
        ensures
            self.state(id) == HandleState::Stale,
            id.2.ordinal() < self.with(val).generation.ordinal(),
            id.2.ordinal() < self.updated(other, val).generation.ordinal(),
            !self.generation.exhausted() ==> id.2.ordinal() < self.cleared().generation.ordinal(),
    {
        if !self.generation.exhausted() {
            G::lemma_successor(self.generation);
        }
    }

    /// Under a stamp that stands still, `clear` keeps the stamp. A handle
    /// issued before it is then out of range, and stays so until as many
    /// allocations have been made again as its logical offset asks for.
    pub proof fn lemma_out_of_range_after_clear(self, id: (E::Tag, I, G), tag: E::Tag, val: E)
        requires
            !G::advancing(),
            !self.generation.exhausted(),
            self.state(id) == HandleState::Fresh,
        ensures
            self.cleared().generation == self.generation,
            self.cleared().state(id) == HandleState::OutOfRange,
            self.cleared().lookup(id) is None,
            self.cleared().find(id, tag) is None,
            !self.cleared().accepts(id, val),
    {
        G::lemma_successor(self.generation);
    }

    /// Only `clear` ends the freshness of a handle: allocations and updates
    /// leave a fresh handle fresh.
    pub proof fn lemma_fresh_until_clear(self, id: (E::Tag, I, G), other: (E::Tag, I, G), val: E)
        requires
            self.state(id) == HandleState::Fresh,
        ensures
            self.with(val).state(id) == HandleState::Fresh,
            self.updated(other, val).state(id) == HandleState::Fresh,
    {
    }

    /// An update with a value of another variant than the handle's is refused
    /// and leaves the arena, and so what the handle leads to, as it was.
    pub proof fn lemma_update_refuses_other_variant(self, id: (E::Tag, I, G), val: E)
        requires
            val.tag() != id.0,
        ensures
            !self.accepts(id, val),
            self.updated(id, val) == self,
            self.updated(id, val).lookup(id) == self.lookup(id),
    {
    }

    /// An update through a handle that leads to a value, with a value of the
    /// handle's own variant, is accepted, and the handle then leads to the new
    /// value.
    pub proof fn lemma_update_then_lookup(self, id: (E::Tag, I, G), val: E)
        requires
            self.lookup(id) is Some,
            val.tag() == id.0,
        ensures
            self.accepts(id, val),
            self.updated(id, val).lookup(id) == Some(val),
    {
        val.lemma_unit_is_alone();
    }

    /// A live handle always leads to a value, and to one of its own variant:
    /// no lookup through it runs past the end of a pool.
    pub proof fn lemma_live_resolves(self, id: (E::Tag, I, G))
        requires
            self.wf(),
            self.live(id),
        ensures
            self.state(id) == HandleState::Fresh,
            self.lookup(id) matches Some(val) && val.tag() == id.0,
    {
        assert(self.placed(id.1.position() as int));
        E::lemma_unit_is_tagged(id.0);
    }

    /// Allocations and updates keep a live handle live.
    pub proof fn lemma_live_until_clear(self, id: (E::Tag, I, G), other: (E::Tag, I, G), val: E)
        requires
            self.wf(),
            self.live(id),
        ensures
            self.with(val).live(id),
            self.updated(other, val).live(id),
    {
    }

    /// Allocation disturbs no handle that leads to a value: it leads to the
    /// same value afterwards.
    pub proof fn lemma_allocation_keeps_values(self, id: (E::Tag, I, G), val: E)
        requires
            self.lookup(id) is Some,
        ensures
            self.with(val).lookup(id) == self.lookup(id),
    {
    }

    /// The table's length counts the allocations since the last `clear`:
    /// each allocation adds one, and `clear` starts again from none.
    pub proof fn lemma_len_counts_allocations(self, vals: Seq<E>)
        ensures
            self.with_all(vals).offsets.len() == self.offsets.len() + vals.len(),
            self.cleared().offsets.len() == 0,
            self.cleared().with_all(vals).offsets.len() == vals.len(),
        decreases vals.len(),
    {
        if vals.len() > 0 {
            self.lemma_len_counts_allocations(vals.drop_last());
            self.cleared().lemma_len_counts_allocations(vals.drop_last());
        }
    }
}

} // verus!
