//! An arena for a sum type with a borrowed and a generic payload.

use vstd::prelude::*;
use crate::model::{ArenaModel, SumType};
use crate::policy::{Generation, Index};
use crate::pool::Pool;
use crate::table::OffsetTable;

verus! {

/// A node that is named, or names itself and carries a `T`, or is nothing.
#[derive(PartialEq, Eq, Debug)]
pub enum NodeV2<'a, T> {
    Name(&'a str),
    Parent((&'a str, T)),
    Nil,
}

/// The variants of [`NodeV2`] without their payloads: the tag of a handle.
#[derive(Clone, Copy, Debug, Eq, PartialEq, Hash, Structural)]
pub enum NodeV2ExtendEnum {
    Name,
    Parent,
    Nil,
}

/// A handle: the variant it was allocated as, its logical offset, and the
/// stamp of the arena at the time.
pub type NodeV2Id<I, G> = (NodeV2ExtendEnum, I, G);

impl<'a, T> SumType for NodeV2<'a, T> {
    type Tag = NodeV2ExtendEnum;

    open spec fn tag(self) -> NodeV2ExtendEnum {
        match self {
            NodeV2::Name(_) => NodeV2ExtendEnum::Name,
            NodeV2::Parent(_) => NodeV2ExtendEnum::Parent,
            NodeV2::Nil => NodeV2ExtendEnum::Nil,
        }
    }

    open spec fn unit(tag: NodeV2ExtendEnum) -> Option<Self> {
        match tag {
            NodeV2ExtendEnum::Name => None,
            NodeV2ExtendEnum::Parent => None,
            NodeV2ExtendEnum::Nil => Some(NodeV2::Nil),
        }
    }

    proof fn lemma_unit_is_alone(self) {
    }

    proof fn lemma_unit_is_tagged(tag: NodeV2ExtendEnum) {
    }
}

/// Stores values of [`NodeV2`] and hands out [`NodeV2Id`] handles to them.
///
/// `I` is the integer type of the offsets (`u8`, `u16`, `u32` or `u64`), `G`
/// that of the stamp (one of those, or `()` for an arena whose handles outlive
/// `clear`).
pub struct NodeV2IdArena<'a, T, I, G> {
    table: OffsetTable<I, G>,
    name_vec: Pool<&'a str>,
    parent_vec: Pool<(&'a str, T)>,
    tags: Ghost<Seq<NodeV2ExtendEnum>>,
}

impl<'a, T, I, G> View for NodeV2IdArena<'a, T, I, G> {
    type V = ArenaModel<NodeV2<'a, T>, I, G>;

    closed spec fn view(&self) -> ArenaModel<NodeV2<'a, T>, I, G> {
        ArenaModel {
            generation: self.table.generation(),
            offsets: self.table@,
            tags: self.tags@,
            pools: Map::total(
                |tag: NodeV2ExtendEnum|
                    match tag {
                        NodeV2ExtendEnum::Name => self.name_vec@.map_values(
                            |payload: &'a str| NodeV2::Name(payload),
                        ),
                        NodeV2ExtendEnum::Parent => self.parent_vec@.map_values(
                            |payload: (&'a str, T)| NodeV2::Parent(payload),
                        ),
                        NodeV2ExtendEnum::Nil => Seq::empty(),
                    },
            ),
        }
    }
}

impl<'a, T, I: Index, G: Generation + Copy + Default> Default for NodeV2IdArena<'a, T, I, G> {
    /// An empty arena that carries the stamp `G::default()`.
    fn default() -> (arena: Self)
        ensures
            arena@.wf(),
            call_ensures(G::default, (), arena@.generation),
            arena@.offsets == Seq::<I>::empty(),
            arena@.tags == Seq::<NodeV2ExtendEnum>::empty(),
            arena@.pools == Map::total(|tag: NodeV2ExtendEnum| Seq::<NodeV2<'a, T>>::empty()),
    {
        let arena = NodeV2IdArena {
            table: OffsetTable::new(G::default()),
            name_vec: Pool::new(),
            parent_vec: Pool::new(),
            tags: Ghost(Seq::empty()),
        };
        assert(arena@.pools =~~= Map::total(|tag: NodeV2ExtendEnum| Seq::<NodeV2<'a, T>>::empty()));
        arena
    }
}

impl<'a, T, I: Index, G: Generation + Copy> NodeV2IdArena<'a, T, I, G> {
    /// The number of allocations since the last `clear`.
    pub fn len(&self) -> (n: usize)
        ensures
            n == self@.offsets.len(),
    {
        self.table.len()
    }

    /// Empties the arena and moves on to the next stamp, so that no handle
    /// issued so far is accepted any more (unless the stamp never advances).
    pub fn clear(&mut self)
        requires
            !old(self)@.generation.exhausted(),
        ensures
            final(self)@ == old(self)@.cleared(),
            final(self)@.wf(),
    {
        self.table.clear();
        self.name_vec.clear();
        self.parent_vec.clear();
        self.tags = Ghost(Seq::empty());
        proof {
            assert(self@ =~~= old(self)@.cleared());
            old(self)@.lemma_wf_after_clear();
        }
    }

    /// Allocates a `Name` that holds `val`.
    pub fn alloc_name(&mut self, val: &'a str) -> (id: NodeV2Id<I, G>)
        ensures
            final(self)@ == old(self)@.with(NodeV2::Name(val)),
            old(self)@.wf() ==> final(self)@.wf(),
            id == old(self)@.next_id(NodeV2ExtendEnum::Name),
    {
        let at = self.name_vec.push(val);
        let (index, generation) = self.table.push(at);
        self.tags = Ghost(self.tags@.push(NodeV2ExtendEnum::Name));
        proof {
            self.table.lemma_len_bounded();
            assert(self@ =~~= old(self)@.with(NodeV2::Name(val)));
            if old(self)@.wf() {
                old(self)@.lemma_wf_after_allocation(NodeV2::Name(val));
            }
        }
        (NodeV2ExtendEnum::Name, index, generation)
    }

    /// Allocates a `Parent` that holds `val`.
    pub fn alloc_parent(&mut self, val: (&'a str, T)) -> (id: NodeV2Id<I, G>)
        ensures
            final(self)@ == old(self)@.with(NodeV2::Parent(val)),
            old(self)@.wf() ==> final(self)@.wf(),
            id == old(self)@.next_id(NodeV2ExtendEnum::Parent),
    {
        let at = self.parent_vec.push(val);
        let (index, generation) = self.table.push(at);
        self.tags = Ghost(self.tags@.push(NodeV2ExtendEnum::Parent));
        proof {
            self.table.lemma_len_bounded();
            assert(self@ =~~= old(self)@.with(NodeV2::Parent(val)));
            if old(self)@.wf() {
                old(self)@.lemma_wf_after_allocation(NodeV2::Parent(val));
            }
        }
        (NodeV2ExtendEnum::Parent, index, generation)
    }

    /// Allocates a `Nil`.
    pub fn alloc_nil(&mut self) -> (id: NodeV2Id<I, G>)
        ensures
            final(self)@ == old(self)@.with(NodeV2::Nil),
            old(self)@.wf() ==> final(self)@.wf(),
            id == old(self)@.next_id(NodeV2ExtendEnum::Nil),
    {
        let (index, generation) = self.table.push(0);
        self.tags = Ghost(self.tags@.push(NodeV2ExtendEnum::Nil));
        proof {
            self.table.lemma_len_bounded();
            assert(self@ =~~= old(self)@.with(NodeV2::Nil));
            if old(self)@.wf() {
                old(self)@.lemma_wf_after_allocation(NodeV2::Nil);
            }
        }
        (NodeV2ExtendEnum::Nil, index, generation)
    }

    /// Allocates `val` as the variant that it is.
    pub fn allocate(&mut self, val: NodeV2<'a, T>) -> (id: NodeV2Id<I, G>)
        ensures
            final(self)@ == old(self)@.with(val),
            old(self)@.wf() ==> final(self)@.wf(),
            id == old(self)@.next_id(val.tag()),
    {
        match val {
            NodeV2::Name(val) => self.alloc_name(val),
            NodeV2::Parent(val) => self.alloc_parent(val),
            NodeV2::Nil => self.alloc_nil(),
        }
    }

    /// Replaces the value that `id` leads to by `val`, which must be of the
    /// variant that `id` was allocated as. A refused update changes nothing.
    pub fn update(&mut self, id: NodeV2Id<I, G>, val: NodeV2<'a, T>) -> (done: Option<()>)
        ensures
            done == if old(self)@.accepts(id, val) {
                Some(())
            } else {
                None
            },
            final(self)@ == old(self)@.updated(id, val),
            old(self)@.wf() ==> final(self)@.wf(),
    {
        proof {
            if self@.wf() {
                self@.lemma_wf_after_update(id, val);
            }
        }
        let (ty, index, generation) = id;
        let at = self.table.resolve(index, generation)?;
        match val {
            NodeV2::Name(val) => {
                if ty != NodeV2ExtendEnum::Name {
                    return None;
                }
                if !self.name_vec.set(at, val) {
                    return None;
                }
            },
            NodeV2::Parent(val) => {
                if ty != NodeV2ExtendEnum::Parent {
                    return None;
                }
                if !self.parent_vec.set(at, val) {
                    return None;
                }
            },
            NodeV2::Nil => {
                if ty != NodeV2ExtendEnum::Nil {
                    return None;
                }
            },
        }
        assert(self@ =~~= old(self)@.updated(id, val));
        Some(())
    }

    /// The variant that `id` was allocated as.
    pub fn ty(&self, id: NodeV2Id<I, G>) -> (tag: NodeV2ExtendEnum)
        ensures
            tag == id.0,
    {
        id.0
    }

    /// The `Name` payload that `id` leads to.
    pub fn get_name(&self, id: NodeV2Id<I, G>) -> (found: Option<&&'a str>)
        ensures
            found == match self@.find(id, NodeV2ExtendEnum::Name) {
                Some(NodeV2::Name(payload)) => Some(&payload),
                _ => None,
            },
    {
        let (ty, index, generation) = id;
        let at = self.table.resolve(index, generation)?;
        if let NodeV2ExtendEnum::Name = ty {
            return self.name_vec.get(at);
        }
        None
    }

    /// Exclusive access to the `Name` payload that `id` leads to. What the
    /// caller leaves there is what the arena holds afterwards.
    pub fn get_name_mut(&mut self, id: NodeV2Id<I, G>) -> (found: Option<&mut &'a str>)
        ensures
            match found {
                Some(payload) => {
                    &&& old(self)@.find(id, NodeV2ExtendEnum::Name) == Some(
                        NodeV2::<T>::Name(*payload),
                    )
                    &&& final(self)@ =~~= old(self)@.rewritten(id, NodeV2::Name(*final(payload)))
                },
                None => {
                    &&& old(self)@.find(id, NodeV2ExtendEnum::Name) is None
                    &&& final(self)@ == old(self)@
                },
            },
            old(self)@.wf() ==> final(self)@.wf(),
    {
        let (ty, index, generation) = id;
        let at = self.table.resolve(index, generation)?;
        if let NodeV2ExtendEnum::Name = ty {
            proof {
                assert(self@.pools[NodeV2ExtendEnum::Name].len() == self.name_vec@.len());
                if self@.wf() {
                    self@.lemma_wf_after_rewrite(id);
                }
            }
            return self.name_vec.get_mut(at);
        }
        None
    }

    /// The `Parent` payload that `id` leads to.
    pub fn get_parent(&self, id: NodeV2Id<I, G>) -> (found: Option<&(&'a str, T)>)
        ensures
            found == match self@.find(id, NodeV2ExtendEnum::Parent) {
                Some(NodeV2::Parent(payload)) => Some(&payload),
                _ => None,
            },
    {
        let (ty, index, generation) = id;
        let at = self.table.resolve(index, generation)?;
        if let NodeV2ExtendEnum::Parent = ty {
            return self.parent_vec.get(at);
        }
        None
    }

    /// Exclusive access to the `Parent` payload that `id` leads to. What the
    /// caller leaves there is what the arena holds afterwards.
    pub fn get_parent_mut(&mut self, id: NodeV2Id<I, G>) -> (found: Option<&mut (&'a str, T)>)
        ensures
            match found {
                Some(payload) => {
                    &&& old(self)@.find(id, NodeV2ExtendEnum::Parent) == Some(
                        NodeV2::<T>::Parent(*payload),
                    )
                    &&& final(self)@ =~~= old(self)@.rewritten(id, NodeV2::Parent(*final(payload)))
                },
                None => {
                    &&& old(self)@.find(id, NodeV2ExtendEnum::Parent) is None
                    &&& final(self)@ == old(self)@
                },
            },
            old(self)@.wf() ==> final(self)@.wf(),
    {
        let (ty, index, generation) = id;
        let at = self.table.resolve(index, generation)?;
        if let NodeV2ExtendEnum::Parent = ty {
            proof {
                assert(self@.pools[NodeV2ExtendEnum::Parent].len() == self.parent_vec@.len());
                if self@.wf() {
                    self@.lemma_wf_after_rewrite(id);
                }
            }
            return self.parent_vec.get_mut(at);
        }
        None
    }
}

impl<'a, T: Clone, I: Index, G: Generation + Copy> NodeV2IdArena<'a, T, I, G> {
    /// A copy of the value that `id` leads to. The second part of a `Parent`
    /// payload is whatever `T::clone` makes of the stored one.
    pub fn get(&self, id: NodeV2Id<I, G>) -> (found: Option<NodeV2<'a, T>>)
        ensures
            match self@.lookup(id) {
                Some(NodeV2::Parent(stored)) => {
                    &&& found matches Some(NodeV2::Parent(copy))
                    &&& copy.0 == stored.0 && cloned(stored.1, copy.1)
                },
                other => found == other,
            },
    {
        let (ty, index, generation) = id;
        let at = self.table.resolve(index, generation)?;
        match ty {
            NodeV2ExtendEnum::Name => match self.name_vec.get(at) {
                Some(payload) => Some(NodeV2::Name(*payload)),
                None => None,
            },
            NodeV2ExtendEnum::Parent => match self.parent_vec.get(at) {
                Some(payload) => Some(NodeV2::Parent((payload.0, payload.1.clone()))),
                None => None,
            },
            NodeV2ExtendEnum::Nil => if at == 0 {
                Some(NodeV2::Nil)
            } else {
                None
            },
        }
    }
}

} // verus!
