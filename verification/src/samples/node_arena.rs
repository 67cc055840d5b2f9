//! An arena for a sum type whose payloads borrow strings of two lifetimes.

use vstd::prelude::*;
use crate::model::{ArenaModel, SumType};
use crate::policy::{Generation, Index};
use crate::pool::Pool;
use crate::table::OffsetTable;

verus! {

/// A node that is named, or names itself and its parent, or is nothing.
#[derive(PartialEq, Eq, Debug)]
pub enum Node<'a, 'b> {
    Name(&'a str),
    Parent((&'a str, &'b str)),
    Nil,
}

/// The variants of [`Node`] without their payloads: the tag of a handle.
#[derive(Clone, Copy, Debug, Eq, PartialEq, Hash, Structural)]
pub enum NodeExtendEnum {
    Name,
    Parent,
    Nil,
}

/// A handle: the variant it was allocated as, its logical offset, and the
/// stamp of the arena at the time.
pub type NodeId<I, G> = (NodeExtendEnum, I, G);

impl<'a, 'b> SumType for Node<'a, 'b> {
    type Tag = NodeExtendEnum;

    open spec fn tag(self) -> NodeExtendEnum {
        match self {
            Node::Name(_) => NodeExtendEnum::Name,
            Node::Parent(_) => NodeExtendEnum::Parent,
            Node::Nil => NodeExtendEnum::Nil,
        }
    }

    open spec fn unit(tag: NodeExtendEnum) -> Option<Self> {
        match tag {
            NodeExtendEnum::Name => None,
            NodeExtendEnum::Parent => None,
            NodeExtendEnum::Nil => Some(Node::Nil),
        }
    }

    proof fn lemma_unit_is_alone(self) {
    }

    proof fn lemma_unit_is_tagged(tag: NodeExtendEnum) {
    }
}

/// Stores values of [`Node`] and hands out [`NodeId`] handles to them.
///
/// `I` is the integer type of the offsets (`u8`, `u16`, `u32` or `u64`), `G`
/// that of the stamp (one of those, or `()` for an arena whose handles outlive
/// `clear`).
pub struct NodeIdArena<'a, 'b, I, G> {
    table: OffsetTable<I, G>,
    name_vec: Pool<&'a str>,
    parent_vec: Pool<(&'a str, &'b str)>,
    tags: Ghost<Seq<NodeExtendEnum>>,
}

impl<'a, 'b, I, G> View for NodeIdArena<'a, 'b, I, G> {
    type V = ArenaModel<Node<'a, 'b>, I, G>;

    closed spec fn view(&self) -> ArenaModel<Node<'a, 'b>, I, G> {
        ArenaModel {
            generation: self.table.generation(),
            offsets: self.table@,
            tags: self.tags@,
            pools: Map::total(
                |tag: NodeExtendEnum|
                    match tag {
                        NodeExtendEnum::Name => self.name_vec@.map_values(
                            |payload: &'a str| Node::Name(payload),
                        ),
                        NodeExtendEnum::Parent => self.parent_vec@.map_values(
                            |payload: (&'a str, &'b str)| Node::Parent(payload),
                        ),
                        NodeExtendEnum::Nil => Seq::empty(),
                    },
            ),
        }
    }
}

impl<'a, 'b, I: Index, G: Generation + Copy + Default> Default for NodeIdArena<'a, 'b, I, G> {
    /// An empty arena that carries the stamp `G::default()`.
    fn default() -> (arena: Self)
        ensures
            arena@.wf(),
            call_ensures(G::default, (), arena@.generation),
            arena@.offsets == Seq::<I>::empty(),
            arena@.tags == Seq::<NodeExtendEnum>::empty(),
            arena@.pools == Map::total(|tag: NodeExtendEnum| Seq::<Node<'a, 'b>>::empty()),
    {
        let arena = NodeIdArena {
            table: OffsetTable::new(G::default()),
            name_vec: Pool::new(),
            parent_vec: Pool::new(),
            tags: Ghost(Seq::empty()),
        };
        assert(arena@.pools =~~= Map::total(|tag: NodeExtendEnum| Seq::<Node<'a, 'b>>::empty()));
        arena
    }
}

impl<'a, 'b, I: Index, G: Generation + Copy> NodeIdArena<'a, 'b, I, G> {
    /// The number of allocations since the last `clear`.
    pub fn len(&self) -> (n: usize)
        ensures
            n == self@.offsets.len(),
    {
        self.table.len()
    }

    /// Empties the arena and moves on to the next stamp, so that no handle
    /// issued so far is accepted any more (unless the stamp never advances).
    pub fn clear(&mut self)
        requires
            !old(self)@.generation.exhausted(),
        ensures
            final(self)@ == old(self)@.cleared(),
            final(self)@.wf(),
    {
        self.table.clear();
        self.name_vec.clear();
        self.parent_vec.clear();
        self.tags = Ghost(Seq::empty());
        proof {
            assert(self@ =~~= old(self)@.cleared());
            old(self)@.lemma_wf_after_clear();
        }
    }

    /// Allocates a `Name` that holds `val`.
    pub fn alloc_name(&mut self, val: &'a str) -> (id: NodeId<I, G>)
        ensures
            final(self)@ == old(self)@.with(Node::Name(val)),
            old(self)@.wf() ==> final(self)@.wf(),
            id == old(self)@.next_id(NodeExtendEnum::Name),
    {
        let at = self.name_vec.push(val);
        let (index, generation) = self.table.push(at);
        self.tags = Ghost(self.tags@.push(NodeExtendEnum::Name));
        proof {
            self.table.lemma_len_bounded();
            assert(self@ =~~= old(self)@.with(Node::Name(val)));
            if old(self)@.wf() {
                old(self)@.lemma_wf_after_allocation(Node::Name(val));
            }
        }
        (NodeExtendEnum::Name, index, generation)
    }

    /// Allocates a `Parent` that holds `val`.
    pub fn alloc_parent(&mut self, val: (&'a str, &'b str)) -> (id: NodeId<I, G>)
        ensures
            final(self)@ == old(self)@.with(Node::Parent(val)),
            old(self)@.wf() ==> final(self)@.wf(),
            id == old(self)@.next_id(NodeExtendEnum::Parent),
    {
        let at = self.parent_vec.push(val);
        let (index, generation) = self.table.push(at);
        self.tags = Ghost(self.tags@.push(NodeExtendEnum::Parent));
        proof {
            self.table.lemma_len_bounded();
            assert(self@ =~~= old(self)@.with(Node::Parent(val)));
            if old(self)@.wf() {
                old(self)@.lemma_wf_after_allocation(Node::Parent(val));
            }
        }
        (NodeExtendEnum::Parent, index, generation)
    }

    /// Allocates a `Nil`.
    pub fn alloc_nil(&mut self) -> (id: NodeId<I, G>)
        ensures
            final(self)@ == old(self)@.with(Node::Nil),
            old(self)@.wf() ==> final(self)@.wf(),
            id == old(self)@.next_id(NodeExtendEnum::Nil),
    {
        let (index, generation) = self.table.push(0);
        self.tags = Ghost(self.tags@.push(NodeExtendEnum::Nil));
        proof {
            self.table.lemma_len_bounded();
            assert(self@ =~~= old(self)@.with(Node::Nil));
            if old(self)@.wf() {
                old(self)@.lemma_wf_after_allocation(Node::Nil);
            }
        }
        (NodeExtendEnum::Nil, index, generation)
    }

    /// Allocates `val` as the variant that it is.
    pub fn allocate(&mut self, val: Node<'a, 'b>) -> (id: NodeId<I, G>)
        ensures
            final(self)@ == old(self)@.with(val),
            old(self)@.wf() ==> final(self)@.wf(),
            id == old(self)@.next_id(val.tag()),
    {
        match val {
            Node::Name(val) => self.alloc_name(val),
            Node::Parent(val) => self.alloc_parent(val),
            Node::Nil => self.alloc_nil(),
        }
    }

    /// Replaces the value that `id` leads to by `val`, which must be of the
    /// variant that `id` was allocated as. A refused update changes nothing.
    pub fn update(&mut self, id: NodeId<I, G>, val: Node<'a, 'b>) -> (done: Option<()>)
        ensures
            done == if old(self)@.accepts(id, val) {
                Some(())
            } else {
                None
            },
            final(self)@ == old(self)@.updated(id, val),
            old(self)@.wf() ==> final(self)@.wf(),
    {
        proof {
            if self@.wf() {
                self@.lemma_wf_after_update(id, val);
            }
        }
        let (ty, index, generation) = id;
        let at = self.table.resolve(index, generation)?;
        match val {
            Node::Name(val) => {
                if ty != NodeExtendEnum::Name {
                    return None;
                }
                if !self.name_vec.set(at, val) {
                    return None;
                }
            },
            Node::Parent(val) => {
                if ty != NodeExtendEnum::Parent {
                    return None;
                }
                if !self.parent_vec.set(at, val) {
                    return None;
                }
            },
            Node::Nil => {
                if ty != NodeExtendEnum::Nil {
                    return None;
                }
            },
        }
        assert(self@ =~~= old(self)@.updated(id, val));
        Some(())
    }

    /// The variant that `id` was allocated as.
    pub fn ty(&self, id: NodeId<I, G>) -> (tag: NodeExtendEnum)
        ensures
            tag == id.0,
    {
        id.0
    }

    /// The `Name` payload that `id` leads to.
    pub fn get_name(&self, id: NodeId<I, G>) -> (found: Option<&&'a str>)
        ensures
            found == match self@.find(id, NodeExtendEnum::Name) {
                Some(Node::Name(payload)) => Some(&payload),
                _ => None,
            },
    {
        let (ty, index, generation) = id;
        let at = self.table.resolve(index, generation)?;
        if let NodeExtendEnum::Name = ty {
            return self.name_vec.get(at);
        }
        None
    }

    /// Exclusive access to the `Name` payload that `id` leads to. What the
    /// caller leaves there is what the arena holds afterwards.
    pub fn get_name_mut(&mut self, id: NodeId<I, G>) -> (found: Option<&mut &'a str>)
        ensures
            match found {
                Some(payload) => {
                    &&& old(self)@.find(id, NodeExtendEnum::Name) == Some(Node::Name(*payload))
                    &&& final(self)@ =~~= old(self)@.rewritten(id, Node::Name(*final(payload)))
                },
                None => {
                    &&& old(self)@.find(id, NodeExtendEnum::Name) is None
                    &&& final(self)@ == old(self)@
                },
            },
            old(self)@.wf() ==> final(self)@.wf(),
    {
        let (ty, index, generation) = id;
        let at = self.table.resolve(index, generation)?;
        if let NodeExtendEnum::Name = ty {
            proof {
                assert(self@.pools[NodeExtendEnum::Name].len() == self.name_vec@.len());
                if self@.wf() {
                    self@.lemma_wf_after_rewrite(id);
                }
            }
            return self.name_vec.get_mut(at);
        }
        None
    }

    /// The `Parent` payload that `id` leads to.
    pub fn get_parent(&self, id: NodeId<I, G>) -> (found: Option<&(&'a str, &'b str)>)
        ensures
            found == match self@.find(id, NodeExtendEnum::Parent) {
                Some(Node::Parent(payload)) => Some(&payload),
                _ => None,
            },
    {
        let (ty, index, generation) = id;
        let at = self.table.resolve(index, generation)?;
        if let NodeExtendEnum::Parent = ty {
            return self.parent_vec.get(at);
        }
        None
    }

    /// Exclusive access to the `Parent` payload that `id` leads to. What the
    /// caller leaves there is what the arena holds afterwards.
    pub fn get_parent_mut(&mut self, id: NodeId<I, G>) -> (found: Option<&mut (&'a str, &'b str)>)
        ensures
            match found {
                Some(payload) => {
                    &&& old(self)@.find(id, NodeExtendEnum::Parent) == Some(Node::Parent(*payload))
                    &&& final(self)@ =~~= old(self)@.rewritten(id, Node::Parent(*final(payload)))
                },
                None => {
                    &&& old(self)@.find(id, NodeExtendEnum::Parent) is None
                    &&& final(self)@ == old(self)@
                },
            },
            old(self)@.wf() ==> final(self)@.wf(),
    {
        let (ty, index, generation) = id;
        let at = self.table.resolve(index, generation)?;
        if let NodeExtendEnum::Parent = ty {
            proof {
                assert(self@.pools[NodeExtendEnum::Parent].len() == self.parent_vec@.len());
                if self@.wf() {
                    self@.lemma_wf_after_rewrite(id);
                }
            }
            return self.parent_vec.get_mut(at);
        }
        None
    }
}

impl<'a, 'b, I: Index, G: Generation + Copy> NodeIdArena<'a, 'b, I, G> {
    /// A copy of the value that `id` leads to.
    pub fn get(&self, id: NodeId<I, G>) -> (found: Option<Node<'a, 'b>>)
        ensures
            found == self@.lookup(id),
    {
        let (ty, index, generation) = id;
        let at = self.table.resolve(index, generation)?;
        match ty {
            NodeExtendEnum::Name => match self.name_vec.get(at) {
                Some(payload) => Some(Node::Name(*payload)),
                None => None,
            },
            NodeExtendEnum::Parent => match self.parent_vec.get(at) {
                Some(payload) => Some(Node::Parent(*payload)),
                None => None,
            },
            NodeExtendEnum::Nil => if at == 0 {
                Some(Node::Nil)
            } else {
                None
            },
        }
    }
}

} // verus!
