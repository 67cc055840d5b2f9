//! An arena for a sum type of four variants: three with payloads of their
//! own, one of them a struct, and one without.

use vstd::prelude::*;
use crate::model::{ArenaModel, SumType};
use crate::policy::{Generation, Index};
use crate::pool::Pool;
use crate::table::OffsetTable;

verus! {

/// The payload of [`Enum::Detail`].
#[derive(PartialEq, Eq, Debug)]
pub struct Detail {
    pub a: i32,
    pub b: i32,
}

impl Clone for Detail {
    fn clone(&self) -> (copy: Self)
        ensures
            copy == *self,
    {
        Detail { a: self.a, b: self.b }
    }
}

/// A sum type with a plain, a tuple and a struct payload.
#[derive(PartialEq, Eq, Debug)]
pub enum Enum {
    Value(i32),
    Nil,
    ListAB((i32, u32)),
    Detail(Detail),
}

/// The variants of [`Enum`] without their payloads: the tag of a handle.
#[derive(Clone, Copy, Debug, Eq, PartialEq, Hash, Structural)]
pub enum EnumExtendEnum {
    Value,
    Nil,
    ListAB,
    Detail,
}

/// A handle: the variant it was allocated as, its logical offset, and the
/// stamp of the arena at the time.
pub type EnumId<I, G> = (EnumExtendEnum, I, G);

impl SumType for Enum {
    type Tag = EnumExtendEnum;

    open spec fn tag(self) -> EnumExtendEnum {
        match self {
            Enum::Value(_) => EnumExtendEnum::Value,
            Enum::Nil => EnumExtendEnum::Nil,
            Enum::ListAB(_) => EnumExtendEnum::ListAB,
            Enum::Detail(_) => EnumExtendEnum::Detail,
        }
    }

    open spec fn unit(tag: EnumExtendEnum) -> Option<Self> {
        match tag {
            EnumExtendEnum::Value => None,
            EnumExtendEnum::Nil => Some(Enum::Nil),
            EnumExtendEnum::ListAB => None,
            EnumExtendEnum::Detail => None,
        }
    }

    proof fn lemma_unit_is_alone(self) {
    }

    proof fn lemma_unit_is_tagged(tag: EnumExtendEnum) {
    }
}

/// Stores values of [`Enum`] and hands out [`EnumId`] handles to them.
///
/// `I` is the integer type of the offsets (`u8`, `u16`, `u32` or `u64`), `G`
/// that of the stamp (one of those, or `()` for an arena whose handles outlive
/// `clear`).
pub struct EnumIdArena<I, G> {
    table: OffsetTable<I, G>,
    value_vec: Pool<i32>,
    list_ab_vec: Pool<(i32, u32)>,
    detail_vec: Pool<Detail>,
    tags: Ghost<Seq<EnumExtendEnum>>,
}

impl<I, G> View for EnumIdArena<I, G> {
    type V = ArenaModel<Enum, I, G>;

    closed spec fn view(&self) -> ArenaModel<Enum, I, G> {
        ArenaModel {
            generation: self.table.generation(),
            offsets: self.table@,
            tags: self.tags@,
            pools: Map::total(
                |tag: EnumExtendEnum|
                    match tag {
                        EnumExtendEnum::Value => self.value_vec@.map_values(
                            |payload: i32| Enum::Value(payload),
                        ),
                        EnumExtendEnum::Nil => Seq::empty(),
                        EnumExtendEnum::ListAB => self.list_ab_vec@.map_values(
                            |payload: (i32, u32)| Enum::ListAB(payload),
                        ),
                        EnumExtendEnum::Detail => self.detail_vec@.map_values(
                            |payload: Detail| Enum::Detail(payload),
                        ),
                    },
            ),
        }
    }
}

impl<I: Index, G: Generation + Copy + Default> Default for EnumIdArena<I, G> {
    /// An empty arena that carries the stamp `G::default()`.
    fn default() -> (arena: Self)
        ensures
            arena@.wf(),
            call_ensures(G::default, (), arena@.generation),
            arena@.offsets == Seq::<I>::empty(),
            arena@.tags == Seq::<EnumExtendEnum>::empty(),
            arena@.pools == Map::total(|tag: EnumExtendEnum| Seq::<Enum>::empty()),
    {
        let arena = EnumIdArena {
            table: OffsetTable::new(G::default()),
            value_vec: Pool::new(),
            list_ab_vec: Pool::new(),
            detail_vec: Pool::new(),
            tags: Ghost(Seq::empty()),
        };
        assert(arena@.pools =~~= Map::total(|tag: EnumExtendEnum| Seq::<Enum>::empty()));
        arena
    }
}

impl<I: Index, G: Generation + Copy> EnumIdArena<I, G> {
    /// The number of allocations since the last `clear`.
    pub fn len(&self) -> (n: usize)
        ensures
            n == self@.offsets.len(),
    {
        self.table.len()
    }

    /// Empties the arena and moves on to the next stamp, so that no handle
    /// issued so far is accepted any more (unless the stamp never advances).
    pub fn clear(&mut self)
        requires
            !old(self)@.generation.exhausted(),
        ensures
            final(self)@ == old(self)@.cleared(),
            final(self)@.wf(),
    {
        self.table.clear();
        self.value_vec.clear();
        self.list_ab_vec.clear();
        self.detail_vec.clear();
        self.tags = Ghost(Seq::empty());
        proof {
            assert(self@ =~~= old(self)@.cleared());
            old(self)@.lemma_wf_after_clear();
        }
    }

    /// Allocates a `Value` that holds `val`.
    pub fn alloc_value(&mut self, val: i32) -> (id: EnumId<I, G>)
        ensures
            final(self)@ == old(self)@.with(Enum::Value(val)),
            old(self)@.wf() ==> final(self)@.wf(),
            id == old(self)@.next_id(EnumExtendEnum::Value),
    {
        let at = self.value_vec.push(val);
        let (index, generation) = self.table.push(at);
        self.tags = Ghost(self.tags@.push(EnumExtendEnum::Value));
        proof {
            self.table.lemma_len_bounded();
            assert(self@ =~~= old(self)@.with(Enum::Value(val)));
            if old(self)@.wf() {
                old(self)@.lemma_wf_after_allocation(Enum::Value(val));
            }
        }
        (EnumExtendEnum::Value, index, generation)
    }

    /// Allocates a `Nil`.
    pub fn alloc_nil(&mut self) -> (id: EnumId<I, G>)
        ensures
            final(self)@ == old(self)@.with(Enum::Nil),
            old(self)@.wf() ==> final(self)@.wf(),
            id == old(self)@.next_id(EnumExtendEnum::Nil),
    {
        let (index, generation) = self.table.push(0);
        self.tags = Ghost(self.tags@.push(EnumExtendEnum::Nil));
        proof {
            self.table.lemma_len_bounded();
            assert(self@ =~~= old(self)@.with(Enum::Nil));
            if old(self)@.wf() {
                old(self)@.lemma_wf_after_allocation(Enum::Nil);
            }
        }
        (EnumExtendEnum::Nil, index, generation)
    }

    /// Allocates a `ListAB` that holds `val`.
    pub fn alloc_list_ab(&mut self, val: (i32, u32)) -> (id: EnumId<I, G>)
        ensures
            final(self)@ == old(self)@.with(Enum::ListAB(val)),
            old(self)@.wf() ==> final(self)@.wf(),
            id == old(self)@.next_id(EnumExtendEnum::ListAB),
    {
        let at = self.list_ab_vec.push(val);
        let (index, generation) = self.table.push(at);
        self.tags = Ghost(self.tags@.push(EnumExtendEnum::ListAB));
        proof {
            self.table.lemma_len_bounded();
            assert(self@ =~~= old(self)@.with(Enum::ListAB(val)));
            if old(self)@.wf() {
                old(self)@.lemma_wf_after_allocation(Enum::ListAB(val));
            }
        }
        (EnumExtendEnum::ListAB, index, generation)
    }

    /// Allocates a `Detail` that holds `val`.
    pub fn alloc_detail(&mut self, val: Detail) -> (id: EnumId<I, G>)
        ensures
            final(self)@ == old(self)@.with(Enum::Detail(val)),
            old(self)@.wf() ==> final(self)@.wf(),
            id == old(self)@.next_id(EnumExtendEnum::Detail),
    {
        let at = self.detail_vec.push(val);
        let (index, generation) = self.table.push(at);
        self.tags = Ghost(self.tags@.push(EnumExtendEnum::Detail));
        proof {
            self.table.lemma_len_bounded();
            assert(self@ =~~= old(self)@.with(Enum::Detail(val)));
            if old(self)@.wf() {
                old(self)@.lemma_wf_after_allocation(Enum::Detail(val));
            }
        }
        (EnumExtendEnum::Detail, index, generation)
    }

    /// Allocates `val` as the variant that it is.
    pub fn allocate(&mut self, val: Enum) -> (id: EnumId<I, G>)
        ensures
            final(self)@ == old(self)@.with(val),
            old(self)@.wf() ==> final(self)@.wf(),
            id == old(self)@.next_id(val.tag()),
    {
        match val {
            Enum::Value(val) => self.alloc_value(val),
            Enum::Nil => self.alloc_nil(),
            Enum::ListAB(val) => self.alloc_list_ab(val),
            Enum::Detail(val) => self.alloc_detail(val),
        }
    }

    /// Replaces the value that `id` leads to by `val`, which must be of the
    /// variant that `id` was allocated as. A refused update changes nothing.
    pub fn update(&mut self, id: EnumId<I, G>, val: Enum) -> (done: Option<()>)
        ensures
            done == if old(self)@.accepts(id, val) {
                Some(())
            } else {
                None
            },
            final(self)@ == old(self)@.updated(id, val),
            old(self)@.wf() ==> final(self)@.wf(),
    {
        proof {
            if self@.wf() {
                self@.lemma_wf_after_update(id, val);
            }
        }
        let (ty, index, generation) = id;
        let at = self.table.resolve(index, generation)?;
        match val {
            Enum::Value(val) => {
                if ty != EnumExtendEnum::Value {
                    return None;
                }
                if !self.value_vec.set(at, val) {
                    return None;
                }
            },
            Enum::Nil => {
                if ty != EnumExtendEnum::Nil {
                    return None;
                }
            },
            Enum::ListAB(val) => {
                if ty != EnumExtendEnum::ListAB {
                    return None;
                }
                if !self.list_ab_vec.set(at, val) {
                    return None;
                }
            },
            Enum::Detail(val) => {
                if ty != EnumExtendEnum::Detail {
                    return None;
                }
                if !self.detail_vec.set(at, val) {
                    return None;
                }
            },
        }
        assert(self@ =~~= old(self)@.updated(id, val));
        Some(())
    }

    /// The variant that `id` was allocated as.
    pub fn ty(&self, id: EnumId<I, G>) -> (tag: EnumExtendEnum)
        ensures
            tag == id.0,
    {
        id.0
    }

    /// The `Value` payload that `id` leads to.
    pub fn get_value(&self, id: EnumId<I, G>) -> (found: Option<&i32>)
        ensures
            found == match self@.find(id, EnumExtendEnum::Value) {
                Some(Enum::Value(payload)) => Some(&payload),
                _ => None,
            },
    {
        let (ty, index, generation) = id;
        let at = self.table.resolve(index, generation)?;
        if let EnumExtendEnum::Value = ty {
            return self.value_vec.get(at);
        }
        None
    }

    /// Exclusive access to the `Value` payload that `id` leads to. What the
    /// caller leaves there is what the arena holds afterwards.
    pub fn get_value_mut(&mut self, id: EnumId<I, G>) -> (found: Option<&mut i32>)
        ensures
            match found {
                Some(payload) => {
                    &&& old(self)@.find(id, EnumExtendEnum::Value) == Some(Enum::Value(*payload))
                    &&& final(self)@ =~~= old(self)@.rewritten(id, Enum::Value(*final(payload)))
                },
                None => {
                    &&& old(self)@.find(id, EnumExtendEnum::Value) is None
                    &&& final(self)@ == old(self)@
                },
            },
            old(self)@.wf() ==> final(self)@.wf(),
    {
        let (ty, index, generation) = id;
        let at = self.table.resolve(index, generation)?;
        if let EnumExtendEnum::Value = ty {
            proof {
                assert(self@.pools[EnumExtendEnum::Value].len() == self.value_vec@.len());
                if self@.wf() {
                    self@.lemma_wf_after_rewrite(id);
                }
            }
            return self.value_vec.get_mut(at);
        }
        None
    }

    /// The `ListAB` payload that `id` leads to.
    pub fn get_list_ab(&self, id: EnumId<I, G>) -> (found: Option<&(i32, u32)>)
        ensures
            found == match self@.find(id, EnumExtendEnum::ListAB) {
                Some(Enum::ListAB(payload)) => Some(&payload),
                _ => None,
            },
    {
        let (ty, index, generation) = id;
        let at = self.table.resolve(index, generation)?;
        if let EnumExtendEnum::ListAB = ty {
            return self.list_ab_vec.get(at);
        }
        None
    }

    /// Exclusive access to the `ListAB` payload that `id` leads to. What the
    /// caller leaves there is what the arena holds afterwards.
    pub fn get_list_ab_mut(&mut self, id: EnumId<I, G>) -> (found: Option<&mut (i32, u32)>)
        ensures
            match found {
                Some(payload) => {
                    &&& old(self)@.find(id, EnumExtendEnum::ListAB) == Some(Enum::ListAB(*payload))
                    &&& final(self)@ =~~= old(self)@.rewritten(id, Enum::ListAB(*final(payload)))
                },
                None => {
                    &&& old(self)@.find(id, EnumExtendEnum::ListAB) is None
                    &&& final(self)@ == old(self)@
                },
            },
            old(self)@.wf() ==> final(self)@.wf(),
    {
        let (ty, index, generation) = id;
        let at = self.table.resolve(index, generation)?;
        if let EnumExtendEnum::ListAB = ty {
            proof {
                assert(self@.pools[EnumExtendEnum::ListAB].len() == self.list_ab_vec@.len());
                if self@.wf() {
                    self@.lemma_wf_after_rewrite(id);
                }
            }
            return self.list_ab_vec.get_mut(at);
        }
        None
    }

    /// The `Detail` payload that `id` leads to.
    pub fn get_detail(&self, id: EnumId<I, G>) -> (found: Option<&Detail>)
        ensures
            found == match self@.find(id, EnumExtendEnum::Detail) {
                Some(Enum::Detail(payload)) => Some(&payload),
                _ => None,
            },
    {
        let (ty, index, generation) = id;
        let at = self.table.resolve(index, generation)?;
        if let EnumExtendEnum::Detail = ty {
            return self.detail_vec.get(at);
        }
        None
    }

    /// Exclusive access to the `Detail` payload that `id` leads to. What the
    /// caller leaves there is what the arena holds afterwards.
    pub fn get_detail_mut(&mut self, id: EnumId<I, G>) -> (found: Option<&mut Detail>)
        ensures
            match found {
                Some(payload) => {
                    &&& old(self)@.find(id, EnumExtendEnum::Detail) == Some(Enum::Detail(*payload))
                    &&& final(self)@ =~~= old(self)@.rewritten(id, Enum::Detail(*final(payload)))
                },
                None => {
                    &&& old(self)@.find(id, EnumExtendEnum::Detail) is None
                    &&& final(self)@ == old(self)@
                },
            },
            old(self)@.wf() ==> final(self)@.wf(),
    {
        let (ty, index, generation) = id;
        let at = self.table.resolve(index, generation)?;
        if let EnumExtendEnum::Detail = ty {
            proof {
                assert(self@.pools[EnumExtendEnum::Detail].len() == self.detail_vec@.len());
                if self@.wf() {
                    self@.lemma_wf_after_rewrite(id);
                }
            }
            return self.detail_vec.get_mut(at);
        }
        None
    }
}

impl<I: Index, G: Generation + Copy> EnumIdArena<I, G> {
    /// A copy of the value that `id` leads to.
    pub fn get(&self, id: EnumId<I, G>) -> (found: Option<Enum>)
        ensures
            found == self@.lookup(id),
    {
        let (ty, index, generation) = id;
        let at = self.table.resolve(index, generation)?;
        match ty {
            EnumExtendEnum::Value => match self.value_vec.get(at) {
                Some(payload) => Some(Enum::Value(*payload)),
                None => None,
            },
            EnumExtendEnum::Nil => if at == 0 {
                Some(Enum::Nil)
            } else {
                None
            },
            EnumExtendEnum::ListAB => match self.list_ab_vec.get(at) {
                Some(payload) => Some(Enum::ListAB(*payload)),
                None => None,
            },
            EnumExtendEnum::Detail => match self.detail_vec.get(at) {
                Some(payload) => Some(Enum::Detail(payload.clone())),
                None => None,
            },
        }
    }
}

} // verus!
