//! An arena for a sum type with one variant without payload, one with a
//! payload of the caller's choosing and one with a fixed payload.

use vstd::prelude::*;
use crate::model::{ArenaModel, SumType};
use crate::policy::{Generation, Index};
use crate::pool::Pool;
use crate::table::OffsetTable;

verus! {

/// The sum type whose values the arena stores.
#[derive(PartialEq, Debug)]
pub enum Mock<'a, T> {
    Mock1,
    Mock2(T),
    Mock3((i8, u64, &'a str)),
}

/// The variants of [`Mock`] without their payloads: the tag of a handle.
#[derive(Clone, Copy, Debug, Eq, PartialEq, Hash, Structural)]
pub enum MockExtendEnum {
    Mock1,
    Mock2,
    Mock3,
}

/// A handle: the variant it was allocated as, its logical offset, and the
/// stamp of the arena at the time.
pub type MockId<I, G> = (MockExtendEnum, I, G);

impl<'a, T> SumType for Mock<'a, T> {
    type Tag = MockExtendEnum;

    open spec fn tag(self) -> MockExtendEnum {
        match self {
            Mock::Mock1 => MockExtendEnum::Mock1,
            Mock::Mock2(_) => MockExtendEnum::Mock2,
            Mock::Mock3(_) => MockExtendEnum::Mock3,
        }
    }

    open spec fn unit(tag: MockExtendEnum) -> Option<Self> {
        match tag {
            MockExtendEnum::Mock1 => Some(Mock::Mock1),
            MockExtendEnum::Mock2 => None,
            MockExtendEnum::Mock3 => None,
        }
    }

    proof fn lemma_unit_is_alone(self) {
    }

    proof fn lemma_unit_is_tagged(tag: MockExtendEnum) {
    }
}

/// Stores values of [`Mock`] and hands out [`MockId`] handles to them.
///
/// `I` is the integer type of the offsets (`u8`, `u16`, `u32` or `u64`), `G`
/// that of the stamp (one of those, or `()` for an arena whose handles outlive
/// `clear`).
pub struct MockIdArena<'a, T, I, G> {
    table: OffsetTable<I, G>,
    mock2_vec: Pool<T>,
    mock3_vec: Pool<(i8, u64, &'a str)>,
    tags: Ghost<Seq<MockExtendEnum>>,
}

impl<'a, T, I, G> View for MockIdArena<'a, T, I, G> {
    type V = ArenaModel<Mock<'a, T>, I, G>;

    closed spec fn view(&self) -> ArenaModel<Mock<'a, T>, I, G> {
        ArenaModel {
            generation: self.table.generation(),
            offsets: self.table@,
            tags: self.tags@,
            pools: Map::total(
                |tag: MockExtendEnum|
                    match tag {
                        MockExtendEnum::Mock1 => Seq::empty(),
                        MockExtendEnum::Mock2 => self.mock2_vec@.map_values(
                            |payload: T| Mock::Mock2(payload),
                        ),
                        MockExtendEnum::Mock3 => self.mock3_vec@.map_values(
                            |payload: (i8, u64, &'a str)| Mock::Mock3(payload),
                        ),
                    },
            ),
        }
    }
}

impl<'a, T, I: Index, G: Generation + Copy + Default> Default for MockIdArena<'a, T, I, G> {
    /// An empty arena that carries the stamp `G::default()`.
    fn default() -> (arena: Self)
        ensures
            arena@.wf(),
            call_ensures(G::default, (), arena@.generation),
            arena@.offsets == Seq::<I>::empty(),
            arena@.tags == Seq::<MockExtendEnum>::empty(),
            arena@.pools == Map::total(|tag: MockExtendEnum| Seq::<Mock<'a, T>>::empty()),
    {
        let arena = MockIdArena {
            table: OffsetTable::new(G::default()),
            mock2_vec: Pool::new(),
            mock3_vec: Pool::new(),
            tags: Ghost(Seq::empty()),
        };
        assert(arena@.pools =~~= Map::total(|tag: MockExtendEnum| Seq::<Mock<'a, T>>::empty()));
        arena
    }
}

impl<'a, T, I: Index, G: Generation + Copy> MockIdArena<'a, T, I, G> {
    /// The number of allocations since the last `clear`.
    pub fn len(&self) -> (n: usize)
        ensures
            n == self@.offsets.len(),
    {
        self.table.len()
    }

    /// Empties the arena and moves on to the next stamp, so that no handle
    /// issued so far is accepted any more (unless the stamp never advances).
    pub fn clear(&mut self)
        requires
            !old(self)@.generation.exhausted(),
        ensures
            final(self)@ == old(self)@.cleared(),
            final(self)@.wf(),
    {
        self.table.clear();
        self.mock2_vec.clear();
        self.mock3_vec.clear();
        self.tags = Ghost(Seq::empty());
        proof {
            assert(self@ =~~= old(self)@.cleared());
            old(self)@.lemma_wf_after_clear();
        }
    }

    /// Allocates a `Mock1`.
    pub fn alloc_mock1(&mut self) -> (id: MockId<I, G>)
        ensures
            final(self)@ == old(self)@.with(Mock::Mock1),
            old(self)@.wf() ==> final(self)@.wf(),
            id == old(self)@.next_id(MockExtendEnum::Mock1),
    {
        let (index, generation) = self.table.push(0);
        self.tags = Ghost(self.tags@.push(MockExtendEnum::Mock1));
        proof {
            self.table.lemma_len_bounded();
            assert(self@ =~~= old(self)@.with(Mock::Mock1));
            if old(self)@.wf() {
                old(self)@.lemma_wf_after_allocation(Mock::Mock1);
            }
        }
        (MockExtendEnum::Mock1, index, generation)
    }

    /// Allocates a `Mock2` that holds `val`.
    pub fn alloc_mock2(&mut self, val: T) -> (id: MockId<I, G>)
        ensures
            final(self)@ == old(self)@.with(Mock::Mock2(val)),
            old(self)@.wf() ==> final(self)@.wf(),
            id == old(self)@.next_id(MockExtendEnum::Mock2),
    {
        let at = self.mock2_vec.push(val);
        let (index, generation) = self.table.push(at);
        self.tags = Ghost(self.tags@.push(MockExtendEnum::Mock2));
        proof {
            self.table.lemma_len_bounded();
            assert(self@ =~~= old(self)@.with(Mock::Mock2(val)));
            if old(self)@.wf() {
                old(self)@.lemma_wf_after_allocation(Mock::Mock2(val));
            }
        }
        (MockExtendEnum::Mock2, index, generation)
    }

    /// Allocates a `Mock3` that holds `val`.
    pub fn alloc_mock3(&mut self, val: (i8, u64, &'a str)) -> (id: MockId<I, G>)
        ensures
            final(self)@ == old(self)@.with(Mock::Mock3(val)),
            old(self)@.wf() ==> final(self)@.wf(),
            id == old(self)@.next_id(MockExtendEnum::Mock3),
    {
        let at = self.mock3_vec.push(val);
        let (index, generation) = self.table.push(at);
        self.tags = Ghost(self.tags@.push(MockExtendEnum::Mock3));
        proof {
            self.table.lemma_len_bounded();
            assert(self@ =~~= old(self)@.with(Mock::Mock3(val)));
            if old(self)@.wf() {
                old(self)@.lemma_wf_after_allocation(Mock::Mock3(val));
            }
        }
        (MockExtendEnum::Mock3, index, generation)
    }

    /// Allocates `val` as the variant that it is.
    pub fn allocate(&mut self, val: Mock<'a, T>) -> (id: MockId<I, G>)
        ensures
            final(self)@ == old(self)@.with(val),
            old(self)@.wf() ==> final(self)@.wf(),
            id == old(self)@.next_id(val.tag()),
    {
        match val {
            Mock::Mock1 => self.alloc_mock1(),
            Mock::Mock2(val) => self.alloc_mock2(val),
            Mock::Mock3(val) => self.alloc_mock3(val),
        }
    }

    /// Replaces the value that `id` leads to by `val`, which must be of the
    /// variant that `id` was allocated as. A refused update changes nothing.
    pub fn update(&mut self, id: MockId<I, G>, val: Mock<'a, T>) -> (done: Option<()>)
        ensures
            done == if old(self)@.accepts(id, val) {
                Some(())
            } else {
                None
            },
            final(self)@ == old(self)@.updated(id, val),
            old(self)@.wf() ==> final(self)@.wf(),
    {
        proof {
            if self@.wf() {
                self@.lemma_wf_after_update(id, val);
            }
        }
        let (ty, index, generation) = id;
        let at = self.table.resolve(index, generation)?;
        match val {
            Mock::Mock1 => {
                if ty != MockExtendEnum::Mock1 {
                    return None;
                }
            },
            Mock::Mock2(val) => {
                if ty != MockExtendEnum::Mock2 {
                    return None;
                }
                if !self.mock2_vec.set(at, val) {
                    return None;
                }
            },
            Mock::Mock3(val) => {
                if ty != MockExtendEnum::Mock3 {
                    return None;
                }
                if !self.mock3_vec.set(at, val) {
                    return None;
                }
            },
        }
        assert(self@ =~~= old(self)@.updated(id, val));
        Some(())
    }

    /// The variant that `id` was allocated as.
    pub fn ty(&self, id: MockId<I, G>) -> (tag: MockExtendEnum)
        ensures
            tag == id.0,
    {
        id.0
    }

    /// The `Mock2` payload that `id` leads to.
    pub fn get_mock2(&self, id: MockId<I, G>) -> (found: Option<&T>)
        ensures
            found == match self@.find(id, MockExtendEnum::Mock2) {
                Some(Mock::Mock2(payload)) => Some(&payload),
                _ => None,
            },
    {
        let (ty, index, generation) = id;
        let at = self.table.resolve(index, generation)?;
        if let MockExtendEnum::Mock2 = ty {
            return self.mock2_vec.get(at);
        }
        None
    }

    /// Exclusive access to the `Mock2` payload that `id` leads to. What the
    /// caller leaves there is what the arena holds afterwards.
    pub fn get_mock2_mut(&mut self, id: MockId<I, G>) -> (found: Option<&mut T>)
        ensures
            match found {
                Some(payload) => {
                    &&& old(self)@.find(id, MockExtendEnum::Mock2) == Some(
                        Mock::<T>::Mock2(*payload),
                    )
                    &&& final(self)@ =~~= old(self)@.rewritten(id, Mock::Mock2(*final(payload)))
                },
                None => {
                    &&& old(self)@.find(id, MockExtendEnum::Mock2) is None
                    &&& final(self)@ == old(self)@
                },
            },
            old(self)@.wf() ==> final(self)@.wf(),
    {
        let (ty, index, generation) = id;
        let at = self.table.resolve(index, generation)?;
        if let MockExtendEnum::Mock2 = ty {
            proof {
                assert(self@.pools[MockExtendEnum::Mock2].len() == self.mock2_vec@.len());
                if self@.wf() {
                    self@.lemma_wf_after_rewrite(id);
                }
            }
            return self.mock2_vec.get_mut(at);
        }
        None
    }

    /// The `Mock3` payload that `id` leads to.
    pub fn get_mock3(&self, id: MockId<I, G>) -> (found: Option<&(i8, u64, &'a str)>)
        ensures
            found == match self@.find(id, MockExtendEnum::Mock3) {
                Some(Mock::Mock3(payload)) => Some(&payload),
                _ => None,
            },
    {
        let (ty, index, generation) = id;
        let at = self.table.resolve(index, generation)?;
        if let MockExtendEnum::Mock3 = ty {
            return self.mock3_vec.get(at);
        }
        None
    }

    /// Exclusive access to the `Mock3` payload that `id` leads to. What the
    /// caller leaves there is what the arena holds afterwards.
    pub fn get_mock3_mut(&mut self, id: MockId<I, G>) -> (found: Option<&mut (i8, u64, &'a str)>)
        ensures
            match found {
                Some(payload) => {
                    &&& old(self)@.find(id, MockExtendEnum::Mock3) == Some(
                        Mock::<T>::Mock3(*payload),
                    )
                    &&& final(self)@ =~~= old(self)@.rewritten(id, Mock::Mock3(*final(payload)))
                },
                None => {
                    &&& old(self)@.find(id, MockExtendEnum::Mock3) is None
                    &&& final(self)@ == old(self)@
                },
            },
            old(self)@.wf() ==> final(self)@.wf(),
    {
        let (ty, index, generation) = id;
        let at = self.table.resolve(index, generation)?;
        if let MockExtendEnum::Mock3 = ty {
            proof {
                assert(self@.pools[MockExtendEnum::Mock3].len() == self.mock3_vec@.len());
                if self@.wf() {
                    self@.lemma_wf_after_rewrite(id);
                }
            }
            return self.mock3_vec.get_mut(at);
        }
        None
    }
}

impl<'a, T: Clone, I: Index, G: Generation + Copy> MockIdArena<'a, T, I, G> {
    /// A copy of the value that `id` leads to. The payload of a `Mock2` is
    /// whatever `T::clone` makes of the stored one.
    pub fn get(&self, id: MockId<I, G>) -> (found: Option<Mock<'a, T>>)
        ensures
            match self@.lookup(id) {
                Some(Mock::Mock2(stored)) => {
                    &&& found matches Some(Mock::Mock2(copy))
                    &&& cloned(stored, copy)
                },
                other => found == other,
            },
    {
        let (ty, index, generation) = id;
        let at = self.table.resolve(index, generation)?;
        match ty {
            MockExtendEnum::Mock1 => if at == 0 {
                Some(Mock::Mock1)
            } else {
                None
            },
            MockExtendEnum::Mock2 => match self.mock2_vec.get(at) {
                Some(payload) => Some(Mock::Mock2(payload.clone())),
                None => None,
            },
            MockExtendEnum::Mock3 => match self.mock3_vec.get(at) {
                Some(payload) => Some(Mock::Mock3(*payload)),
                None => None,
            },
        }
    }
}

} // verus!
