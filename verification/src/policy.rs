//! Numeric policies: the integer types an arena uses for its offsets and for
//! its generation stamp.

use vstd::prelude::*;

verus! {

/// An integer type that can stand for a position in an offset table or a pool.
pub trait Index: Copy {
    /// The position that `self` stands for.
    spec fn position(self) -> usize;

    /// The value that `from_usize` yields for `s`. Positions too large for the
    /// type wrap around.
    spec fn of_position(s: usize) -> Self;

    /// Whether `s` survives the conversion to `Self` and back unchanged.
    spec fn representable(s: usize) -> bool;

    /// The position that `self` stands for.
    fn to_usize(self) -> (s: usize)
        ensures
            s == self.position(),
    ;

    /// The value that stands for position `s`, which wraps around where `s`
    /// is too large for the type.
    fn from_usize(s: usize) -> (i: Self)
        ensures
            i == Self::of_position(s),
    ;

    /// A representable position is recovered exactly.
    proof fn lemma_round_trip(s: usize)
        requires
            Self::representable(s),
        ensures
            Self::of_position(s).position() == s,
    ;

    /// Converting a position never yields a larger one.
    proof fn lemma_never_grows(s: usize)
        ensures
            Self::of_position(s).position() <= s,
    ;

    /// The representable positions are an initial segment of the naturals.
    proof fn lemma_initial_segment(a: usize, b: usize)
        requires
            a <= b,
            Self::representable(b),
        ensures
            Self::representable(a),
    ;
}

impl Index for u8 {
    open spec fn position(self) -> usize {
        self as usize
    }

    open spec fn of_position(s: usize) -> u8 {
        ((s as int) % 0x100) as u8
    }

    open spec fn representable(s: usize) -> bool {
        s <= u8::MAX
    }

    fn to_usize(self) -> (s: usize) {
        self as usize
    }

    fn from_usize(s: usize) -> (i: u8) {
        let wide: u64 = s as u64;
        assert(wide as u8 == (wide % 0x100) as u8) by (bit_vector);
        #[verifier::truncate]
        (s as u8)
    }

    proof fn lemma_round_trip(s: usize) {
    }

    proof fn lemma_never_grows(s: usize) {
    }

    proof fn lemma_initial_segment(a: usize, b: usize) {
    }
}

impl Index for u16 {
    open spec fn position(self) -> usize {
        self as usize
    }

    open spec fn of_position(s: usize) -> u16 {
        ((s as int) % 0x1_0000) as u16
    }

    open spec fn representable(s: usize) -> bool {
        s <= u16::MAX
    }

    fn to_usize(self) -> (s: usize) {
        self as usize
    }

    fn from_usize(s: usize) -> (i: u16) {
        let wide: u64 = s as u64;
        assert(wide as u16 == (wide % 0x1_0000) as u16) by (bit_vector);
        #[verifier::truncate]
        (s as u16)
    }

    proof fn lemma_round_trip(s: usize) {
    }

    proof fn lemma_never_grows(s: usize) {
    }

    proof fn lemma_initial_segment(a: usize, b: usize) {
    }
}

impl Index for u32 {
    open spec fn position(self) -> usize {
        self as usize
    }

    open spec fn of_position(s: usize) -> u32 {
        ((s as int) % 0x1_0000_0000) as u32
    }

    open spec fn representable(s: usize) -> bool {
        s <= u32::MAX
    }

    fn to_usize(self) -> (s: usize) {
        self as usize
    }

    fn from_usize(s: usize) -> (i: u32) {
        let wide: u64 = s as u64;
        assert(wide as u32 == (wide % 0x1_0000_0000) as u32) by (bit_vector);
        #[verifier::truncate]
        (s as u32)
    }

    proof fn lemma_round_trip(s: usize) {
    }

    proof fn lemma_never_grows(s: usize) {
    }

    proof fn lemma_initial_segment(a: usize, b: usize) {
    }
}

impl Index for u64 {
    /// On a target whose `usize` is narrower than 64 bits the high bits are
    /// dropped, as `as` does.
    open spec fn position(self) -> usize {
        self as usize
    }

    open spec fn of_position(s: usize) -> u64 {
        s as u64
    }

    open spec fn representable(s: usize) -> bool {
        true
    }

    fn to_usize(self) -> (s: usize) {
        #[verifier::truncate]
        (self as usize)
    }

    fn from_usize(s: usize) -> (i: u64) {
        s as u64
    }

    proof fn lemma_round_trip(s: usize) {
    }

    proof fn lemma_never_grows(s: usize) {
    }

    proof fn lemma_initial_segment(a: usize, b: usize) {
    }
}

/// A stamp that tells the handles issued before a `clear` from those issued
/// after it.
///
/// A policy either advances, in which case every `add` yields a stamp that no
/// earlier `add` has yielded, or it stands still, in which case `add` leaves
/// the stamp as it is and no handle is ever outdated. An arena copies its stamp
/// into every handle, so it asks for `Copy` on top of this trait.
pub trait Generation: PartialEq + Eq + Sized {
    /// Whether `add` changes the stamp at all.
    spec fn advancing() -> bool;

    /// How many times an advancing stamp has been advanced from zero.
    spec fn ordinal(self) -> nat;

    /// Whether the stamp has run out of fresh values.
    spec fn exhausted(self) -> bool;

    /// The stamp that follows `self`.
    spec fn successor(self) -> Self;

    /// Moves on to the next stamp. A stamp that has run out has none.
    fn add(&mut self)
        requires
            !old(self).exhausted(),
        ensures
            *final(self) == old(self).successor(),
    ;

    /// Whether two stamps are the same stamp.
    fn same(&self, other: &Self) -> (alike: bool)
        ensures
            alike == (*self == *other),
    ;

    /// An advancing stamp counts up by one.
    proof fn lemma_successor(g: Self)
        requires
            !g.exhausted(),
        ensures
            Self::advancing() ==> g.successor().ordinal() == g.ordinal() + 1,
            !Self::advancing() ==> g.successor() == g,
    ;
}

impl Generation for u8 {
    open spec fn advancing() -> bool {
        true
    }

    open spec fn ordinal(self) -> nat {
        self as nat
    }

    open spec fn exhausted(self) -> bool {
        self == u8::MAX
    }

    open spec fn successor(self) -> u8 {
        (self + 1) as u8
    }

    fn add(&mut self) {
        *self += 1;
    }

    fn same(&self, other: &u8) -> (alike: bool) {
        *self == *other
    }

    proof fn lemma_successor(g: u8) {
    }
}

impl Generation for u16 {
    open spec fn advancing() -> bool {
        true
    }

    open spec fn ordinal(self) -> nat {
        self as nat
    }

    open spec fn exhausted(self) -> bool {
        self == u16::MAX
    }

    open spec fn successor(self) -> u16 {
        (self + 1) as u16
    }

    fn add(&mut self) {
        *self += 1;
    }

    fn same(&self, other: &u16) -> (alike: bool) {
        *self == *other
    }

    proof fn lemma_successor(g: u16) {
    }
}

impl Generation for u32 {
    open spec fn advancing() -> bool {
        true
    }

    open spec fn ordinal(self) -> nat {
        self as nat
    }

    open spec fn exhausted(self) -> bool {
        self == u32::MAX
    }

    open spec fn successor(self) -> u32 {
        (self + 1) as u32
    }

    fn add(&mut self) {
        *self += 1;
    }

    fn same(&self, other: &u32) -> (alike: bool) {
        *self == *other
    }

    proof fn lemma_successor(g: u32) {
    }
}

impl Generation for u64 {
    open spec fn advancing() -> bool {
        true
    }

    open spec fn ordinal(self) -> nat {
        self as nat
    }

    open spec fn exhausted(self) -> bool {
        self == u64::MAX
    }

    open spec fn successor(self) -> u64 {
        (self + 1) as u64
    }

    fn add(&mut self) {
        *self += 1;
    }

    fn same(&self, other: &u64) -> (alike: bool) {
        *self == *other
    }

    proof fn lemma_successor(g: u64) {
    }
}

/// The policy that never advances: an arena stamped with it keeps honouring
/// the handles it issued before a `clear`.
impl Generation for () {
    open spec fn advancing() -> bool {
        false
    }

    open spec fn ordinal(self) -> nat {
        0
    }

    open spec fn exhausted(self) -> bool {
        false
    }

    open spec fn successor(self) -> () {
        ()
    }

    fn add(&mut self) {
    }

    fn same(&self, other: &()) -> (alike: bool) {
        true
    }

    proof fn lemma_successor(g: ()) {
    }
}

} // verus!
