use vstd::prelude::*;
use vstd::std_specs::cmp::PartialEqSpec;

verus! {

/// A type whose values can be handed out one after another by a generator.
///
/// Each value has a position: `START` is at position zero and the greatest
/// value at `max_position()`. Moving to the next or previous value saturates
/// at these bounds, so no value is ever reached by wrapping around.
pub trait Serial: Copy + Ord + Sized {
    /// The position of a value in the sequence of all values of the type.
    spec fn position(&self) -> nat;

    /// The position of the greatest value.
    spec fn max_position() -> nat;

    /// There is more than one value, positions stay within the bounds and
    /// identify a value, and `==` compares values as they are.
    proof fn lemma_position(a: Self, b: Self)
        ensures
            Self::max_position() > 0,
            a.position() <= Self::max_position(),
            a.position() == b.position() ==> a == b,
            Self::obeys_eq_spec(),
            a.eq_spec(&b) <==> a == b,
    ;

    /// The default initial and lowest possible value.
    const START: Self;

    /// `START` is the value at position zero.
    proof fn lemma_start()
        ensures
            Self::START.position() == 0,
    ;

    /// Return the next sequential value. Return an equal value if it is at
    /// its maximum.
    fn next_increment(&self) -> (r: Self)
        ensures
            r.position() == next_position(self.position(), Self::max_position()),
    ;

    /// Return the previous sequential value. Return an equal value if it is
    /// at its minimum.
    fn prev_increment(&self) -> (r: Self)
        ensures
            r.position() == prev_position(self.position()),
    ;

    /// Return whether the value is equal to its maximum.
    fn is_max_value(&self) -> (r: bool)
        ensures
            r == (self.position() == Self::max_position()),
    ;

    /// Return how many times the value can still be incremented before it
    /// reaches its maximum, as a value of the same type.
    fn remaining_increments(&self) -> (r: Self)
        ensures
            r.position() == Self::max_position() - self.position(),
    ;
}

/// The position after `p`, saturating at `max`.
pub open spec fn next_position(p: nat, max: nat) -> nat {
    if p < max {
        p + 1
    } else {
        p
    }
}

/// The position before `p`, saturating at zero.
pub open spec fn prev_position(p: nat) -> nat {
    if p > 0 {
        (p - 1) as nat
    } else {
        p
    }
}

impl Serial for u8 {
    open spec fn position(&self) -> nat {
        *self as nat
    }

    open spec fn max_position() -> nat {
        u8::MAX as nat
    }

    proof fn lemma_position(a: Self, b: Self) {
    }

    const START: Self = u8::MIN;

    proof fn lemma_start() {
    }

    fn next_increment(&self) -> (r: Self) {
        self.saturating_add(1)
    }

    fn prev_increment(&self) -> (r: Self) {
        self.saturating_sub(1)
    }

    fn is_max_value(&self) -> (r: bool) {
        *self == u8::MAX
    }

    fn remaining_increments(&self) -> (r: Self) {
        u8::MAX - *self
    }
}

impl Serial for u16 {
    open spec fn position(&self) -> nat {
        *self as nat
    }

    open spec fn max_position() -> nat {
        u16::MAX as nat
    }

    proof fn lemma_position(a: Self, b: Self) {
    }

    const START: Self = u16::MIN;

    proof fn lemma_start() {
    }

    fn next_increment(&self) -> (r: Self) {
        self.saturating_add(1)
    }

    fn prev_increment(&self) -> (r: Self) {
        self.saturating_sub(1)
    }

    fn is_max_value(&self) -> (r: bool) {
        *self == u16::MAX
    }

    fn remaining_increments(&self) -> (r: Self) {
        u16::MAX - *self
    }
}

impl Serial for u32 {
    open spec fn position(&self) -> nat {
        *self as nat
    }

    open spec fn max_position() -> nat {
        u32::MAX as nat
    }

    proof fn lemma_position(a: Self, b: Self) {
    }

    const START: Self = u32::MIN;

    proof fn lemma_start() {
    }

    fn next_increment(&self) -> (r: Self) {
        self.saturating_add(1)
    }

    fn prev_increment(&self) -> (r: Self) {
        self.saturating_sub(1)
    }

    fn is_max_value(&self) -> (r: bool) {
        *self == u32::MAX
    }

    fn remaining_increments(&self) -> (r: Self) {
        u32::MAX - *self
    }
}

impl Serial for u64 {
    open spec fn position(&self) -> nat {
        *self as nat
    }

    open spec fn max_position() -> nat {
        u64::MAX as nat
    }

    proof fn lemma_position(a: Self, b: Self) {
    }

    const START: Self = u64::MIN;

    proof fn lemma_start() {
    }

    fn next_increment(&self) -> (r: Self) {
        self.saturating_add(1)
    }

    fn prev_increment(&self) -> (r: Self) {
        self.saturating_sub(1)
    }

    fn is_max_value(&self) -> (r: bool) {
        *self == u64::MAX
    }

    fn remaining_increments(&self) -> (r: Self) {
        u64::MAX - *self
    }
}

impl Serial for u128 {
    open spec fn position(&self) -> nat {
        *self as nat
    }

    open spec fn max_position() -> nat {
        u128::MAX as nat
    }

    proof fn lemma_position(a: Self, b: Self) {
    }

    const START: Self = u128::MIN;

    proof fn lemma_start() {
    }

    fn next_increment(&self) -> (r: Self) {
        self.saturating_add(1)
    }

    fn prev_increment(&self) -> (r: Self) {
        self.saturating_sub(1)
    }

    fn is_max_value(&self) -> (r: bool) {
        *self == u128::MAX
    }

    fn remaining_increments(&self) -> (r: Self) {
        u128::MAX - *self
    }
}

impl Serial for usize {
    open spec fn position(&self) -> nat {
        *self as nat
    }

    open spec fn max_position() -> nat {
        usize::MAX as nat
    }

    proof fn lemma_position(a: Self, b: Self) {
    }

    const START: Self = usize::MIN;

    proof fn lemma_start() {
    }

    fn next_increment(&self) -> (r: Self) {
        self.saturating_add(1)
    }

    fn prev_increment(&self) -> (r: Self) {
        self.saturating_sub(1)
    }

    fn is_max_value(&self) -> (r: bool) {
        *self == usize::MAX
    }

    fn remaining_increments(&self) -> (r: Self) {
        usize::MAX - *self
    }
}

} // verus!
