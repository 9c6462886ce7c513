use vstd::prelude::*;
use vstd::std_specs::convert::FromSpec;
use vstd::std_specs::convert::FromSpecImpl;
use crate::serial::{Serial, next_position};

verus! {

/// A utility for generating instances of a given [Serial] type.
///
/// The generator holds the next value it will hand out. Its view is the
/// position of that value.
#[derive(Clone, Copy, Debug, PartialEq, Eq, PartialOrd, Ord, Hash)]
pub struct SerialGenerator<T: Serial = u32> {
    value: T,
}

/// The previous position, if `p` is not the start.
pub open spec fn previous_position(p: nat) -> Option<nat> {
    if p == 0 {
        None
    } else {
        Some((p - 1) as nat)
    }
}

/// What one pull of a sequence in state `s` yields: the position of the
/// generator, unless the sequence has ended.
pub open spec fn pull_output(s: (nat, bool)) -> Option<nat> {
    if s.1 {
        None
    } else {
        Some(s.0)
    }
}

/// The state of a sequence after one pull in state `s`: the generator
/// advances as `generate` does, and the sequence ends once it has yielded
/// the maximum.
pub open spec fn pull_step(s: (nat, bool), max: nat) -> (nat, bool) {
    if s.1 {
        s
    } else {
        (next_position(s.0, max), s.0 == max)
    }
}

/// The position of an optional value, if there is one.
pub open spec fn position_of<T: Serial>(o: Option<T>) -> Option<nat> {
    match o {
        Some(v) => Some(v.position()),
        None => None,
    }
}

impl<T: Serial> View for SerialGenerator<T> {
    type V = nat;

    closed spec fn view(&self) -> nat {
        self.value.position()
    }
}

impl<T: Serial> SerialGenerator<T> {
    /// Create a new generator at [Serial::START].
    pub fn new() -> (r: Self)
        ensures
            r@ == 0,
    {
        Self::default()
    }

    /// Create a new generator with the given value.
    ///
    /// [Serial::START] is always considered the first value. If this method is
    /// used with a greater value, [previous](Self::previous) may give an
    /// unexpected answer because the "previous" value is calculated, not
    /// recorded.
    pub fn with_init_value(value: T) -> (r: Self)
        ensures
            r@ == value.position(),
    {
        SerialGenerator { value }
    }

    /// Every generator is at or below the maximum position.
    pub proof fn lemma_bounded(&self)
        ensures
            self@ <= T::max_position(),
    {
        T::lemma_position(self.value, self.value);
    }

    /// Generate a new instance of the generator's [Serial] type: return the
    /// current value and advance to the next, saturating at the maximum.
    pub fn generate(&mut self) -> (r: T)
        ensures
            r.position() == old(self)@,
            final(self)@ == next_position(old(self)@, T::max_position()),
    {
        let current = self.value;
        let next = current.next_increment();
        self.value = next;
        current
    }

    /// Return the previously generated value.
    ///
    /// This method returns None if the current value is [Serial::START].
    ///
    /// The return value is calculated, not recorded. If the highest possible
    /// value has been reached, this method still returns one less than that
    /// value. To check that unique values can still be generated, use
    /// [is_at_max](Self::is_at_max).
    pub fn previous(&self) -> (r: Option<T>)
        ensures
            position_of(r) == previous_position(self@),
    {
        proof {
            T::lemma_start();
            T::lemma_position(self.value, T::START);
        }
        if self.value == T::START {
            None
        } else {
            Some(self.value.prev_increment())
        }
    }

    /// Return the number of unique values that can still be generated by this
    /// generator.
    pub fn remaining_increments(&self) -> (r: T)
        ensures
            r.position() == T::max_position() - self@,
    {
        self.value.remaining_increments()
    }

    /// Return whether the generator has reached the maximum value, so that
    /// unique values can no longer be generated.
    pub fn is_at_max(&self) -> (r: bool)
        ensures
            r == (self@ == T::max_position()),
    {
        self.value.is_max_value()
    }

    /// Alias of [Self::is_at_max], kept for older callers; prefer
    /// `is_at_max`.
    pub fn has_remaining_increments(&self) -> (r: bool)
        ensures
            r == (self@ == T::max_position()),
    {
        self.is_at_max()
    }

    /// Turn the generator into a finite sequence that yields each value from
    /// the current one up to and including the maximum, once each.
    pub fn into_sequence(self) -> (r: SerialSequence<T>)
        ensures
            r@ == (self@, false),
    {
        SerialSequence { generator: self, done: false }
    }

    /// A textual representation of the generator, the same as its `Debug`
    /// text.
    #[verifier::external_body]
    pub fn to_string(&self) -> String
        where
            T: std::fmt::Debug,
    {
        format!("{:?}", self)
    }
}

/// A generator driven as a lazy, finite sequence.
///
/// Unlike [SerialGenerator::generate], which keeps returning the maximum once
/// it is reached, the sequence yields the maximum once and then ends. Its view
/// is the position of the generator and whether the sequence has ended.
pub struct SerialSequence<T: Serial = u32> {
    generator: SerialGenerator<T>,
    done: bool,
}

impl<T: Serial> View for SerialSequence<T> {
    type V = (nat, bool);

    closed spec fn view(&self) -> (nat, bool) {
        (self.generator@, self.done)
    }
}

impl<T: Serial> SerialSequence<T> {
    /// Pull the next element: the generator's next value, or None once the
    /// maximum has been yielded.
    pub fn next(&mut self) -> (r: Option<T>)
        ensures
            position_of(r) == pull_output(old(self)@),
            final(self)@ == pull_step(old(self)@, T::max_position()),
    {
        if self.done {
            None
        } else {
            let at_max = self.generator.is_at_max();
            let value = self.generator.generate();
            self.done = at_max;
            Some(value)
        }
    }

    /// Whether the sequence has ended.
    pub fn is_done(&self) -> (r: bool)
        ensures
            r == self@.1,
    {
        self.done
    }
}

impl<T: Serial> Default for SerialGenerator<T> {
    fn default() -> (r: Self)
        ensures
            r@ == 0,
    {
        proof {
            T::lemma_start();
        }
        SerialGenerator { value: T::START }
    }
}

impl<T: Serial, U: Serial + From<T>> From<T> for SerialGenerator<U> {
    fn from(other: T) -> (r: Self)
        ensures
            U::obeys_from_spec() ==> r@ == U::from_spec(other).position(),
    {
        SerialGenerator { value: U::from(other) }
    }
}

impl<T: Serial, U: Serial + From<T>> FromSpecImpl<T> for SerialGenerator<U> {
    open spec fn obeys_from_spec() -> bool {
        U::obeys_from_spec()
    }

    closed spec fn from_spec(v: T) -> Self {
        SerialGenerator { value: U::from_spec(v) }
    }
}

} // verus!
