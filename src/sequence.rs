//! What repeated calls on one generator produce, stated over positions.
use vstd::prelude::*;
use crate::serial::{Serial, next_position};
use crate::serial_generator::{previous_position, pull_output, pull_step};

verus! {

/// The position of a generator that started at `p` after `n` calls of
/// `generate`, when the greatest position is `max`.
pub open spec fn position_after(p: nat, max: nat, n: nat) -> nat
    decreases n,
{
    if n == 0 {
        p
    } else {
        next_position(position_after(p, max, (n - 1) as nat), max)
    }
}

/// Starting at or below `max`, `n` calls advance by `n` until they reach `max`.
pub proof fn lemma_position_after_closed_form(p: nat, max: nat, n: nat)
    requires
        p <= max,
    ensures
        position_after(p, max, n) == if p + n <= max { (p + n) as nat } else { max },
    decreases n,
{
    if n > 0 {
        lemma_position_after_closed_form(p, max, (n - 1) as nat);
    }
}

/// From `START`, the call numbered `n` (counting from zero) returns the value
/// at position `n`, for every `n` up to the maximum.
pub proof fn lemma_counts_up_from_start<T: Serial>(n: nat)
    requires
        n <= T::max_position(),
    ensures
        position_after(T::START.position(), T::max_position(), n) == n,
{
    T::lemma_start();
    lemma_position_after_closed_form(0, T::max_position(), n);
}

/// Once a generator is at its maximum, every later call leaves it there, so
/// every later `generate` returns the maximum.
pub proof fn lemma_saturation_is_permanent(max: nat, n: nat)
    ensures
        position_after(max, max, n) == max,
{
    lemma_position_after_closed_form(max, max, n);
}

/// Two different calls on one generator return the same value only if that
/// value is the maximum.
pub proof fn lemma_outputs_distinct_below_max(p: nat, max: nat, i: nat, j: nat)
    requires
        p <= max,
        i < j,
        position_after(p, max, i) == position_after(p, max, j),
    ensures
        position_after(p, max, i) == max,
{
    lemma_position_after_closed_form(p, max, i);
    lemma_position_after_closed_form(p, max, j);
}

/// The state of a sequence that started in state `s` after `k` pulls.
pub open spec fn sequence_after(s: (nat, bool), max: nat, k: nat) -> (nat, bool)
    decreases k,
{
    if k == 0 {
        s
    } else {
        pull_step(sequence_after(s, max, (k - 1) as nat), max)
    }
}

/// A sequence made from a generator at `p` advances one position per pull
/// until it has yielded `max`, and then stays ended.
pub proof fn lemma_sequence_after_closed_form(p: nat, max: nat, k: nat)
    requires
        p <= max,
    ensures
        sequence_after((p, false), max, k) == if p + k <= max {
            ((p + k) as nat, false)
        } else {
            (max, true)
        },
    decreases k,
{
    if k > 0 {
        lemma_sequence_after_closed_form(p, max, (k - 1) as nat);
    }
}

/// A sequence made from a generator at `p` yields every position from `p` up
/// to and including `max`, in order and once each, and then nothing.
pub proof fn lemma_sequence_yields_through_max(p: nat, max: nat, k: nat)
    requires
        p <= max,
    ensures
        pull_output(sequence_after((p, false), max, k)) == if p + k <= max {
            Some((p + k) as nat)
        } else {
            None::<nat>
        },
{
    lemma_sequence_after_closed_form(p, max, k);
}

/// Driven as a sequence from `START`, a generator yields every value of its
/// type once, in order, the maximum last: exactly `max_position() + 1`
/// elements.
pub proof fn lemma_sequence_from_start<T: Serial>(k: nat)
    ensures
        pull_output(sequence_after((T::START.position(), false), T::max_position(), k))
            == if k <= T::max_position() { Some(k) } else { None::<nat> },
{
    T::lemma_start();
    lemma_sequence_yields_through_max(0, T::max_position(), k);
}

/// A generator started at a value below the maximum gives that value back
/// from `previous` after one call of `generate`.
pub proof fn lemma_generate_then_previous(v: nat, max: nat)
    requires
        v < max,
    ensures
        previous_position(next_position(v, max)) == Some(v),
{
}

} // verus!
