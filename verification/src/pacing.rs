//! The length of a period and of the slices in which its remainder is slept.

use vstd::prelude::*;

verus! {

/// Nanoseconds in a second.
pub const NANOS_PER_SECOND: u128 = 1_000_000_000;

/// The longest single sleep, in nanoseconds: a tenth of a second.
pub const SLICE_NANOS: u128 = 100_000_000;

/// The length in nanoseconds of a period of `interval_secs` seconds.
pub open spec fn period_nanos(interval_secs: u64) -> nat {
    interval_secs as nat * 1_000_000_000
}

/// What is left of the period once `elapsed_nanos` of it are spent: `Some` where
/// the period is not over yet, `None` where it is.
pub open spec fn time_left(elapsed_nanos: u128, interval_secs: u64) -> Option<nat> {
    if elapsed_nanos < period_nanos(interval_secs) {
        Some((period_nanos(interval_secs) - elapsed_nanos) as nat)
    } else {
        None
    }
}

/// The next sleep when `remaining` is left: a whole slice, or all that is left
/// where that is less.
pub open spec fn slice_of(remaining: nat) -> nat {
    if remaining > 100_000_000 {
        100_000_000
    } else {
        remaining
    }
}

/// The sleeps that use up `remaining`, in order, while nothing interrupts them.
pub open spec fn slices(remaining: nat) -> Seq<nat>
    decreases remaining,
{
    if remaining == 0 {
        Seq::empty()
    } else {
        seq![slice_of(remaining)] + slices((remaining - slice_of(remaining)) as nat)
    }
}

/// The sum of the numbers of `lengths`.
pub open spec fn total(lengths: Seq<nat>) -> nat
    decreases lengths.len(),
{
    if lengths.len() == 0 {
        0
    } else {
        lengths[0] + total(lengths.subrange(1, lengths.len() as int))
    }
}

/// The length in nanoseconds of a period of `interval_secs` seconds.
pub fn period(interval_secs: u64) -> (nanos: u128)
    ensures
        nanos == period_nanos(interval_secs),
{
    let secs: u128 = interval_secs as u128;
    assert(secs * 1_000_000_000 <= 0xffff_ffff_ffff_ffff * 1_000_000_000) by (nonlinear_arith)
        requires
            secs <= 0xffff_ffff_ffff_ffff,
    ;
    secs * NANOS_PER_SECOND
}

/// How long to sleep after an iteration that took `elapsed_nanos`: the rest of
/// the period, or `None` where the iteration took the whole period or more.
pub fn remaining_sleep(elapsed_nanos: u128, interval_secs: u64) -> (left: Option<u128>)
    ensures
        left is Some <==> time_left(elapsed_nanos, interval_secs) is Some,
        left is Some ==> left.unwrap() == time_left(elapsed_nanos, interval_secs).unwrap(),
{
    let whole: u128 = period(interval_secs);
    if elapsed_nanos < whole {
        Some(whole - elapsed_nanos)
    } else {
        None
    }
}

/// The next sleep when `remaining` is left.
pub fn next_slice(remaining: u128) -> (nanos: u128)
    ensures
        nanos == slice_of(remaining as nat),
        nanos <= SLICE_NANOS,
        nanos <= remaining,
        remaining > 0 ==> nanos > 0,
{
    if remaining > SLICE_NANOS {
        SLICE_NANOS
    } else {
        remaining
    }
}

/// The sleeps that use up a remainder are each longer than nothing and no
/// longer than a slice, they add up to the remainder exactly, and there are as
/// few of them as slices of that length allow.
pub proof fn lemma_slices_cover(remaining: nat)
    ensures
        total(slices(remaining)) == remaining,
        forall|i: int|
            0 <= i < slices(remaining).len() ==> 0 < #[trigger] slices(remaining)[i]
                <= SLICE_NANOS,
        slices(remaining).len() == (remaining + SLICE_NANOS - 1) / (SLICE_NANOS as int),
    decreases remaining,
{
    if remaining > 0 {
        let first = slice_of(remaining);
        let rest = slices((remaining - first) as nat);
        lemma_slices_cover((remaining - first) as nat);
        let all = slices(remaining);
        assert(all == seq![first] + rest);
        assert(all.subrange(1, all.len() as int) =~= rest);
        assert forall|i: int| 0 <= i < all.len() implies 0 < #[trigger] all[i] <= SLICE_NANOS by {
            if i > 0 {
                assert(all[i] == rest[i - 1]);
            }
        }
    }
}

} // verus!
