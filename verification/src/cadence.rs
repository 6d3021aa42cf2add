//! The heartbeat loop as a state machine: the caller does the outside work
//! (reads the running flag, drains and sends, sleeps) and the machine decides
//! what comes next.

use vstd::prelude::*;
use crate::pacing::{
    next_slice, period_nanos, remaining_sleep, slice_of, slices, time_left, SLICE_NANOS,
};

verus! {

/// Where the loop stands.
#[derive(Clone, Copy, Debug, PartialEq, Eq, Structural)]
pub enum Phase {
    /// Between two periods: the next one has not begun.
    Idle,
    /// A period has begun; its heartbeat is being drained, built and sent.
    Reporting,
    /// The heartbeat is out and this many nanoseconds of the period are left.
    Sleeping { remaining: u128 },
    /// The loop has ended and starts no period again.
    Stopped,
}

/// What the caller reports back to the machine.
#[derive(Clone, Copy, Debug, PartialEq, Eq, Structural)]
pub enum LoopEvent {
    /// The running flag, as just read.
    Flag { running: bool },
    /// The heartbeat was handed to the reporting interface, which took it or
    /// failed; the iteration has taken this long so far.
    Reported { delivered: bool, elapsed_nanos: u128 },
}

/// What the caller is to do next.
#[derive(Clone, Copy, Debug, PartialEq, Eq, Structural)]
pub enum LoopAction {
    /// Begin a period: drain the counters, build the heartbeat, send it, and
    /// come back with `Reported`.
    Beat,
    /// The period has time left. Log the failure if there was one, read the
    /// flag and come back with `Flag`.
    Rest { log_failure: bool },
    /// The iteration took the whole period or more: warn of the missed period,
    /// log the failure if there was one, read the flag and come back with
    /// `Flag`. Nothing is slept and nothing caught up.
    Overrun { log_failure: bool },
    /// Sleep this long, then read the flag and come back with `Flag`.
    Sleep { nanos: u128 },
    /// Leave the loop.
    Stop,
    /// The event does not belong to the phase; nothing has changed.
    Rejected,
}

/// The phase and the action that follow from a phase and an event, for a period
/// of `interval_secs` seconds.
pub open spec fn transition(phase: Phase, interval_secs: u64, event: LoopEvent) -> (
    Phase,
    LoopAction,
) {
    match (phase, event) {
        (Phase::Stopped, _) => (Phase::Stopped, LoopAction::Stop),
        (Phase::Idle, LoopEvent::Flag { running }) => if running {
            (Phase::Reporting, LoopAction::Beat)
        } else {
            (Phase::Stopped, LoopAction::Stop)
        },
        (Phase::Reporting, LoopEvent::Reported { delivered, elapsed_nanos }) => match time_left(
            elapsed_nanos,
            interval_secs,
        ) {
            Some(left) => (
                Phase::Sleeping { remaining: left as u128 },
                LoopAction::Rest { log_failure: !delivered },
            ),
            None => (Phase::Idle, LoopAction::Overrun { log_failure: !delivered }),
        },
        (Phase::Sleeping { remaining }, LoopEvent::Flag { running }) => if !running {
            (Phase::Stopped, LoopAction::Stop)
        } else if remaining > 0 {
            (
                Phase::Sleeping { remaining: (remaining - slice_of(remaining as nat)) as u128 },
                LoopAction::Sleep { nanos: slice_of(remaining as nat) as u128 },
            )
        } else {
            (Phase::Reporting, LoopAction::Beat)
        },
        _ => (phase, LoopAction::Rejected),
    }
}

/// The heartbeat loop's controller for one polling interval.
#[derive(Clone, Copy, Debug)]
pub struct HeartbeatLoop {
    pub interval_secs: u64,
    pub phase: Phase,
}

impl HeartbeatLoop {
    /// No more is left to sleep than a period is long.
    pub open spec fn wf(self) -> bool {
        match self.phase {
            Phase::Sleeping { remaining } => remaining <= period_nanos(self.interval_secs),
            _ => true,
        }
    }

    /// A controller between periods, for periods of `interval_secs` seconds.
    pub fn new(interval_secs: u64) -> (control: HeartbeatLoop)
        ensures
            control.interval_secs == interval_secs,
            control.phase == Phase::Idle,
            control.wf(),
    {
        HeartbeatLoop { interval_secs, phase: Phase::Idle }
    }

    /// Whether the loop has ended.
    pub fn is_stopped(&self) -> (stopped: bool)
        ensures
            stopped == (self.phase == Phase::Stopped),
    {
        match self.phase {
            Phase::Stopped => true,
            _ => false,
        }
    }

    /// Takes one event and says what to do next.
    pub fn step(&mut self, event: LoopEvent) -> (action: LoopAction)
        ensures
            (final(self).phase, action) == transition(
                old(self).phase,
                old(self).interval_secs,
                event,
            ),
            final(self).interval_secs == old(self).interval_secs,
            old(self).wf() ==> final(self).wf(),
            action matches LoopAction::Sleep { nanos } ==> 0 < nanos <= SLICE_NANOS,
    {
        match (self.phase, event) {
            (Phase::Stopped, _) => LoopAction::Stop,
            (Phase::Idle, LoopEvent::Flag { running }) => {
                if running {
                    self.phase = Phase::Reporting;
                    LoopAction::Beat
                } else {
                    self.phase = Phase::Stopped;
                    LoopAction::Stop
                }
            },
            (Phase::Reporting, LoopEvent::Reported { delivered, elapsed_nanos }) => {
                match remaining_sleep(elapsed_nanos, self.interval_secs) {
                    Some(left) => {
                        self.phase = Phase::Sleeping { remaining: left };
                        LoopAction::Rest { log_failure: !delivered }
                    },
                    None => {
                        self.phase = Phase::Idle;
                        LoopAction::Overrun { log_failure: !delivered }
                    },
                }
            },
            (Phase::Sleeping { remaining }, LoopEvent::Flag { running }) => {
                if !running {
                    self.phase = Phase::Stopped;
                    LoopAction::Stop
                } else if remaining > 0 {
                    let nanos: u128 = next_slice(remaining);
                    self.phase = Phase::Sleeping { remaining: remaining - nanos };
                    LoopAction::Sleep { nanos }
                } else {
                    self.phase = Phase::Reporting;
                    LoopAction::Beat
                }
            },
            _ => LoopAction::Rejected,
        }
    }
}

/// A lowered flag ends the loop at the next event, wherever it stands between
/// two heartbeats: no period begins and no further slice is slept, so the loop
/// is out within one slice of the signal.
pub proof fn lemma_lowered_flag_stops(phase: Phase, interval_secs: u64)
    requires
        phase != Phase::Reporting,
    ensures
        transition(phase, interval_secs, LoopEvent::Flag { running: false }) == (
            Phase::Stopped,
            LoopAction::Stop,
        ),
{
}

/// While the flag stays up, a remainder is slept one slice at a time: each
/// sleep is the next slice of what is left, what is left shrinks by it, and
/// with nothing left the next period begins.
pub proof fn lemma_sleep_by_slices(remaining: u128, interval_secs: u64)
    ensures
        remaining > 0 ==> transition(
            Phase::Sleeping { remaining },
            interval_secs,
            LoopEvent::Flag { running: true },
        ) == (
            Phase::Sleeping { remaining: (remaining - slice_of(remaining as nat)) as u128 },
            LoopAction::Sleep { nanos: slice_of(remaining as nat) as u128 },
        ),
        remaining > 0 ==> 0 < slice_of(remaining as nat) <= SLICE_NANOS && slice_of(
            remaining as nat,
        ) <= remaining,
        remaining == 0 ==> transition(
            Phase::Sleeping { remaining },
            interval_secs,
            LoopEvent::Flag { running: true },
        ) == (Phase::Reporting, LoopAction::Beat),
{
}

/// The phase that `reads` readings of a raised flag lead to from `phase`.
pub open spec fn after_raised_flags(phase: Phase, interval_secs: u64, reads: nat) -> Phase
    decreases reads,
{
    if reads == 0 {
        phase
    } else {
        after_raised_flags(
            transition(phase, interval_secs, LoopEvent::Flag { running: true }).0,
            interval_secs,
            (reads - 1) as nat,
        )
    }
}

/// With the flag up all the while, the sleeps that the loop asks for after a
/// heartbeat are the slices of the remainder, one after the other, and after
/// the last of them nothing is left to sleep.
pub proof fn lemma_uninterrupted_sleep(remaining: u128, interval_secs: u64)
    ensures
        forall|i: int|
            0 <= i < slices(remaining as nat).len() ==> transition(
                #[trigger] after_raised_flags(
                    Phase::Sleeping { remaining },
                    interval_secs,
                    i as nat,
                ),
                interval_secs,
                LoopEvent::Flag { running: true },
            ).1 == (LoopAction::Sleep { nanos: slices(remaining as nat)[i] as u128 }),
        after_raised_flags(
            Phase::Sleeping { remaining },
            interval_secs,
            slices(remaining as nat).len(),
        ) == (Phase::Sleeping { remaining: 0 }),
    decreases remaining,
{
    let start = Phase::Sleeping { remaining };
    if remaining > 0 {
        let first = slice_of(remaining as nat);
        let rest = (remaining - first) as u128;
        let next = Phase::Sleeping { remaining: rest };
        lemma_uninterrupted_sleep(rest, interval_secs);
        assert(transition(start, interval_secs, LoopEvent::Flag { running: true }).0 == next);
        assert(slices(remaining as nat) == seq![first] + slices(rest as nat));
        assert forall|i: int| 0 <= i < slices(remaining as nat).len() implies transition(
            #[trigger] after_raised_flags(start, interval_secs, i as nat),
            interval_secs,
            LoopEvent::Flag { running: true },
        ).1 == (LoopAction::Sleep { nanos: slices(remaining as nat)[i] as u128 }) by {
            if i > 0 {
                assert(after_raised_flags(start, interval_secs, i as nat) == after_raised_flags(
                    next,
                    interval_secs,
                    (i - 1) as nat,
                ));
                assert(slices(remaining as nat)[i] == slices(rest as nat)[i - 1]);
            }
        }
        assert(after_raised_flags(start, interval_secs, slices(remaining as nat).len())
            == after_raised_flags(next, interval_secs, slices(rest as nat).len()));
    }
}

/// A heartbeat that the reporting interface refused ends its period as one
/// that it took: the same phase follows, so the same remainder is slept and the
/// loop goes on; only the request to log the failure differs.
pub proof fn lemma_failed_report_goes_on(interval_secs: u64, elapsed_nanos: u128)
    ensures
        transition(
            Phase::Reporting,
            interval_secs,
            LoopEvent::Reported { delivered: false, elapsed_nanos },
        ).0 == transition(
            Phase::Reporting,
            interval_secs,
            LoopEvent::Reported { delivered: true, elapsed_nanos },
        ).0,
        transition(
            Phase::Reporting,
            interval_secs,
            LoopEvent::Reported { delivered: false, elapsed_nanos },
        ).0 != Phase::Stopped,
        transition(
            Phase::Reporting,
            interval_secs,
            LoopEvent::Reported { delivered: false, elapsed_nanos },
        ).1 == (match time_left(elapsed_nanos, interval_secs) {
            Some(_) => LoopAction::Rest { log_failure: true },
            None => LoopAction::Overrun { log_failure: true },
        }),
{
}

} // verus!
