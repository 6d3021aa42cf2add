//! Runs of events and drains, and what holds of the counters after them.

use vstd::prelude::*;
use std::time::Instant;
use crate::event::{InputEvent, Tally};
use crate::state::StateModel;

verus! {

/// An event together with the instant at which it arrived.
pub ghost struct Stamped {
    pub event: InputEvent,
    pub at: Instant,
}

/// One access to the counters: the listener applies an event, or the heartbeat
/// drains.
pub ghost enum Access {
    Event(Stamped),
    Drain,
}

/// What a run of accesses has led to: the state it left, and the sum of all the
/// snapshots that its drains handed out.
pub ghost struct Ledger {
    pub state: StateModel,
    pub handed_out: Tally,
}

/// The sum of what the events of `log` add to the counters.
pub open spec fn tally_of(log: Seq<Stamped>) -> Tally
    decreases log.len(),
{
    if log.len() == 0 {
        Tally::zero()
    } else {
        tally_of(log.drop_last()).plus(log.last().event.tally())
    }
}

/// The state after the events of `log`, applied in order to `start`.
pub open spec fn run(start: StateModel, log: Seq<Stamped>) -> StateModel
    decreases log.len(),
{
    if log.len() == 0 {
        start
    } else {
        run(start, log.drop_last()).apply(log.last().event, log.last().at)
    }
}

/// How many events of `log` are key presses.
pub open spec fn key_presses(log: Seq<Stamped>) -> nat {
    log.filter(|s: Stamped| s.event is KeyPress).len()
}

/// How many events of `log` are button presses.
pub open spec fn button_presses(log: Seq<Stamped>) -> nat {
    log.filter(|s: Stamped| s.event is ButtonPress).len()
}

/// How many events of `log` are pointer moves.
pub open spec fn pointer_moves(log: Seq<Stamped>) -> nat {
    log.filter(|s: Stamped| s.event is MouseMove).len()
}

/// The sum of the horizontal and of the vertical wheel magnitudes of `log`.
pub open spec fn wheel_travel(log: Seq<Stamped>) -> (nat, nat)
    decreases log.len(),
{
    if log.len() == 0 {
        (0, 0)
    } else {
        let before = wheel_travel(log.drop_last());
        match log.last().event {
            InputEvent::Wheel { delta_x, delta_y } => (
                before.0 + crate::event::magnitude(delta_x),
                before.1 + crate::event::magnitude(delta_y),
            ),
            _ => before,
        }
    }
}

/// The sum of what the events among `accesses` add to the counters.
pub open spec fn offered(accesses: Seq<Access>) -> Tally
    decreases accesses.len(),
{
    if accesses.len() == 0 {
        Tally::zero()
    } else {
        let before = offered(accesses.drop_last());
        match accesses.last() {
            Access::Event(s) => before.plus(s.event.tally()),
            Access::Drain => before,
        }
    }
}

/// The ledger after `accesses`, performed one after the other from `start`.
pub open spec fn play(start: StateModel, accesses: Seq<Access>) -> Ledger
    decreases accesses.len(),
{
    if accesses.len() == 0 {
        Ledger { state: start, handed_out: Tally::zero() }
    } else {
        let before = play(start, accesses.drop_last());
        match accesses.last() {
            Access::Event(s) => Ledger {
                state: before.state.apply(s.event, s.at),
                handed_out: before.handed_out,
            },
            Access::Drain => Ledger {
                state: before.state.drained(),
                handed_out: before.handed_out.plus(before.state.tally),
            },
        }
    }
}

/// A run of events adds to the counters exactly the sum of what each event
/// adds. After a drain the counters are therefore that sum itself, and with no
/// event at all they are zero and the instant of the last activity is the one
/// from before the drain.
pub proof fn lemma_run_counts(start: StateModel, log: Seq<Stamped>)
    ensures
        run(start, log).tally == start.tally.plus(tally_of(log)),
        run(start.drained(), log).tally == tally_of(log),
        run(start.drained(), Seq::<Stamped>::empty()).tally == Tally::zero(),
        run(start.drained(), Seq::<Stamped>::empty()).last_activity == start.last_activity,
    decreases log.len(),
{
    if log.len() > 0 {
        lemma_run_counts(start, log.drop_last());
        lemma_run_counts(start.drained(), log.drop_last());
    }
}

/// The sum of a run, kind by kind: presses are the key presses, clicks the
/// button presses, both pointer counts the number of moves, and the scroll
/// counts the sums of the absolute wheel deltas.
pub proof fn lemma_tally_by_kind(log: Seq<Stamped>)
    ensures
        tally_of(log).presses == key_presses(log),
        tally_of(log).clicks == button_presses(log),
        tally_of(log).delta_x == pointer_moves(log),
        tally_of(log).delta_y == pointer_moves(log),
        tally_of(log).scroll_x == wheel_travel(log).0,
        tally_of(log).scroll_y == wheel_travel(log).1,
    decreases log.len(),
{
    let keys = |s: Stamped| s.event is KeyPress;
    let buttons = |s: Stamped| s.event is ButtonPress;
    let moves = |s: Stamped| s.event is MouseMove;
    if log.len() == 0 {
        assert(log.filter(keys).len() == 0 && log.filter(buttons).len() == 0 && log.filter(
            moves,
        ).len() == 0) by {
            reveal(Seq::filter);
        }
    } else {
        lemma_tally_by_kind(log.drop_last());
        assert(log.filter(keys).len() == log.drop_last().filter(keys).len() + (if keys(
            log.last(),
        ) {
            1nat
        } else {
            0nat
        })) by {
            reveal(Seq::filter);
        }
        assert(log.filter(buttons).len() == log.drop_last().filter(buttons).len() + (if buttons(
            log.last(),
        ) {
            1nat
        } else {
            0nat
        })) by {
            reveal(Seq::filter);
        }
        assert(log.filter(moves).len() == log.drop_last().filter(moves).len() + (if moves(
            log.last(),
        ) {
            1nat
        } else {
            0nat
        })) by {
            reveal(Seq::filter);
        }
    }
}

/// A drain that follows a drain with no event between them hands out zero
/// counters, and changes nothing: the first has already taken everything.
pub proof fn lemma_second_drain_is_empty(state: StateModel)
    ensures
        state.drained().tally == Tally::zero(),
        state.drained().drained() == state.drained(),
        state.drained().last_activity == state.last_activity,
{
}

/// A run in which no event is counted leaves the whole state as it was, the
/// instant of the last activity included.
pub proof fn lemma_ignored_events_change_nothing(start: StateModel, log: Seq<Stamped>)
    requires
        forall|i: int| 0 <= i < log.len() ==> !(#[trigger] log[i]).event.counted(),
    ensures
        run(start, log) == start,
    decreases log.len(),
{
    if log.len() > 0 {
        let front = log.drop_last();
        assert forall|i: int| 0 <= i < front.len() implies !(#[trigger] front[i]).event.counted() by {
            assert(front[i] == log[i]);
        }
        lemma_ignored_events_change_nothing(start, front);
        assert(log.last() == log[log.len() - 1]);
    }
}

/// After a run, the instant of the last activity is the arrival of the last
/// counted event of the run; so where it differs from the one before the run,
/// the run holds a counted event.
pub proof fn lemma_last_activity(start: StateModel, log: Seq<Stamped>)
    ensures
        forall|i: int|
            0 <= i < log.len() && (#[trigger] log[i]).event.counted() && (forall|j: int|
                i < j < log.len() ==> !(#[trigger] log[j]).event.counted()) ==> run(
                start,
                log,
            ).last_activity == log[i].at,
        run(start, log).last_activity != start.last_activity ==> exists|i: int|
            0 <= i < log.len() && (#[trigger] log[i]).event.counted(),
    decreases log.len(),
{
    if log.len() > 0 {
        let front = log.drop_last();
        let end = log.len() - 1;
        lemma_last_activity(start, front);
        assert(log.last() == log[end]);
        assert forall|i: int|
            0 <= i < log.len() && (#[trigger] log[i]).event.counted() && (forall|j: int|
                i < j < log.len() ==> !(#[trigger] log[j]).event.counted()) implies run(
            start,
            log,
        ).last_activity == log[i].at by {
            if i < end {
                assert(!log[end].event.counted());
                assert(front[i] == log[i]);
                assert forall|j: int| i < j < front.len() implies !(#[trigger] front[j]).event.counted() by {
                    assert(front[j] == log[j]);
                }
            }
        }
        if run(start, log).last_activity != start.last_activity {
            if log[end].event.counted() {
            } else {
                let i = choose|i: int| 0 <= i < front.len() && (#[trigger] front[i]).event.counted();
                assert(front[i] == log[i]);
            }
        }
    }
}

/// Whatever the order in which events and drains reach the counters, nothing is
/// lost and nothing counted twice: what the drains handed out, together with
/// what the counters still hold, is what they held at the start plus the sum of
/// all the events.
pub proof fn lemma_nothing_lost(start: StateModel, accesses: Seq<Access>)
    ensures
        play(start, accesses).handed_out.plus(play(start, accesses).state.tally)
            == start.tally.plus(offered(accesses)),
    decreases accesses.len(),
{
    if accesses.len() > 0 {
        lemma_nothing_lost(start, accesses.drop_last());
    }
}

} // verus!
