//! The counters that the listener fills and the heartbeat drains.

use vstd::prelude::*;
use std::time::Instant;
use crate::clock::current_instant;
use crate::event::{Increment, InputEvent, Tally};

verus! {

/// The counters since the last drain, and the instant of the last counted event.
#[derive(Clone, Copy, Debug)]
pub struct InputState {
    pub presses: u64,
    pub clicks: u64,
    pub delta_x: u64,
    pub delta_y: u64,
    pub scroll_x: u64,
    pub scroll_y: u64,
    pub last_activity: Instant,
}

/// The model of an [`InputState`]: its counts as numbers and its instant.
pub ghost struct StateModel {
    pub tally: Tally,
    pub last_activity: Instant,
}

impl StateModel {
    /// The state after one event that arrived at `now`: a counted event adds its
    /// tally and moves the instant to `now`; an ignored one changes nothing.
    pub open spec fn apply(self, event: InputEvent, now: Instant) -> StateModel {
        if event.counted() {
            StateModel { tally: self.tally.plus(event.tally()), last_activity: now }
        } else {
            self
        }
    }

    /// The state that a drain leaves: all counts zero, the instant kept.
    pub open spec fn drained(self) -> StateModel {
        StateModel { tally: Tally::zero(), last_activity: self.last_activity }
    }
}

impl View for InputState {
    type V = StateModel;

    open spec fn view(&self) -> StateModel {
        StateModel {
            tally: Tally {
                presses: self.presses as nat,
                clicks: self.clicks as nat,
                delta_x: self.delta_x as nat,
                delta_y: self.delta_y as nat,
                scroll_x: self.scroll_x as nat,
                scroll_y: self.scroll_y as nat,
            },
            last_activity: self.last_activity,
        }
    }
}

impl InputState {
    /// Whether the counters can take the event without overflow.
    pub open spec fn has_room(self, event: InputEvent) -> bool {
        self@.tally.plus(event.tally()).fits()
    }

    /// A state with all counters zero whose last activity is `now`.
    pub fn new(now: Instant) -> (state: InputState)
        ensures
            state@ == (StateModel { tally: Tally::zero(), last_activity: now }),
    {
        InputState {
            presses: 0,
            clicks: 0,
            delta_x: 0,
            delta_y: 0,
            scroll_x: 0,
            scroll_y: 0,
            last_activity: now,
        }
    }

    /// Whether the counters can take the event without overflow.
    pub fn can_apply(&self, event: &InputEvent) -> (room: bool)
        ensures
            room == self.has_room(*event),
    {
        match event.classify() {
            None => true,
            Some(inc) => {
                inc.presses <= u64::MAX - self.presses && inc.clicks <= u64::MAX - self.clicks
                    && inc.delta_x <= u64::MAX - self.delta_x && inc.delta_y <= u64::MAX
                    - self.delta_y && inc.scroll_x <= u64::MAX - self.scroll_x && inc.scroll_y
                    <= u64::MAX - self.scroll_y
            },
        }
    }

    /// Applies one event that arrived at `now`; returns whether it was counted.
    pub fn apply(&mut self, event: &InputEvent, now: Instant) -> (counted: bool)
        requires
            old(self).has_room(*event),
        ensures
            final(self)@ == old(self)@.apply(*event, now),
            counted == event.counted(),
    {
        match event.classify() {
            None => false,
            Some(inc) => {
                self.add(&inc);
                self.last_activity = now;
                true
            },
        }
    }

    fn add(&mut self, inc: &Increment)
        requires
            old(self)@.tally.plus(inc@).fits(),
        ensures
            final(self)@.tally == old(self)@.tally.plus(inc@),
            final(self).last_activity == old(self).last_activity,
    {
        self.presses = self.presses + inc.presses;
        self.clicks = self.clicks + inc.clicks;
        self.delta_x = self.delta_x + inc.delta_x;
        self.delta_y = self.delta_y + inc.delta_y;
        self.scroll_x = self.scroll_x + inc.scroll_x;
        self.scroll_y = self.scroll_y + inc.scroll_y;
    }

    /// Applies the event if the counters can take it, and leaves the state as it
    /// was if they cannot: an event is counted whole or not at all.
    pub fn try_apply(&mut self, event: &InputEvent, now: Instant) -> (outcome: Recorded)
        ensures
            outcome == recorded(*old(self), *event),
            old(self).has_room(*event) ==> final(self)@ == old(self)@.apply(*event, now),
            !old(self).has_room(*event) ==> *final(self) == *old(self),
    {
        if !self.can_apply(event) {
            Recorded::Skipped
        } else if self.apply(event, now) {
            Recorded::Counted
        } else {
            Recorded::Ignored
        }
    }

    /// Hands out the state as it stands and resets the six counters to zero;
    /// the instant of the last activity stays.
    pub fn drain(&mut self) -> (snapshot: InputState)
        ensures
            snapshot == *old(self),
            final(self)@ == old(self)@.drained(),
    {
        let snapshot = *self;
        self.presses = 0;
        self.clicks = 0;
        self.delta_x = 0;
        self.delta_y = 0;
        self.scroll_x = 0;
        self.scroll_y = 0;
        snapshot
    }
}

/// Drains the counters if the lock on them was had; where it was not, the
/// snapshot is all zero, stamped with the instant of the call.
///
/// In the contract, `state` stands for the counters as they are handed in and
/// `final(state)` for what the call leaves in them.
pub fn drain_or_empty(locked: Option<&mut InputState>) -> (snapshot: InputState)
    ensures
        match locked {
            Some(state) => snapshot == *state && final(state)@ == state@.drained(),
            None => snapshot@.tally == Tally::zero(),
        },
{
    match locked {
        Some(state) => state.drain(),
        None => InputState::default(),
    }
}

/// Hands one event that arrived at `now` to the counters if the lock on them
/// was had, and drops it where it was not. An event that the counters have no
/// room for leaves them as they were.
pub fn record(locked: Option<&mut InputState>, event: &InputEvent, now: Instant) -> (outcome:
    Recorded)
    ensures
        match locked {
            Some(state) => {
                &&& outcome == recorded(*state, *event)
                &&& state.has_room(*event) ==> final(state)@ == state@.apply(*event, now)
                &&& !state.has_room(*event) ==> *final(state) == *state
            },
            None => outcome == Recorded::Dropped,
        },
{
    match locked {
        Some(state) => state.try_apply(event, now),
        None => Recorded::Dropped,
    }
}

/// What became of one event handed to the counters.
#[derive(Clone, Copy, Debug, PartialEq, Eq, Structural)]
pub enum Recorded {
    /// The event was counted and the activity instant moved.
    Counted,
    /// The event is of a kind that is not counted.
    Ignored,
    /// A counter had no room for the event; nothing changed.
    Skipped,
    /// The counters could not be reached; the event is lost.
    Dropped,
}

/// The outcome of handing `event` to a state `state`.
pub open spec fn recorded(state: InputState, event: InputEvent) -> Recorded {
    if !state.has_room(event) {
        Recorded::Skipped
    } else if event.counted() {
        Recorded::Counted
    } else {
        Recorded::Ignored
    }
}

impl Default for InputState {
    /// All counters zero; the last activity is the instant of the call.
    fn default() -> (state: InputState)
        ensures
            state@.tally == Tally::zero(),
    {
        InputState::new(current_instant())
    }
}

} // verus!
