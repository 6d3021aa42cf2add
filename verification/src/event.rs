//! Input notifications and what each of them adds to the counters.

use vstd::prelude::*;

verus! {

/// One notification of the capture subsystem, reduced to what the counters read.
#[derive(Clone, Copy, Debug, PartialEq, Eq, Structural)]
pub enum InputEvent {
    /// A key went down.
    KeyPress,
    /// A key came up.
    KeyRelease,
    /// A pointer button went down.
    ButtonPress,
    /// A pointer button came up.
    ButtonRelease,
    /// The pointer moved; by how much is not counted.
    MouseMove,
    /// The wheel turned by the signed deltas.
    Wheel { delta_x: i64, delta_y: i64 },
    /// Any notification of a kind not listed above.
    Other,
}

/// Six counts as mathematical numbers: the model of the counters and of what an
/// event adds to them.
pub ghost struct Tally {
    pub presses: nat,
    pub clicks: nat,
    pub delta_x: nat,
    pub delta_y: nat,
    pub scroll_x: nat,
    pub scroll_y: nat,
}

impl Tally {
    /// All six counts zero.
    pub open spec fn zero() -> Tally {
        Tally { presses: 0, clicks: 0, delta_x: 0, delta_y: 0, scroll_x: 0, scroll_y: 0 }
    }

    /// The field-wise sum.
    pub open spec fn plus(self, other: Tally) -> Tally {
        Tally {
            presses: self.presses + other.presses,
            clicks: self.clicks + other.clicks,
            delta_x: self.delta_x + other.delta_x,
            delta_y: self.delta_y + other.delta_y,
            scroll_x: self.scroll_x + other.scroll_x,
            scroll_y: self.scroll_y + other.scroll_y,
        }
    }

    /// Every count fits an unsigned 64-bit counter.
    pub open spec fn fits(self) -> bool {
        &&& self.presses <= u64::MAX
        &&& self.clicks <= u64::MAX
        &&& self.delta_x <= u64::MAX
        &&& self.delta_y <= u64::MAX
        &&& self.scroll_x <= u64::MAX
        &&& self.scroll_y <= u64::MAX
    }
}

/// What one counted event adds to each counter.
#[derive(Clone, Copy, Debug, PartialEq, Eq, Structural)]
pub struct Increment {
    pub presses: u64,
    pub clicks: u64,
    pub delta_x: u64,
    pub delta_y: u64,
    pub scroll_x: u64,
    pub scroll_y: u64,
}

impl View for Increment {
    type V = Tally;

    open spec fn view(&self) -> Tally {
        Tally {
            presses: self.presses as nat,
            clicks: self.clicks as nat,
            delta_x: self.delta_x as nat,
            delta_y: self.delta_y as nat,
            scroll_x: self.scroll_x as nat,
            scroll_y: self.scroll_y as nat,
        }
    }
}

/// The absolute value of a wheel delta.
pub open spec fn magnitude(delta: i64) -> nat {
    if delta < 0 {
        (-delta) as nat
    } else {
        delta as nat
    }
}

/// The absolute value of `delta` as an unsigned number; the most negative
/// delta has one too.
pub fn unsigned_magnitude(delta: i64) -> (m: u64)
    ensures
        m == magnitude(delta),
{
    if delta >= 0 {
        delta as u64
    } else {
        let below: i64 = -(delta + 1);
        (below as u64) + 1
    }
}

impl InputEvent {
    /// Whether the event is of a kind that changes the counters and marks
    /// activity: a key or button going down, a pointer move, a wheel turn.
    pub open spec fn counted(self) -> bool {
        self is KeyPress || self is ButtonPress || self is MouseMove || self is Wheel
    }

    /// What the event adds to the counters: one press for a key going down, one
    /// click for a button going down, one to each pointer count for a move of
    /// any size, the absolute deltas for a wheel turn, and nothing otherwise.
    pub open spec fn tally(self) -> Tally {
        match self {
            InputEvent::KeyPress => Tally { presses: 1, ..Tally::zero() },
            InputEvent::ButtonPress => Tally { clicks: 1, ..Tally::zero() },
            InputEvent::MouseMove => Tally { delta_x: 1, delta_y: 1, ..Tally::zero() },
            InputEvent::Wheel { delta_x, delta_y } => Tally {
                scroll_x: magnitude(delta_x),
                scroll_y: magnitude(delta_y),
                ..Tally::zero()
            },
            _ => Tally::zero(),
        }
    }

    /// Whether the event changes the counters.
    pub fn is_counted(&self) -> (counted: bool)
        ensures
            counted == self.counted(),
    {
        match self {
            InputEvent::KeyPress => true,
            InputEvent::ButtonPress => true,
            InputEvent::MouseMove => true,
            InputEvent::Wheel { .. } => true,
            _ => false,
        }
    }

    /// Classifies the event: `Some` with what it adds to the counters where it
    /// is counted, `None` where it is ignored.
    pub fn classify(&self) -> (added: Option<Increment>)
        ensures
            added is Some <==> self.counted(),
            added is Some ==> added.unwrap()@ == self.tally(),
    {
        let none = Increment {
            presses: 0,
            clicks: 0,
            delta_x: 0,
            delta_y: 0,
            scroll_x: 0,
            scroll_y: 0,
        };
        match self {
            InputEvent::KeyPress => Some(Increment { presses: 1, ..none }),
            InputEvent::ButtonPress => Some(Increment { clicks: 1, ..none }),
            InputEvent::MouseMove => Some(Increment { delta_x: 1, delta_y: 1, ..none }),
            InputEvent::Wheel { delta_x, delta_y } => Some(
                Increment {
                    scroll_x: unsigned_magnitude(*delta_x),
                    scroll_y: unsigned_magnitude(*delta_y),
                    ..none
                },
            ),
            _ => None,
        }
    }
}

} // verus!
