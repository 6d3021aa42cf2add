//! Counting of input activity between heartbeats: what each input notification
//! adds to the counters, how the counters are drained once per period, and how
//! the reporting loop paces itself and reacts to shutdown.

pub mod cadence;
pub mod clock;
pub mod event;
pub mod heartbeat;
pub mod history;
pub mod pacing;
pub mod settings;
pub mod shutdown;
pub mod state;
