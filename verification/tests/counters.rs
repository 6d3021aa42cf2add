use aw_watcher_input::event::{unsigned_magnitude, Increment, InputEvent};
use aw_watcher_input::state::{drain_or_empty, record, InputState, Recorded};
use std::sync::{Arc, Mutex};
use std::time::{Duration, Instant};

fn counters(state: &InputState) -> [u64; 6] {
    [
        state.presses,
        state.clicks,
        state.delta_x,
        state.delta_y,
        state.scroll_x,
        state.scroll_y,
    ]
}

#[test]
fn mixed_period_drains_exact_sums() {
    let start = Instant::now();
    let mut state = InputState::new(start);
    let mut events: Vec<InputEvent> = Vec::new();
    for _ in 0..3 {
        events.push(InputEvent::KeyPress);
    }
    for _ in 0..2 {
        events.push(InputEvent::ButtonPress);
    }
    for _ in 0..5 {
        events.push(InputEvent::MouseMove);
    }
    events.push(InputEvent::Wheel { delta_x: -4, delta_y: 7 });
    let mut at = start;
    for event in events.iter() {
        at = at + Duration::from_millis(1);
        assert!(state.can_apply(event));
        assert!(state.apply(event, at));
    }
    let snapshot = state.drain();
    assert_eq!(counters(&snapshot), [3, 2, 5, 5, 4, 7]);
    assert_eq!(snapshot.last_activity, at);
    assert_eq!(counters(&state), [0, 0, 0, 0, 0, 0]);
    assert_eq!(state.last_activity, at);
}

#[test]
fn period_without_events_drains_zero_and_keeps_instant() {
    let start = Instant::now();
    let mut state = InputState::new(start);
    let later = start + Duration::from_secs(3);
    state.apply(&InputEvent::KeyPress, later);
    let first = state.drain();
    assert_eq!(counters(&first), [1, 0, 0, 0, 0, 0]);
    let empty = state.drain();
    assert_eq!(counters(&empty), [0, 0, 0, 0, 0, 0]);
    assert_eq!(empty.last_activity, later);
    assert_eq!(state.last_activity, later);
}

#[test]
fn second_drain_in_a_row_is_all_zero() {
    let start = Instant::now();
    let mut state = InputState::new(start);
    state.apply(&InputEvent::ButtonPress, start);
    state.apply(&InputEvent::Wheel { delta_x: 2, delta_y: -3 }, start);
    let first = state.drain();
    let second = state.drain();
    assert_eq!(counters(&first), [0, 1, 0, 0, 2, 3]);
    assert_eq!(counters(&second), [0, 0, 0, 0, 0, 0]);
}

#[test]
fn ignored_kinds_change_nothing() {
    let start = Instant::now();
    let mut state = InputState::new(start);
    let later = start + Duration::from_secs(1);
    for event in [InputEvent::KeyRelease, InputEvent::ButtonRelease, InputEvent::Other] {
        assert!(!event.is_counted());
        assert_eq!(event.classify(), None);
        assert!(!state.apply(&event, later));
        assert_eq!(state.try_apply(&event, later), Recorded::Ignored);
    }
    assert_eq!(counters(&state), [0, 0, 0, 0, 0, 0]);
    assert_eq!(state.last_activity, start);
    let snapshot = state.drain();
    assert_eq!(snapshot.last_activity, start);
}

#[test]
fn counted_event_moves_the_instant() {
    let start = Instant::now();
    let mut state = InputState::new(start);
    let first = start + Duration::from_millis(10);
    let second = start + Duration::from_millis(20);
    assert_eq!(state.try_apply(&InputEvent::MouseMove, first), Recorded::Counted);
    assert_eq!(state.last_activity, first);
    state.apply(&InputEvent::KeyRelease, second);
    assert_eq!(state.last_activity, first);
    state.apply(&InputEvent::KeyPress, second);
    assert_eq!(state.last_activity, second);
}

#[test]
fn pointer_move_counts_once_on_each_axis() {
    let now = Instant::now();
    let mut state = InputState::new(now);
    state.apply(&InputEvent::MouseMove, now);
    assert_eq!(counters(&state), [0, 0, 1, 1, 0, 0]);
    assert_eq!(
        InputEvent::MouseMove.classify(),
        Some(Increment { presses: 0, clicks: 0, delta_x: 1, delta_y: 1, scroll_x: 0, scroll_y: 0 })
    );
}

#[test]
fn classify_gives_each_kind_its_increment() {
    let zero = Increment { presses: 0, clicks: 0, delta_x: 0, delta_y: 0, scroll_x: 0, scroll_y: 0 };
    assert_eq!(InputEvent::KeyPress.classify(), Some(Increment { presses: 1, ..zero }));
    assert_eq!(InputEvent::ButtonPress.classify(), Some(Increment { clicks: 1, ..zero }));
    assert_eq!(
        InputEvent::Wheel { delta_x: -4, delta_y: 7 }.classify(),
        Some(Increment { scroll_x: 4, scroll_y: 7, ..zero })
    );
    assert_eq!(
        InputEvent::Wheel { delta_x: 0, delta_y: 0 }.classify(),
        Some(zero)
    );
    assert!(InputEvent::Wheel { delta_x: 0, delta_y: 0 }.is_counted());
}

#[test]
fn magnitude_of_extreme_deltas() {
    assert_eq!(unsigned_magnitude(0), 0);
    assert_eq!(unsigned_magnitude(7), 7);
    assert_eq!(unsigned_magnitude(-4), 4);
    assert_eq!(unsigned_magnitude(i64::MAX), 9_223_372_036_854_775_807);
    assert_eq!(unsigned_magnitude(i64::MIN), 9_223_372_036_854_775_808);
}

#[test]
fn full_counter_skips_the_event_whole() {
    let start = Instant::now();
    let later = start + Duration::from_secs(1);
    let mut state = InputState::new(start);
    state.scroll_y = u64::MAX - 2;
    let event = InputEvent::Wheel { delta_x: 5, delta_y: 3 };
    assert!(!state.can_apply(&event));
    assert_eq!(state.try_apply(&event, later), Recorded::Skipped);
    assert_eq!(counters(&state), [0, 0, 0, 0, 0, u64::MAX - 2]);
    assert_eq!(state.last_activity, start);
    let fits = InputEvent::Wheel { delta_x: 5, delta_y: 2 };
    assert!(state.can_apply(&fits));
    assert_eq!(state.try_apply(&fits, later), Recorded::Counted);
    assert_eq!(counters(&state), [0, 0, 0, 0, 5, u64::MAX]);
    assert_eq!(state.last_activity, later);
    assert!(state.can_apply(&InputEvent::KeyRelease));
}

#[test]
fn interleaved_events_and_drains_lose_nothing() {
    let now = Instant::now();
    let mut state = InputState::new(now);
    let mut handed_out = [0u64; 6];
    let mut offered = [0u64; 6];
    for round in 0..50u64 {
        let event = match round % 5 {
            0 => InputEvent::KeyPress,
            1 => InputEvent::ButtonPress,
            2 => InputEvent::MouseMove,
            3 => InputEvent::Wheel { delta_x: -(round as i64), delta_y: round as i64 },
            _ => InputEvent::KeyRelease,
        };
        if let Some(inc) = event.classify() {
            let added = [inc.presses, inc.clicks, inc.delta_x, inc.delta_y, inc.scroll_x, inc.scroll_y];
            for i in 0..6 {
                offered[i] += added[i];
            }
        }
        state.apply(&event, now);
        if round % 7 == 3 {
            let snapshot = counters(&state.drain());
            for i in 0..6 {
                handed_out[i] += snapshot[i];
            }
        }
    }
    let rest = counters(&state);
    for i in 0..6 {
        assert_eq!(handed_out[i] + rest[i], offered[i]);
    }
    assert_eq!(offered, [10, 10, 10, 10, 255, 255]);
}

#[test]
fn default_state_starts_at_zero() {
    let before = Instant::now();
    let state = InputState::default();
    assert_eq!(counters(&state), [0, 0, 0, 0, 0, 0]);
    assert!(state.last_activity >= before);
}

#[test]
fn unreachable_counters_drop_the_event_and_drain_empty() {
    let now = Instant::now();
    assert_eq!(record(None, &InputEvent::KeyPress, now), Recorded::Dropped);
    let before = Instant::now();
    let empty = drain_or_empty(None);
    assert_eq!(counters(&empty), [0, 0, 0, 0, 0, 0]);
    assert!(empty.last_activity >= before);
}

#[test]
fn reachable_counters_record_and_drain() {
    let start = Instant::now();
    let later = start + Duration::from_millis(5);
    let mut state = InputState::new(start);
    assert_eq!(record(Some(&mut state), &InputEvent::KeyPress, later), Recorded::Counted);
    assert_eq!(record(Some(&mut state), &InputEvent::KeyRelease, later), Recorded::Ignored);
    state.presses = u64::MAX;
    assert_eq!(record(Some(&mut state), &InputEvent::KeyPress, later), Recorded::Skipped);
    state.presses = 1;
    let snapshot = drain_or_empty(Some(&mut state));
    assert_eq!(counters(&snapshot), [1, 0, 0, 0, 0, 0]);
    assert_eq!(snapshot.last_activity, later);
    assert_eq!(counters(&state), [0, 0, 0, 0, 0, 0]);
    assert_eq!(state.last_activity, later);
}

#[test]
fn events_and_drains_through_a_lock_are_counted_once() {
    let shared = Arc::new(Mutex::new(InputState::new(Instant::now())));
    let listener = Arc::clone(&shared);
    let mut handed_out = [0u64; 6];
    for round in 0..20_000u64 {
        let event = match round % 4 {
            0 => InputEvent::KeyPress,
            1 => InputEvent::ButtonPress,
            2 => InputEvent::MouseMove,
            _ => InputEvent::Wheel { delta_x: -2, delta_y: 3 },
        };
        {
            let mut guard = listener.lock().ok();
            assert_eq!(record(guard.as_deref_mut(), &event, Instant::now()), Recorded::Counted);
        }
        if round % 13 == 0 {
            let snapshot = {
                let mut guard = shared.lock().ok();
                drain_or_empty(guard.as_deref_mut())
            };
            let drained = counters(&snapshot);
            for i in 0..6 {
                handed_out[i] += drained[i];
            }
        }
    }
    let rest = {
        let mut guard = shared.lock().ok();
        drain_or_empty(guard.as_deref_mut())
    };
    let left = counters(&rest);
    for i in 0..6 {
        handed_out[i] += left[i];
    }
    assert_eq!(handed_out, [5_000, 5_000, 5_000, 5_000, 10_000, 15_000]);
}
