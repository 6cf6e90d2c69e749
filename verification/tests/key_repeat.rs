//! The keyboard state machine: the repeat timeline, rate changes, focus.

use glazier::keyboard::{
    KeyboardEvent, KeyboardState, RepeatFireAction, RepeatTimerAction,
};

#[test]
fn repeat_timeline_with_default_rate() {
    // delay = 200 ms, gap = 40 ms (the state machine's defaults).
    let mut kb = KeyboardState::new();
    let (em, act) = kb.handle_event(KeyboardEvent::Enter { window_id: 7 });
    assert!(em.is_none());
    assert_eq!(act, RepeatTimerAction::Keep);

    // Key down at t = 0: a key-down is emitted at once and the repeat
    // timer is armed for t = 200 ms.
    let (em, act) = kb.handle_event(KeyboardEvent::Key { keycode: 30, pressed: true });
    let down = em.expect("a focused window gets the key-down");
    assert!(down.pressed && !down.repeat);
    assert_eq!(down.window_id, 7);
    assert_eq!(down.key, 38, "keymap keycodes sit eight above the wire code");
    assert_eq!(act, RepeatTimerAction::Schedule { delay: 200_000 });
    let mut t: u64 = 200_000;

    // Each firing emits a synthetic repeat and re-arms one gap later:
    // t = 200, 240, 280 ms.
    let mut times = Vec::new();
    for _ in 0..3 {
        times.push(t);
        let (em, fire) = kb.repeat_fire();
        let rep = em.expect("the held key keeps repeating");
        assert!(rep.pressed && rep.repeat);
        assert_eq!(rep.key, 38);
        match fire {
            RepeatFireAction::Reschedule { gap } => t += gap,
            RepeatFireAction::Drop => panic!("repeat must continue while the key is held"),
        }
    }
    assert_eq!(times, vec![200_000, 240_000, 280_000]);

    // Key up: the pending firing (within one gap) emits nothing and
    // drops the timer.
    let (em, act) = kb.handle_event(KeyboardEvent::Key { keycode: 30, pressed: false });
    let up = em.expect("a focused window gets the key-up");
    assert!(!up.pressed);
    assert_eq!(act, RepeatTimerAction::Keep);
    let (em, fire) = kb.repeat_fire();
    assert!(em.is_none(), "no repeat after release");
    assert_eq!(fire, RepeatFireAction::Drop);
}

#[test]
fn rate_change_recomputes_gap_and_delay() {
    let mut kb = KeyboardState::new();
    let (_, act) = kb.handle_event(KeyboardEvent::Repeat { rate: 50, delay_ms: 300 });
    assert_eq!(act, RepeatTimerAction::Keep);
    kb.handle_event(KeyboardEvent::Enter { window_id: 1 });
    let (_, act) = kb.handle_event(KeyboardEvent::Key { keycode: 10, pressed: true });
    // gap = 1,000,000 us / 50 = 20,000 us; delay = 300 ms.
    assert_eq!(act, RepeatTimerAction::Schedule { delay: 300_000 });
    let (_, fire) = kb.repeat_fire();
    assert_eq!(fire, RepeatFireAction::Reschedule { gap: 20_000 });
}

#[test]
fn zero_rate_disables_repeat_and_cancels_in_flight_timer() {
    let mut kb = KeyboardState::new();
    kb.handle_event(KeyboardEvent::Enter { window_id: 1 });
    kb.handle_event(KeyboardEvent::Key { keycode: 10, pressed: true });
    let (em, act) = kb.handle_event(KeyboardEvent::Repeat { rate: 0, delay_ms: 0 });
    assert!(em.is_none());
    assert_eq!(act, RepeatTimerAction::Cancel);
    // With repeat disabled a press schedules nothing.
    let (em, act) = kb.handle_event(KeyboardEvent::Key { keycode: 11, pressed: true });
    assert!(em.is_some(), "the key-down itself is still delivered");
    assert_eq!(act, RepeatTimerAction::Keep);
    let (em, fire) = kb.repeat_fire();
    assert!(em.is_none());
    assert_eq!(fire, RepeatFireAction::Drop);
}

#[test]
fn focus_leave_stops_the_current_repeat() {
    let mut kb = KeyboardState::new();
    kb.handle_event(KeyboardEvent::Enter { window_id: 1 });
    kb.handle_event(KeyboardEvent::Key { keycode: 10, pressed: true });
    kb.handle_event(KeyboardEvent::Leave);
    let (em, fire) = kb.repeat_fire();
    assert!(em.is_none(), "leaving focus clears the current repeat key");
    assert_eq!(fire, RepeatFireAction::Drop);
}

#[test]
fn key_events_without_focus_emit_nothing() {
    let mut kb = KeyboardState::new();
    let (em, act) = kb.handle_event(KeyboardEvent::Key { keycode: 10, pressed: true });
    assert!(em.is_none(), "no focused window, no delivery");
    // The repeat is still armed; a buggy compositor may focus late.
    assert_eq!(act, RepeatTimerAction::Schedule { delay: 200_000 });
}

#[test]
fn modifier_events_update_the_cached_set() {
    let mut kb = KeyboardState::new();
    kb.handle_event(KeyboardEvent::Enter { window_id: 3 });
    // Depressed shift (bit 1) and locked caps (bit 2).
    kb.handle_event(KeyboardEvent::Mods { depressed: 1, locked: 2 });
    let (em, _) = kb.handle_event(KeyboardEvent::Key { keycode: 30, pressed: true });
    let down = em.unwrap();
    assert_eq!(
        down.mods.bits,
        glazier::input::Modifiers::SHIFT | glazier::input::Modifiers::CAPS_LOCK
    );
}
