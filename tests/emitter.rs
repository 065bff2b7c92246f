use theclicker::{AutoclickerState, Button, ClickPlan, Emitter};

fn state(left: bool, right: bool, lock: bool, override_active: bool) -> AutoclickerState {
    AutoclickerState { left, right, lock, override_active }
}

#[test]
fn round_trip_emits_left_click_then_cooldown() {
    let mut e = Emitter::new(25, 0);
    assert!(e.waits_for_state());
    e.on_snapshot(state(true, false, false, false));
    assert!(!e.waits_for_state());
    assert_eq!(
        e.plan(false),
        ClickPlan { button: Some(Button::Left), press_release_pause: None, cooldown_pause: Some(25) }
    );
}

#[test]
fn press_release_pause_when_nonzero() {
    let mut e = Emitter::new(40, 7);
    e.on_snapshot(state(false, true, false, false));
    assert_eq!(
        e.plan(false),
        ClickPlan { button: Some(Button::Right), press_release_pause: Some(7), cooldown_pause: Some(40) }
    );
}

#[test]
fn right_click_has_priority() {
    let mut e = Emitter::new(25, 0);
    e.on_snapshot(state(true, true, false, false));
    assert_eq!(e.plan(false).button, Some(Button::Right));
}

#[test]
fn override_pauses_and_resumes_at_once() {
    let mut e = Emitter::new(25, 3);
    e.on_snapshot(state(true, false, false, false));
    assert!(!e.on_override(true));
    assert_eq!(
        e.plan(false),
        ClickPlan { button: None, press_release_pause: None, cooldown_pause: Some(25) }
    );
    let now = e.on_override(false);
    assert!(now);
    assert_eq!(
        e.plan(now),
        ClickPlan { button: Some(Button::Left), press_release_pause: Some(3), cooldown_pause: None }
    );
}

#[test]
fn override_release_without_click_flag_waits() {
    let mut e = Emitter::new(25, 0);
    e.on_override(true);
    assert!(!e.on_override(false));
    assert!(!e.on_override(false));
}

#[test]
fn snapshot_keeps_override_flag() {
    let mut e = Emitter::new(25, 0);
    e.on_override(true);
    e.on_snapshot(state(true, false, true, false));
    assert_eq!(e.toggle, state(true, false, true, true));
    e.on_override(false);
    e.on_snapshot(state(false, false, false, true));
    assert_eq!(e.toggle, state(false, false, false, false));
}

#[test]
fn status_line_lists_flags() {
    assert_eq!(AutoclickerState::new().status_line(), "Active: ");
    assert_eq!(state(true, true, false, false).status_line(), "Active: left , right");
    assert_eq!(state(false, true, true, true).status_line(), "Active: LOCKED: OVERRIDE PAUSED: right");
    assert_eq!(state(true, false, false, false).status_line(), "Active: left ");
}
