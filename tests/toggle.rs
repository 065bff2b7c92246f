use theclicker::normal::{is_key_down, override_signal};
use theclicker::{AutoclickerState, LegacyDecoder, StateLegacy, StateNormal};

fn bindings(hold: bool, lock: Option<u16>, grab: bool) -> StateNormal {
    StateNormal::new(275, 276, lock, vec![1, 59], hold, grab, 25, 0)
}

fn state(left: bool, right: bool, lock: bool, override_active: bool) -> AutoclickerState {
    AutoclickerState { left, right, lock, override_active }
}

#[test]
fn hold_mode_mirrors_press_and_release() {
    let cfg = bindings(true, None, false);
    let mut s = AutoclickerState::new();
    let mut seen = Vec::new();
    for value in [1, 0, 1, 0] {
        cfg.process(&mut s, 275, value);
        seen.push(s.left);
    }
    assert_eq!(seen, vec![true, false, true, false]);
}

#[test]
fn hold_mode_repeat_keeps_flag_without_snapshot() {
    let cfg = bindings(true, None, false);
    let mut s = AutoclickerState::new();
    assert!(cfg.process(&mut s, 275, 1).snapshot.is_some());
    assert_eq!(cfg.process(&mut s, 275, 2).snapshot, None);
    assert!(s.left);
}

#[test]
fn toggle_mode_flips_on_each_press_or_repeat() {
    let cfg = bindings(false, None, false);
    let mut s = AutoclickerState::new();
    let mut seen = Vec::new();
    for value in [1, 0, 2, 0, 1, 1] {
        cfg.process(&mut s, 276, value);
        seen.push(s.right);
    }
    assert_eq!(seen, vec![true, true, false, false, true, false]);
    assert!(!s.left);
}

#[test]
fn lock_gates_click_bindings() {
    let cfg = bindings(false, Some(274), false);
    let mut s = cfg.initial_state();
    assert_eq!(s, state(false, false, true, false));
    let r = cfg.process(&mut s, 275, 1);
    assert_eq!(r.snapshot, None);
    assert!(!s.left);
    let r = cfg.process(&mut s, 274, 1);
    assert_eq!(r.snapshot, Some(state(false, false, false, false)));
    cfg.process(&mut s, 274, 0);
    assert!(!s.lock);
    let r = cfg.process(&mut s, 275, 1);
    assert_eq!(r.snapshot, Some(state(true, false, false, false)));
    let r = cfg.process(&mut s, 274, 2);
    assert_eq!(r.snapshot, Some(state(true, false, true, false)));
}

#[test]
fn lock_scenario_gives_no_redundant_snapshot() {
    let cfg = bindings(false, Some(274), false);
    let mut s = AutoclickerState::new();
    let r = cfg.process(&mut s, 274, 1);
    assert_eq!(r.snapshot, Some(state(false, false, true, false)));
    let r = cfg.process(&mut s, 275, 1);
    assert_eq!(r.snapshot, None);
    assert_eq!(s, state(false, false, true, false));
}

#[test]
fn round_trip_press_gives_left_snapshot() {
    let cfg = bindings(false, None, false);
    let mut s = AutoclickerState::new();
    let r = cfg.process(&mut s, 275, 1);
    assert_eq!(r.snapshot, Some(state(true, false, false, false)));
    assert!(!r.forward);
}

#[test]
fn grab_forwards_only_unbound_records() {
    let cfg = bindings(false, Some(274), true);
    let mut s = AutoclickerState::new();
    assert!(!cfg.process(&mut s, 275, 1).forward);
    assert!(cfg.process(&mut s, 0, 5).forward);
    assert!(!cfg.process(&mut s, 274, 1).forward);
    assert!(s.lock);
    assert!(!cfg.process(&mut s, 275, 1).forward);
    assert!(!cfg.process(&mut s, 276, 0).forward);
    assert!(cfg.process(&mut s, 272, 1).forward);
    let plain = bindings(false, None, false);
    assert!(!plain.process(&mut s, 0, 5).forward);
    assert!(!plain.process(&mut s, 274, 1).forward);
}

#[test]
fn lock_binding_collision_toggles_both() {
    let cfg = StateNormal::new(275, 276, Some(275), vec![], false, false, 25, 0);
    let mut s = AutoclickerState::new();
    let r = cfg.process(&mut s, 275, 1);
    assert_eq!(r.snapshot, Some(state(true, false, true, false)));
    let r = cfg.process(&mut s, 275, 1);
    assert_eq!(r.snapshot, Some(state(true, false, false, false)));
}

#[test]
fn override_signal_follows_override_keys() {
    let cfg = bindings(false, None, false);
    assert_eq!(override_signal(&cfg.override_keys, 1, 59, 1), Some(true));
    assert_eq!(override_signal(&cfg.override_keys, 1, 1, 2), Some(true));
    assert_eq!(override_signal(&cfg.override_keys, 1, 59, 0), Some(false));
    assert_eq!(override_signal(&cfg.override_keys, 1, 60, 1), None);
    assert_eq!(override_signal(&cfg.override_keys, 2, 59, 1), None);
}

#[test]
fn process_keeps_override_flag() {
    let cfg = bindings(false, None, false);
    let mut s = state(false, false, false, true);
    cfg.process(&mut s, 275, 1);
    assert_eq!(s, state(true, false, false, true));
}

#[test]
fn legacy_left_toggles_on_rising_edges_only() {
    let mut d = LegacyDecoder::new();
    let mut s = AutoclickerState::new();
    let mut snapshots = Vec::new();
    for b in [0b000u8, 0b001, 0b000, 0b001] {
        snapshots.push(d.process(&mut s, &[b, 0, 0]));
    }
    assert_eq!(
        snapshots,
        vec![
            None,
            Some(state(true, false, false, false)),
            None,
            Some(state(false, false, false, false)),
        ]
    );
}

#[test]
fn legacy_steady_level_does_not_toggle() {
    let mut d = LegacyDecoder::new();
    let mut s = AutoclickerState::new();
    assert!(d.process(&mut s, &[0b010, 0, 0]).is_some());
    assert_eq!(d.process(&mut s, &[0b010, 0, 0]), None);
    assert!(s.right);
}

#[test]
fn legacy_middle_locks_and_gates() {
    let mut d = LegacyDecoder::new();
    let mut s = StateLegacy::initial_state();
    assert_eq!(s, state(false, false, true, false));
    assert_eq!(d.process(&mut s, &[0b001, 0, 0]), None);
    assert_eq!(d.process(&mut s, &[0b100, 0, 0]), Some(state(false, false, false, false)));
    assert_eq!(d.process(&mut s, &[0b001, 0, 0]), Some(state(true, false, false, false)));
}

#[test]
fn legacy_short_packet_is_discarded() {
    let mut d = LegacyDecoder::new();
    let mut s = AutoclickerState::new();
    assert_eq!(d.process(&mut s, &[0b001, 0]), None);
    assert_eq!(d.process(&mut s, &[0b001, 0, 0, 0]), None);
    assert_eq!(s, AutoclickerState::new());
    assert_eq!(d, LegacyDecoder::new());
}

#[test]
fn key_down_needs_key_event_and_press() {
    assert!(is_key_down(1, 1));
    assert!(is_key_down(1, 2));
    assert!(!is_key_down(1, 0));
    assert!(!is_key_down(2, 1));
    assert!(!is_key_down(0, 1));
}

#[test]
fn toggle_run_publishes_one_snapshot_per_press() {
    let cfg = bindings(false, None, false);
    let mut s = AutoclickerState::new();
    let snaps: Vec<AutoclickerState> =
        [1, 0, 2, 0, 0, 1].iter().filter_map(|&v| cfg.process(&mut s, 275, v).snapshot).collect();
    assert_eq!(
        snaps,
        vec![state(true, false, false, false), state(false, false, false, false), state(true, false, false, false)]
    );
}
