use vstd::prelude::*;

use crate::state::{is_pressed, is_pressed_value, AutoclickerState};

verus! {

/// Relies on input_linux::sys::EV_KEY, the event kind of key and button events.
#[verifier::external_body]
fn key_event_kind() -> (r: u16)
    ensures
        r == 1,
{
    input_linux::sys::EV_KEY as u16
}

/// A click flag after one record on its binding: in hold mode it mirrors the
/// key, otherwise a press or autorepeat flips it.
pub open spec fn flag_after(hold: bool, pressed: bool, flag: bool) -> bool {
    if hold {
        pressed
    } else if pressed {
        !flag
    } else {
        flag
    }
}

/// What the main reader does with one input record.
#[derive(Clone, Copy, Debug, PartialEq, Eq, Structural)]
pub struct Reaction {
    /// The new state, to publish, when the record changed it.
    pub snapshot: Option<AutoclickerState>,
    /// The record is to be written through to the output device.
    pub forward: bool,
}

/// Binding configuration and timing of the modern (event code) source.
pub struct StateNormal {
    pub left_bind: u16,
    pub right_bind: u16,
    pub lock_unlock_bind: Option<u16>,
    pub override_keys: Vec<u16>,
    pub hold: bool,
    pub grab: bool,
    /// Milliseconds between clicks.
    pub cooldown: u64,
    /// Milliseconds between a press and its release.
    pub cooldown_pr: u64,
}

impl StateNormal {
    pub fn new(
        left_bind: u16,
        right_bind: u16,
        lock_unlock_bind: Option<u16>,
        override_keys: Vec<u16>,
        hold: bool,
        grab: bool,
        cooldown: u64,
        cooldown_pr: u64,
    ) -> (r: StateNormal)
        ensures
            r.left_bind == left_bind,
            r.right_bind == right_bind,
            r.lock_unlock_bind == lock_unlock_bind,
            r.override_keys@ == override_keys@,
            r.hold == hold,
            r.grab == grab,
            r.cooldown == cooldown,
            r.cooldown_pr == cooldown_pr,
    {
        StateNormal {
            left_bind,
            right_bind,
            lock_unlock_bind,
            override_keys,
            hold,
            grab,
            cooldown,
            cooldown_pr,
        }
    }

    /// The state the main reader starts from: locked exactly when a lock
    /// binding exists.
    pub open spec fn spec_initial_state(&self) -> AutoclickerState {
        AutoclickerState { lock: self.lock_unlock_bind is Some, ..AutoclickerState::cleared() }
    }

    pub fn initial_state(&self) -> (r: AutoclickerState)
        ensures
            r == self.spec_initial_state(),
    {
        AutoclickerState::with_lock(self.lock_unlock_bind.is_some())
    }

    /// Whether `code` matches a configured binding: left, right or lock.
    pub open spec fn spec_bound(&self, code: u16) -> bool {
        code == self.left_bind || code == self.right_bind || self.lock_unlock_bind == Some(code)
    }

    /// The state after one record `(code, value)`. Click bindings act only
    /// while unlocked; a press of the lock binding flips `lock` in any state.
    /// The override flag is untouched. Where one code is bound both to a click
    /// and to lock, the click binding is judged by the lock state from before
    /// the record.
    pub open spec fn spec_step(&self, s: AutoclickerState, code: u16, value: i32) -> AutoclickerState {
        let pressed = is_pressed_value(value);
        AutoclickerState {
            left: if !s.lock && code == self.left_bind {
                flag_after(self.hold, pressed, s.left)
            } else {
                s.left
            },
            right: if !s.lock && code == self.right_bind {
                flag_after(self.hold, pressed, s.right)
            } else {
                s.right
            },
            lock: if self.lock_unlock_bind == Some(code) && pressed {
                !s.lock
            } else {
                s.lock
            },
            override_active: s.override_active,
        }
    }

    /// Applies one input record to `state`. The new state is published when it
    /// differs from the old one; when grabbing, a record that matches no
    /// configured binding is forwarded.
    pub fn process(&self, state: &mut AutoclickerState, code: u16, value: i32) -> (r: Reaction)
        ensures
            *final(state) == self.spec_step(*old(state), code, value),
            r.snapshot == (if *final(state) != *old(state) {
                Some(*final(state))
            } else {
                None::<AutoclickerState>
            }),
            r.forward == (self.grab && !self.spec_bound(code)),
    {
        let before = *state;
        let pressed = is_pressed(value);
        if !state.lock {
            if code == self.left_bind {
                if self.hold {
                    state.left = pressed;
                } else if pressed {
                    state.left = !state.left;
                }
            }
            if code == self.right_bind {
                if self.hold {
                    state.right = pressed;
                } else if pressed {
                    state.right = !state.right;
                }
            }
        }
        if let Some(bind) = self.lock_unlock_bind {
            if code == bind && pressed {
                state.lock = !state.lock;
            }
        }
        let snapshot = if *state != before {
            Some(*state)
        } else {
            None
        };
        let bound = code == self.left_bind || code == self.right_bind || match self.lock_unlock_bind {
            Some(bind) => code == bind,
            None => false,
        };
        Reaction { snapshot, forward: self.grab && !bound }
    }

}

/// Whether a record is a key or button going down: a key event with a press
/// or autorepeat value.
pub open spec fn spec_is_key_down(kind: u16, value: i32) -> bool {
    kind == 1 && is_pressed_value(value)
}

pub fn is_key_down(kind: u16, value: i32) -> (r: bool)
    ensures
        r == spec_is_key_down(kind, value),
{
    kind == key_event_kind() && is_pressed(value)
}

/// The override signal carried by one record of the override device: for a
/// key event on one of the override keys, whether the key is down.
pub open spec fn spec_override_signal(override_keys: Seq<u16>, kind: u16, code: u16, value: i32) -> Option<bool> {
    if kind == 1 && override_keys.contains(code) {
        Some(is_pressed_value(value))
    } else {
        None
    }
}

pub fn override_signal(override_keys: &Vec<u16>, kind: u16, code: u16, value: i32) -> (r: Option<bool>)
    ensures
        r == spec_override_signal(override_keys@, kind, code, value),
{
    let key_kind = key_event_kind();
    if kind != key_kind {
        return None;
    }
    let mut i: usize = 0;
    while i < override_keys.len()
        invariant
            0 <= i <= override_keys@.len(),
            kind == 1,
            forall|j: int| 0 <= j < i ==> override_keys@[j] != code,
        decreases override_keys@.len() - i,
    {
        if override_keys[i] == code {
            assert(override_keys@[i as int] == code);
            assert(override_keys@.contains(code));
            return Some(is_pressed(value));
        }
        i = i + 1;
    }
    None
}

/// The state after a run of records that all carry `code`, with the values
/// `values` in order.
pub open spec fn feed(cfg: &StateNormal, s: AutoclickerState, code: u16, values: Seq<i32>) -> AutoclickerState
    decreases values.len(),
{
    if values.len() == 0 {
        s
    } else {
        cfg.spec_step(feed(cfg, s, code, values.drop_last()), code, values.last())
    }
}

/// How many of `values` report the key down.
pub open spec fn pressed_count(values: Seq<i32>) -> nat
    decreases values.len(),
{
    if values.len() == 0 {
        0
    } else {
        pressed_count(values.drop_last()) + if is_pressed_value(values.last()) {
            1nat
        } else {
            0nat
        }
    }
}

/// In hold mode the left flag mirrors the left binding: press, release,
/// press, release give `true`, `false`, `true`, `false`.
pub proof fn lemma_hold_mirrors_key(cfg: &StateNormal, s: AutoclickerState, press: i32, release: i32)
    requires
        cfg.hold,
        !s.lock,
        cfg.lock_unlock_bind != Some(cfg.left_bind),
        is_pressed_value(press),
        !is_pressed_value(release),
    ensures
        ({
            let s1 = cfg.spec_step(s, cfg.left_bind, press);
            let s2 = cfg.spec_step(s1, cfg.left_bind, release);
            let s3 = cfg.spec_step(s2, cfg.left_bind, press);
            let s4 = cfg.spec_step(s3, cfg.left_bind, release);
            s1.left && !s2.left && s3.left && !s4.left
        }),
{
}

/// In toggle mode a run of records on the left binding flips the left flag
/// once per press or autorepeat, whatever releases come between.
pub proof fn lemma_toggle_alternates(cfg: &StateNormal, s: AutoclickerState, values: Seq<i32>)
    requires
        !cfg.hold,
        !s.lock,
        cfg.lock_unlock_bind != Some(cfg.left_bind),
    ensures
        feed(cfg, s, cfg.left_bind, values).left == (s.left != (pressed_count(values) % 2 == 1)),
        !feed(cfg, s, cfg.left_bind, values).lock,
    decreases values.len(),
{
    if values.len() > 0 {
        lemma_toggle_alternates(cfg, s, values.drop_last());
    }
}

/// While locked, no record changes the click flags; a press of the lock
/// binding flips `lock` whether it is set or not.
pub proof fn lemma_lock_gates_clicks(cfg: &StateNormal, s: AutoclickerState, code: u16, value: i32)
    ensures
        s.lock ==> cfg.spec_step(s, code, value).left == s.left,
        s.lock ==> cfg.spec_step(s, code, value).right == s.right,
        cfg.lock_unlock_bind == Some(code) && is_pressed_value(value) ==> cfg.spec_step(s, code, value).lock == !s.lock,
{
}

/// The snapshots published while a run of records that all carry `code`,
/// with the values `values` in order, is processed from state `s`: one for
/// each record that changes the state.
pub open spec fn snapshots(cfg: &StateNormal, s: AutoclickerState, code: u16, values: Seq<i32>) -> Seq<AutoclickerState>
    decreases values.len(),
{
    if values.len() == 0 {
        Seq::empty()
    } else {
        let before = feed(cfg, s, code, values.drop_last());
        let after = cfg.spec_step(before, code, values.last());
        snapshots(cfg, s, code, values.drop_last()) + if after != before {
            seq![after]
        } else {
            Seq::empty()
        }
    }
}

/// In toggle mode a run of records on the left binding publishes exactly one
/// snapshot per press or autorepeat, none for a release; the `k`-th snapshot
/// (from zero) has the left flag flipped `k + 1` times and every other flag
/// as it was.
pub proof fn lemma_toggle_snapshots(cfg: &StateNormal, s: AutoclickerState, values: Seq<i32>)
    requires
        !cfg.hold,
        !s.lock,
        cfg.left_bind != cfg.right_bind,
        cfg.lock_unlock_bind != Some(cfg.left_bind),
    ensures
        snapshots(cfg, s, cfg.left_bind, values).len() == pressed_count(values),
        forall|k: int|
            0 <= k < snapshots(cfg, s, cfg.left_bind, values).len() ==> {
                let snap = #[trigger] snapshots(cfg, s, cfg.left_bind, values)[k];
                &&& snap.left == (s.left != ((k + 1) % 2 == 1))
                &&& snap.right == s.right
                &&& snap.lock == s.lock
                &&& snap.override_active == s.override_active
            },
        feed(cfg, s, cfg.left_bind, values) == (AutoclickerState {
            left: s.left != (pressed_count(values) % 2 == 1),
            ..s
        }),
    decreases values.len(),
{
    if values.len() > 0 {
        let rest = values.drop_last();
        lemma_toggle_snapshots(cfg, s, rest);
        let before = feed(cfg, s, cfg.left_bind, rest);
        let after = cfg.spec_step(before, cfg.left_bind, values.last());
        let prev = snapshots(cfg, s, cfg.left_bind, rest);
        let all = snapshots(cfg, s, cfg.left_bind, values);
        if is_pressed_value(values.last()) {
            assert(after != before);
            assert(all == prev.push(after));
            assert forall|k: int| 0 <= k < all.len() implies {
                let snap = #[trigger] all[k];
                &&& snap.left == (s.left != ((k + 1) % 2 == 1))
                &&& snap.right == s.right
                &&& snap.lock == s.lock
                &&& snap.override_active == s.override_active
            } by {
                if k < prev.len() {
                    assert(all[k] == prev[k]);
                }
            }
        } else {
            assert(after == before);
            assert(all =~= prev);
        }
    }
}

} // verus!
