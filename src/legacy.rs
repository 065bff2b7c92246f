use vstd::prelude::*;

use crate::state::AutoclickerState;

verus! {

/// Length of one legacy pointing-device packet.
pub const PACKET_LEN: usize = 3;

/// Level of the left button in the first packet byte (bit 0).
pub open spec fn left_level(b: u8) -> bool {
    b & 1u8 == 1u8
}

/// Level of the right button in the first packet byte (bit 1).
pub open spec fn right_level(b: u8) -> bool {
    (b >> 1u8) & 1u8 == 1u8
}

/// Level of the middle button in the first packet byte (bit 2).
pub open spec fn middle_level(b: u8) -> bool {
    (b >> 2u8) & 1u8 == 1u8
}

/// Whether a level went from released to pressed.
pub open spec fn rising(now: bool, before: bool) -> bool {
    now && !before
}

/// Timing of the legacy (byte packet) source, which has no bindings of its own:
/// left and right buttons toggle clicking, the middle button locks.
pub struct StateLegacy {
    /// Milliseconds between clicks.
    pub cooldown: u64,
    /// Milliseconds between a press and its release.
    pub cooldown_pr: u64,
}

impl StateLegacy {
    pub fn new(cooldown: u64, cooldown_pr: u64) -> (r: StateLegacy)
        ensures
            r.cooldown == cooldown,
            r.cooldown_pr == cooldown_pr,
    {
        StateLegacy { cooldown, cooldown_pr }
    }

    /// The state the legacy reader starts from: locked, nothing else set.
    pub open spec fn spec_initial_state() -> AutoclickerState {
        AutoclickerState { lock: true, ..AutoclickerState::cleared() }
    }

    pub fn initial_state() -> (r: AutoclickerState)
        ensures
            r == Self::spec_initial_state(),
    {
        AutoclickerState::with_lock(true)
    }
}

/// The button levels of the previous well-formed packet.
#[derive(Clone, Copy, Debug, PartialEq, Eq, Structural)]
pub struct LegacyDecoder {
    pub old_left: bool,
    pub old_right: bool,
    pub old_middle: bool,
}

impl LegacyDecoder {
    /// A decoder that has seen every button released.
    pub fn new() -> (r: LegacyDecoder)
        ensures
            !r.old_left && !r.old_right && !r.old_middle,
    {
        LegacyDecoder { old_left: false, old_right: false, old_middle: false }
    }

    /// The state after a well-formed packet whose first byte is `b`: rising
    /// edges of left and right flip their flag while unlocked, a rising edge of
    /// the middle button flips `lock` in any state.
    pub open spec fn spec_step(self, s: AutoclickerState, b: u8) -> AutoclickerState {
        AutoclickerState {
            left: if !s.lock && rising(left_level(b), self.old_left) {
                !s.left
            } else {
                s.left
            },
            right: if !s.lock && rising(right_level(b), self.old_right) {
                !s.right
            } else {
                s.right
            },
            lock: if rising(middle_level(b), self.old_middle) {
                !s.lock
            } else {
                s.lock
            },
            override_active: s.override_active,
        }
    }

    /// The decoder after a well-formed packet whose first byte is `b`.
    pub open spec fn spec_after(b: u8) -> LegacyDecoder {
        LegacyDecoder { old_left: left_level(b), old_right: right_level(b), old_middle: middle_level(b) }
    }

    /// Applies one packet read from the device. A packet of another length than
    /// three bytes changes nothing. Returns the new state when it changed.
    pub fn process(&mut self, state: &mut AutoclickerState, data: &[u8]) -> (r: Option<AutoclickerState>)
        ensures
            data@.len() != PACKET_LEN ==> *final(self) == *old(self) && *final(state) == *old(state),
            data@.len() == PACKET_LEN ==> *final(state) == old(self).spec_step(*old(state), data@[0])
                && *final(self) == LegacyDecoder::spec_after(data@[0]),
            r == (if *final(state) != *old(state) {
                Some(*final(state))
            } else {
                None::<AutoclickerState>
            }),
    {
        if data.len() != PACKET_LEN {
            return None;
        }
        let b = data[0];
        let left = b & 1u8 == 1u8;
        let right = (b >> 1u8) & 1u8 == 1u8;
        let middle = (b >> 2u8) & 1u8 == 1u8;
        let before = *state;
        if !state.lock {
            if left && !self.old_left {
                state.left = !state.left;
            }
            if right && !self.old_right {
                state.right = !state.right;
            }
        }
        if middle && !self.old_middle {
            state.lock = !state.lock;
        }
        self.old_left = left;
        self.old_right = right;
        self.old_middle = middle;
        if *state != before {
            Some(*state)
        } else {
            None
        }
    }
}

/// A button level that stays the same or falls never changes a flag; only a
/// rising edge does.
pub proof fn lemma_only_rising_edges_toggle(d: LegacyDecoder, s: AutoclickerState, b: u8)
    ensures
        !rising(left_level(b), d.old_left) ==> d.spec_step(s, b).left == s.left,
        !rising(right_level(b), d.old_right) ==> d.spec_step(s, b).right == s.right,
        !rising(middle_level(b), d.old_middle) ==> d.spec_step(s, b).lock == s.lock,
        !s.lock && rising(left_level(b), d.old_left) ==> d.spec_step(s, b).left == !s.left,
{
}

} // verus!
