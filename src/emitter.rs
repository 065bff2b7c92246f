use vstd::prelude::*;

use crate::state::AutoclickerState;

verus! {

/// A mouse button the emitter clicks.
#[derive(Clone, Copy, Debug, PartialEq, Eq, Structural)]
pub enum Button {
    Left,
    Right,
}

/// The button to click in a state: none while the override pauses clicking,
/// otherwise right before left.
pub open spec fn button_for(s: AutoclickerState) -> Option<Button> {
    if s.override_active {
        None
    } else if s.right {
        Some(Button::Right)
    } else if s.left {
        Some(Button::Left)
    } else {
        None
    }
}

/// What one emitter iteration does after taking in its messages: press and
/// release `button` (if any), pausing `press_release_pause` milliseconds
/// between the two, then wait `cooldown_pause` milliseconds.
#[derive(Clone, Copy, Debug, PartialEq, Eq, Structural)]
pub struct ClickPlan {
    pub button: Option<Button>,
    pub press_release_pause: Option<u64>,
    pub cooldown_pause: Option<u64>,
}

/// The click emitter's working state: its copy of the toggle state and its timing.
#[derive(Clone, Copy, Debug, PartialEq, Eq, Structural)]
pub struct Emitter {
    pub toggle: AutoclickerState,
    /// Milliseconds between clicks.
    pub cooldown: u64,
    /// Milliseconds between a press and its release.
    pub cooldown_pr: u64,
}

impl Emitter {
    /// An emitter with every flag cleared.
    pub fn new(cooldown: u64, cooldown_pr: u64) -> (r: Emitter)
        ensures
            r.toggle == AutoclickerState::cleared(),
            r.cooldown == cooldown,
            r.cooldown_pr == cooldown_pr,
    {
        Emitter { toggle: AutoclickerState::new(), cooldown, cooldown_pr }
    }

    /// The emitter after an override signal.
    pub open spec fn spec_after_override(self, active: bool) -> Emitter {
        Emitter { toggle: AutoclickerState { override_active: active, ..self.toggle }, ..self }
    }

    /// Whether an override signal releases a pending click at once: the
    /// override was active, is lifted, and a click flag is set.
    pub open spec fn spec_releases_click(self, active: bool) -> bool {
        self.toggle.override_active && !active && self.toggle.spec_clicking()
    }

    /// Takes in an override signal. Returns whether the next click is due at
    /// once, skipping this iteration's cooldown.
    pub fn on_override(&mut self, active: bool) -> (click_now: bool)
        ensures
            *final(self) == old(self).spec_after_override(active),
            click_now == old(self).spec_releases_click(active),
    {
        let was_active = self.toggle.override_active;
        self.toggle.override_active = active;
        was_active && !active && self.toggle.clicking()
    }

    /// Whether the emitter is idle and may block until the next snapshot.
    pub fn waits_for_state(&self) -> (r: bool)
        ensures
            r == !self.toggle.spec_clicking(),
    {
        !self.toggle.clicking()
    }

    /// The emitter after a snapshot from a reader: every field is taken from
    /// it but the override flag, which belongs to the override channel.
    pub open spec fn spec_after_snapshot(self, s: AutoclickerState) -> Emitter {
        Emitter {
            toggle: AutoclickerState { override_active: self.toggle.override_active, ..s },
            ..self
        }
    }

    /// Takes in a state snapshot from a reader.
    pub fn on_snapshot(&mut self, s: AutoclickerState)
        ensures
            *final(self) == old(self).spec_after_snapshot(s),
    {
        let keep = self.toggle.override_active;
        self.toggle = s;
        self.toggle.override_active = keep;
    }

    /// The rest of an iteration: unless paused by the override, click the
    /// chosen button, with the press-release pause when it is nonzero; then the
    /// cooldown, unless the click was released by lifting the override.
    pub open spec fn spec_plan(self, click_now: bool) -> ClickPlan {
        ClickPlan {
            button: button_for(self.toggle),
            press_release_pause: if !self.toggle.override_active && self.cooldown_pr != 0 {
                Some(self.cooldown_pr)
            } else {
                None
            },
            cooldown_pause: if click_now {
                None
            } else {
                Some(self.cooldown)
            },
        }
    }

    pub fn plan(&self, click_now: bool) -> (r: ClickPlan)
        ensures
            r == self.spec_plan(click_now),
    {
        let button = if self.toggle.override_active {
            None
        } else if self.toggle.right {
            Some(Button::Right)
        } else if self.toggle.left {
            Some(Button::Left)
        } else {
            None
        };
        let press_release_pause = if !self.toggle.override_active && self.cooldown_pr != 0 {
            Some(self.cooldown_pr)
        } else {
            None
        };
        let cooldown_pause = if click_now {
            None
        } else {
            Some(self.cooldown)
        };
        ClickPlan { button, press_release_pause, cooldown_pause }
    }
}

/// While the override is active nothing is clicked, whatever the click flags.
pub proof fn lemma_override_blocks_clicks(e: Emitter, click_now: bool)
    requires
        e.toggle.override_active,
    ensures
        e.spec_plan(click_now).button is None,
{
}

/// Lifting the override while a click flag is set clicks in that same
/// iteration and skips its cooldown.
pub proof fn lemma_override_release_clicks_at_once(e: Emitter)
    requires
        e.toggle.override_active,
        e.toggle.spec_clicking(),
    ensures
        e.spec_releases_click(false),
        e.spec_after_override(false).spec_plan(e.spec_releases_click(false)).button is Some,
        e.spec_after_override(false).spec_plan(e.spec_releases_click(false)).cooldown_pause is None,
{
}

/// A snapshot never changes the override flag, and an override signal never
/// changes the other flags.
pub proof fn lemma_channels_own_disjoint_fields(e: Emitter, s: AutoclickerState, active: bool)
    ensures
        e.spec_after_snapshot(s).toggle.override_active == e.toggle.override_active,
        e.spec_after_override(active).toggle.left == e.toggle.left,
        e.spec_after_override(active).toggle.right == e.toggle.right,
        e.spec_after_override(active).toggle.lock == e.toggle.lock,
{
}

/// With both click flags set, only the right button is clicked.
pub proof fn lemma_right_takes_priority(e: Emitter, click_now: bool)
    requires
        !e.toggle.override_active,
        e.toggle.left,
        e.toggle.right,
    ensures
        e.spec_plan(click_now).button == Some(Button::Right),
{
}

} // verus!
