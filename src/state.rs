use vstd::prelude::*;

verus! {

/// Whether an input event value reports a held key: a press (1) or an autorepeat (2).
pub open spec fn is_pressed_value(value: i32) -> bool {
    value == 1 || value == 2
}

/// Decides whether an input event value means the key is down.
pub fn is_pressed(value: i32) -> (r: bool)
    ensures
        r == is_pressed_value(value),
{
    value == 1 || value == 2
}

/// The toggle state shared between the readers and the click emitter.
#[derive(Clone, Copy, Debug, PartialEq, Eq, Structural)]
pub struct AutoclickerState {
    /// Primary click active.
    pub left: bool,
    /// Secondary click active.
    pub right: bool,
    /// Binding-driven toggling of `left` / `right` is suspended.
    pub lock: bool,
    /// The override device pauses clicking.
    pub override_active: bool,
}

impl AutoclickerState {
    /// All flags cleared.
    pub open spec fn cleared() -> AutoclickerState {
        AutoclickerState { left: false, right: false, lock: false, override_active: false }
    }

    /// A state with every flag cleared.
    pub fn new() -> (r: AutoclickerState)
        ensures
            r == AutoclickerState::cleared(),
    {
        AutoclickerState { left: false, right: false, lock: false, override_active: false }
    }

    /// A state with every flag cleared but `lock`, which is set as given.
    pub fn with_lock(lock: bool) -> (r: AutoclickerState)
        ensures
            r == (AutoclickerState { lock, ..AutoclickerState::cleared() }),
    {
        AutoclickerState { left: false, right: false, lock, override_active: false }
    }

    /// Whether some click flag is set.
    pub open spec fn spec_clicking(self) -> bool {
        self.left || self.right
    }

    /// Whether some click flag is set.
    pub fn clicking(&self) -> (r: bool)
        ensures
            r == self.spec_clicking(),
    {
        self.left || self.right
    }
}

/// The status line for a state: the active flags in order, lock and override
/// first.
pub open spec fn status_text(s: AutoclickerState) -> Seq<char> {
    "Active: "@ + (if s.lock {
        "LOCKED: "@
    } else {
        Seq::empty()
    }) + (if s.override_active {
        "OVERRIDE PAUSED: "@
    } else {
        Seq::empty()
    }) + (if s.left {
        "left "@
    } else {
        Seq::empty()
    }) + (if s.right {
        (if s.left {
            ", "@
        } else {
            Seq::empty()
        }) + "right"@
    } else {
        Seq::empty()
    })
}

impl AutoclickerState {
    /// Renders the status line shown to the operator.
    pub fn status_line(&self) -> (r: String)
        ensures
            r@ == status_text(*self),
    {
        let mut r = String::from_str("Active: ");
        if self.lock {
            r.append("LOCKED: ");
        }
        if self.override_active {
            r.append("OVERRIDE PAUSED: ");
        }
        if self.left {
            r.append("left ");
        }
        if self.right {
            if self.left {
                r.append(", ");
            }
            r.append("right");
        }
        assert(r@ =~= status_text(*self));
        r
    }
}

} // verus!
