use vstd::prelude::*;

use crate::args::Command;
use crate::emitter::Emitter;
use crate::legacy::{LegacyDecoder, StateLegacy};
use crate::normal::StateNormal;
use crate::state::AutoclickerState;

verus! {

/// Settings common to both sources.
#[derive(Clone, Copy, Debug, PartialEq, Eq, Structural)]
pub struct Shared {
    pub debug: bool,
    /// Signal every state change audibly.
    pub beep: bool,
}

/// The input protocol in use, with its configuration.
pub enum Variant {
    Normal(StateNormal),
    Legacy(StateLegacy),
}

/// The decision logic of the main reader.
pub enum Reader {
    /// Event records, interpreted through the bindings.
    Normal(StateNormal),
    /// Byte packets, interpreted by button edges.
    Legacy(LegacyDecoder),
}

/// Everything a run starts from: the main reader's logic, the state it
/// starts in and publishes first, and the click emitter.
pub struct Session {
    pub reader: Reader,
    pub initial: AutoclickerState,
    pub emitter: Emitter,
    pub shared: Shared,
}

impl StateNormal {
    /// Starts a run of the modern source: the reader starts locked exactly
    /// when a lock binding exists, the emitter with every flag cleared.
    pub fn run(self, shared: Shared) -> (r: Session)
        ensures
            r.initial == self.spec_initial_state(),
            r.reader == Reader::Normal(self),
            r.emitter == (Emitter {
                toggle: AutoclickerState::cleared(),
                cooldown: self.cooldown,
                cooldown_pr: self.cooldown_pr,
            }),
            r.shared == shared,
    {
        let initial = self.initial_state();
        let emitter = Emitter::new(self.cooldown, self.cooldown_pr);
        Session { reader: Reader::Normal(self), initial, emitter, shared }
    }
}

impl StateLegacy {
    /// Starts a run of the legacy source: the reader starts locked with every
    /// button released, the emitter with every flag cleared.
    pub fn run(self, shared: Shared) -> (r: Session)
        ensures
            r.initial == StateLegacy::spec_initial_state(),
            r.reader == Reader::Legacy(
                LegacyDecoder { old_left: false, old_right: false, old_middle: false },
            ),
            r.emitter == (Emitter {
                toggle: AutoclickerState::cleared(),
                cooldown: self.cooldown,
                cooldown_pr: self.cooldown_pr,
            }),
            r.shared == shared,
    {
        let initial = StateLegacy::initial_state();
        let emitter = Emitter::new(self.cooldown, self.cooldown_pr);
        Session { reader: Reader::Legacy(LegacyDecoder::new()), initial, emitter, shared }
    }
}

/// The variant that a command selects: the device queries are resolved
/// elsewhere, bindings and timing are carried over.
pub open spec fn variant_of(cmd: Command) -> Variant {
    match cmd {
        Command::Run {
            override_keys,
            left_bind,
            right_bind,
            lock_unlock_bind,
            hold,
            grab,
            cooldown,
            cooldown_press_release,
            ..
        } => Variant::Normal(
            StateNormal {
                left_bind,
                right_bind,
                lock_unlock_bind,
                override_keys,
                hold,
                grab,
                cooldown,
                cooldown_pr: cooldown_press_release,
            },
        ),
        Command::RunLegacy { cooldown, cooldown_press_release, .. } => Variant::Legacy(
            StateLegacy { cooldown, cooldown_pr: cooldown_press_release },
        ),
    }
}

impl Variant {
    /// The variant that a command selects, with its bindings and timing.
    pub fn from_command(cmd: Command) -> (r: Variant)
        ensures
            r == variant_of(cmd),
    {
        match cmd {
            Command::Run {
                override_keys,
                left_bind,
                right_bind,
                lock_unlock_bind,
                hold,
                grab,
                cooldown,
                cooldown_press_release,
                ..
            } => Variant::Normal(
                StateNormal {
                    left_bind,
                    right_bind,
                    lock_unlock_bind,
                    override_keys,
                    hold,
                    grab,
                    cooldown,
                    cooldown_pr: cooldown_press_release,
                },
            ),
            Command::RunLegacy { cooldown, cooldown_press_release, .. } => Variant::Legacy(
                StateLegacy { cooldown, cooldown_pr: cooldown_press_release },
            ),
        }
    }

    /// The reader that this variant starts with: the modern bindings as
    /// configured, or a legacy decoder that has seen every button released.
    pub open spec fn spec_reader(self) -> Reader {
        match self {
            Variant::Normal(n) => Reader::Normal(n),
            Variant::Legacy(_) => Reader::Legacy(
                LegacyDecoder { old_left: false, old_right: false, old_middle: false },
            ),
        }
    }

    /// The session that this variant starts.
    pub open spec fn spec_session_start(&self, shared: Shared) -> (AutoclickerState, Emitter) {
        match self {
            Variant::Normal(n) => (
                n.spec_initial_state(),
                Emitter { toggle: AutoclickerState::cleared(), cooldown: n.cooldown, cooldown_pr: n.cooldown_pr },
            ),
            Variant::Legacy(l) => (
                StateLegacy::spec_initial_state(),
                Emitter { toggle: AutoclickerState::cleared(), cooldown: l.cooldown, cooldown_pr: l.cooldown_pr },
            ),
        }
    }

    /// Starts a run of this variant.
    pub fn run(self, shared: Shared) -> (r: Session)
        ensures
            (r.initial, r.emitter) == self.spec_session_start(shared),
            r.reader == self.spec_reader(),
            r.shared == shared,
    {
        match self {
            Variant::Normal(state_normal) => state_normal.run(shared),
            Variant::Legacy(state_legacy) => state_legacy.run(shared),
        }
    }
}

/// A configured autoclicker, ready to run.
pub struct TheClicker {
    pub shared: Shared,
    pub variant: Variant,
}

impl TheClicker {
    /// The autoclicker that a command describes.
    pub fn from_command(shared: Shared, cmd: Command) -> (r: TheClicker)
        ensures
            r.shared == shared,
            r.variant == variant_of(cmd),
    {
        TheClicker { shared, variant: Variant::from_command(cmd) }
    }

    /// Starts the run: the session whose reader and emitter loops the caller drives.
    pub fn main_loop(self) -> (r: Session)
        ensures
            (r.initial, r.emitter) == self.variant.spec_session_start(self.shared),
            r.reader == self.variant.spec_reader(),
            r.shared == self.shared,
    {
        self.variant.run(self.shared)
    }
}

} // verus!
