//! Autoclicker core: toggle state machines for modern and legacy input
//! sources, the click emitter's decisions, and the run configuration.

pub mod state;
pub mod normal;
pub mod legacy;
pub mod emitter;
pub mod args;
pub mod config;
pub mod session;
pub mod keycode;
pub mod setup;

pub use state::AutoclickerState;
pub use normal::{Reaction, StateNormal};
pub use legacy::{LegacyDecoder, StateLegacy};
pub use emitter::{Button, ClickPlan, Emitter};
pub use args::{Args, Command, ConfigCommand};
pub use config::Config;
pub use session::{Reader, Session, Shared, TheClicker, Variant};
pub use keycode::KeyCode;
