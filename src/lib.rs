//! Startup sequence of a desktop application shell: register the opener
//! plugin, run the one-time setup hook (which, on macOS only, applies a
//! sidebar translucency effect to the window labelled `main`), then enter the
//! run loop. Every outside effect is an [`Action`] handed to the caller; the
//! caller reports what happened as an [`Event`].
pub mod laws;
pub mod startup;

pub use startup::{Action, EffectRequest, EffectState, Event, Failure, Material, Phase, Platform, Startup};
pub use startup::main_window_label;
