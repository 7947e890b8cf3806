//! The interactive core of a minimal X11 window manager, as a pure and
//! verified decision engine.
//!
//! The crate owns every decision that such a manager takes: which grabs it
//! installs at startup, how a press, a motion or a release moves the
//! interaction state machine, and which requests each event gives rise to.
//! It performs no input or output. A driver owns the display connection,
//! turns what it receives into [`event::Event`] values, hands them to
//! [`manager::WindowManager`], and carries out the [`command::Command`]
//! values that come back, in order.

pub mod command;
pub mod drag;
pub mod error;
pub mod event;
pub mod grabs;
pub mod interaction;
pub mod manager;
pub mod protocol;
pub mod session;
