//! What the display connection delivers to the dispatcher.

use vstd::prelude::*;
use crate::error::TransientEventError;
use crate::protocol::WindowHandle;

verus! {

/// The fields of an input event that the manager reads.
#[derive(Clone, Copy, Debug, PartialEq, Eq, Structural, Hash)]
pub struct InputDetail {
    /// Key code of a key event, button index of a button event.
    pub code: u8,
    /// Modifier keys and pointer buttons that were down just before the event.
    pub state: u16,
    /// The child of the root window that the pointer was in.
    pub child: WindowHandle,
    /// Pointer position relative to the root window.
    pub root_x: i16,
    pub root_y: i16,
    /// Pointer position relative to the window that the event was reported to.
    pub event_x: i16,
    pub event_y: i16,
}

/// One event of the display server, by kind.
#[derive(Clone, Copy, Debug, PartialEq, Eq, Structural, Hash)]
pub enum Event {
    KeyPress(InputDetail),
    ButtonPress(InputDetail),
    ButtonRelease(InputDetail),
    MotionNotify(InputDetail),
    /// Any event that the manager takes no interest in.
    Other,
}

/// What one wait on the connection came back with: an event, or the report
/// that the transport failed to deliver one.
pub type Received = Result<Event, TransientEventError>;

} // verus!
