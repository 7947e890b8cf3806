//! What the manager asks its driver to do.

use vstd::prelude::*;
use crate::protocol::{GrabMode, WindowHandle};

verus! {

/// The part of a window's geometry that a configure request sets.
#[derive(Clone, Copy, Debug, PartialEq, Eq, Structural, Hash)]
pub enum Geometry {
    /// The window's origin, relative to the root window.
    Position { x: i32, y: i32 },
    /// The window's extent. Both numbers are positive.
    Size { width: u32, height: u32 },
}

/// A request to change the position or the size of one window.
#[derive(Clone, Copy, Debug, PartialEq, Eq, Structural, Hash)]
pub struct ConfigureRequest {
    pub window: WindowHandle,
    pub geometry: Geometry,
}

/// One thing for the driver to carry out. Commands are carried out in the
/// order in which they are handed over. All but `Flush` and `Spawn` are
/// requests to the display server, which are buffered and answered by no
/// reply.
#[derive(Clone, Copy, Debug, PartialEq, Eq, Structural, Hash)]
pub enum Command {
    /// Release every key grab on `grab_window`, whatever the key and the
    /// modifiers.
    UngrabAllKeys { grab_window: WindowHandle },
    /// Grab the key `key` on `grab_window` while `modifiers` are held.
    GrabKey {
        owner_events: bool,
        grab_window: WindowHandle,
        modifiers: u16,
        key: u8,
        pointer_mode: GrabMode,
        keyboard_mode: GrabMode,
    },
    /// Grab the pointer button `button` on `grab_window` while `modifiers`
    /// are held.
    GrabButton {
        owner_events: bool,
        grab_window: WindowHandle,
        event_mask: u32,
        pointer_mode: GrabMode,
        keyboard_mode: GrabMode,
        confine_to: WindowHandle,
        button: u8,
        modifiers: u16,
    },
    /// Grab the pointer at once, until it is released again.
    GrabPointer {
        owner_events: bool,
        grab_window: WindowHandle,
        event_mask: u32,
        pointer_mode: GrabMode,
        keyboard_mode: GrabMode,
        confine_to: WindowHandle,
    },
    /// Release the pointer grab.
    UngrabPointer,
    /// Change a window's geometry.
    ConfigureWindow(ConfigureRequest),
    /// Send the buffered requests to the display server.
    Flush,
    /// Launch the default client program.
    Spawn,
}

impl Command {
    /// Whether the command is a request to the display server.
    pub open spec fn spec_is_request(self) -> bool {
        !(self is Flush) && !(self is Spawn)
    }

    /// Tells whether the command is a request to the display server, which
    /// stays in the connection's buffer until the next flush.
    pub fn is_request(&self) -> (r: bool)
        ensures
            r == self.spec_is_request(),
    {
        match self {
            Command::Flush => false,
            Command::Spawn => false,
            _ => true,
        }
    }
}

} // verus!
