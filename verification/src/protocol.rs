//! Values of the X11 core protocol that the manager's decisions rest on.

use vstd::prelude::*;

verus! {

/// Identifier of a window on the display server.
///
/// The value is never interpreted here: the server alone knows whether the
/// window exists.
#[derive(Clone, Copy, Debug, PartialEq, Eq, Structural, Hash)]
pub struct WindowHandle(pub u32);

/// A set of modifier keys, one bit per key, laid out as in the protocol's
/// key masks. The same type carries the state field of an input event, whose
/// upper bits tell which pointer buttons are down.
pub type ModifierMask = u16;

/// The lock modifier (caps lock).
pub const MOD_LOCK: u16 = 0x0002;

/// The fourth modifier, commonly the "super" key.
pub const MOD_4: u16 = 0x0040;

/// The eight modifier keys of the protocol: what is left of an event's state
/// once the pointer buttons are taken out.
pub const MODIFIER_KEYS: u16 = 0x00ff;

/// The modifier that every binding of the standard grab table asks for.
pub const MODKEY: u16 = MOD_4;

/// Event mask bit: a pointer button goes down.
pub const EVENT_BUTTON_PRESS: u32 = 0x0004;

/// Event mask bit: a pointer button goes up.
pub const EVENT_BUTTON_RELEASE: u32 = 0x0008;

/// Event mask bit: the pointer moves, whatever the buttons.
pub const EVENT_POINTER_MOTION: u32 = 0x0040;

/// Event mask bit: the pointer moves while some button is down.
pub const EVENT_BUTTON_MOTION: u32 = 0x2000;

/// Events that a passive button grab reports.
pub const BUTTON_GRAB_EVENTS: u32 = EVENT_BUTTON_PRESS | EVENT_BUTTON_RELEASE;

/// Events that the active pointer grab of a drag reports.
pub const DRAG_EVENTS: u32 = EVENT_BUTTON_RELEASE | EVENT_BUTTON_MOTION | EVENT_POINTER_MOTION;

/// Whether the other input device keeps running while a grab is active.
#[derive(Clone, Copy, Debug, PartialEq, Eq, Structural, Hash)]
pub enum GrabMode {
    /// The device freezes until the grabbing client lets events through.
    Sync,
    /// Event processing goes on as usual.
    Async,
}

/// The modifier keys of an event state that count when a binding is looked
/// up: the pointer buttons and the lock modifier are left out.
pub open spec fn spec_effective_modifiers(state: u16) -> u16 {
    state & MODIFIER_KEYS & !MOD_LOCK
}

/// Strips the pointer buttons and the lock modifier from an event state.
///
/// A grab fires for the mask it was registered with, and also when the lock
/// modifier is held on top of it; the result is what the grab table is
/// searched for.
pub fn effective_modifiers(state: u16) -> (r: u16)
    ensures
        r == spec_effective_modifiers(state),
{
    state & MODIFIER_KEYS & !MOD_LOCK
}

/// What is looked up holds modifier keys only, and never the lock modifier;
/// a mask of modifier keys without lock is looked up as it is.
pub proof fn lemma_effective_modifiers(state: u16)
    ensures
        spec_effective_modifiers(state) & MOD_LOCK == 0,
        spec_effective_modifiers(state) & !MODIFIER_KEYS == 0,
        (state & !MODIFIER_KEYS == 0 && state & MOD_LOCK == 0) ==> spec_effective_modifiers(state)
            == state,
{
    assert((state & 0x00ffu16 & !0x0002u16) & 0x0002u16 == 0) by (bit_vector);
    assert((state & 0x00ffu16 & !0x0002u16) & !0x00ffu16 == 0) by (bit_vector);
    assert((state & !0x00ffu16 == 0 && state & 0x0002u16 == 0) ==> (state & 0x00ffu16 & !0x0002u16)
        == state) by (bit_vector);
}

} // verus!
