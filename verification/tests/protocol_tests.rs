use wm_core::command::Command;
use wm_core::error::{
    exit_code, ConnectionError, GrabConflictError, ManagerError, SpawnError, TransientEventError,
};
use wm_core::grabs::{EventKind, Trigger};
use wm_core::protocol::{
    effective_modifiers, WindowHandle, BUTTON_GRAB_EVENTS, DRAG_EVENTS, EVENT_BUTTON_MOTION,
    EVENT_BUTTON_PRESS, EVENT_BUTTON_RELEASE, EVENT_POINTER_MOTION, MODIFIER_KEYS, MODKEY, MOD_4,
    MOD_LOCK,
};
use xcb::x;

#[test]
fn modifier_bits_are_those_of_the_protocol() {
    assert_eq!(MOD_4 as u32, x::ModMask::N4.bits());
    assert_eq!(MOD_LOCK as u32, x::ModMask::LOCK.bits());
    assert_eq!(MODKEY as u32, x::ModMask::N4.bits());
    assert_eq!(MOD_4 as u32, x::KeyButMask::MOD4.bits());
    assert_eq!(MOD_LOCK as u32, x::KeyButMask::LOCK.bits());
    let keys = x::ModMask::SHIFT
        | x::ModMask::LOCK
        | x::ModMask::CONTROL
        | x::ModMask::N1
        | x::ModMask::N2
        | x::ModMask::N3
        | x::ModMask::N4
        | x::ModMask::N5;
    assert_eq!(MODIFIER_KEYS as u32, keys.bits());
    assert_eq!((MOD_4, MOD_LOCK, MODIFIER_KEYS), (0x40, 0x02, 0xff));
}

#[test]
fn event_bits_are_those_of_the_protocol() {
    assert_eq!(EVENT_BUTTON_PRESS, x::EventMask::BUTTON_PRESS.bits());
    assert_eq!(EVENT_BUTTON_RELEASE, x::EventMask::BUTTON_RELEASE.bits());
    assert_eq!(EVENT_POINTER_MOTION, x::EventMask::POINTER_MOTION.bits());
    assert_eq!(EVENT_BUTTON_MOTION, x::EventMask::BUTTON_MOTION.bits());
    assert_eq!(
        BUTTON_GRAB_EVENTS,
        (x::EventMask::BUTTON_PRESS | x::EventMask::BUTTON_RELEASE).bits()
    );
    assert_eq!(
        DRAG_EVENTS,
        (x::EventMask::BUTTON_RELEASE | x::EventMask::BUTTON_MOTION | x::EventMask::POINTER_MOTION)
            .bits()
    );
    assert_eq!((BUTTON_GRAB_EVENTS, DRAG_EVENTS), (0x000c, 0x2048));
}

#[test]
fn effective_modifiers_drop_lock_and_buttons() {
    assert_eq!(effective_modifiers(0), 0);
    assert_eq!(effective_modifiers(0x0040), 0x0040);
    assert_eq!(effective_modifiers(0x0042), 0x0040);
    assert_eq!(effective_modifiers(0x0002), 0);
    assert_eq!(effective_modifiers(0x0140), 0x0040);
    assert_eq!(effective_modifiers(0x1f00), 0);
    assert_eq!(effective_modifiers(0x0045), 0x0045);
    assert_eq!(effective_modifiers(0xffff), 0x00fd);
    assert_eq!(effective_modifiers(0x8000), 0);
}

#[test]
fn requests_and_other_commands() {
    let root = WindowHandle(1);
    assert!(Command::UngrabAllKeys { grab_window: root }.is_request());
    assert!(Command::UngrabPointer.is_request());
    assert!(!Command::Flush.is_request());
    assert!(!Command::Spawn.is_request());
}

#[test]
fn fatal_and_recoverable_errors() {
    let conflict = GrabConflictError {
        trigger: Trigger { kind: EventKind::KeyPress, modifiers: 0x40, code: 24 },
    };
    assert!(ManagerError::Connection(ConnectionError::Unreachable).is_fatal());
    assert!(ManagerError::Connection(ConnectionError::NoSuchScreen).is_fatal());
    assert!(ManagerError::Connection(ConnectionError::Closed).is_fatal());
    assert!(ManagerError::GrabConflict(conflict).is_fatal());
    assert!(!ManagerError::TransientEvent(TransientEventError {}).is_fatal());
    assert!(!ManagerError::Spawn(SpawnError {}).is_fatal());
}

#[test]
fn exit_codes() {
    assert_eq!(exit_code(&Ok(())), 0);
    assert_eq!(exit_code(&Err(ManagerError::Connection(ConnectionError::Unreachable))), 1);
    assert_eq!(exit_code(&Err(ManagerError::Connection(ConnectionError::Closed))), 1);
    assert_eq!(exit_code(&Err(ManagerError::Spawn(SpawnError {}))), 1);
}
