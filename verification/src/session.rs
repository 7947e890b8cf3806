//! One-time setup of the display session: finding the root window and
//! planning the grabs that are installed on it.

use vstd::prelude::*;
use crate::command::Command;
use crate::error::{ConnectionError, GrabConflictError};
use crate::grabs::{distinct_triggers, Binding, EventKind, GrabTable, Trigger};
use crate::protocol::{GrabMode, WindowHandle, BUTTON_GRAB_EVENTS};

verus! {

/// The root window of the screen with the given index, among the root
/// windows of the server's screens in their order.
pub open spec fn spec_select_root(roots: Seq<WindowHandle>, screen: i32) -> Result<
    WindowHandle,
    ConnectionError,
> {
    if 0 <= screen < roots.len() {
        Ok(roots[screen as int])
    } else {
        Err(ConnectionError::NoSuchScreen)
    }
}

/// Picks the root window of the screen that the connection was opened on.
/// A screen index that the server does not have is a connection error.
pub fn select_root(roots: &Vec<WindowHandle>, screen: i32) -> (root: Result<
    WindowHandle,
    ConnectionError,
>)
    ensures
        root == spec_select_root(roots@, screen),
{
    if screen < 0 {
        return Err(ConnectionError::NoSuchScreen);
    }
    let index = screen as usize;
    if index < roots.len() {
        Ok(roots[index])
    } else {
        Err(ConnectionError::NoSuchScreen)
    }
}

/// The request that registers one binding on the root window.
///
/// A key is grabbed with its events still reported as usual to the client
/// that owns the focus window; a button is grabbed for press and release,
/// with the pointer confined to the root window. Neither grab freezes the
/// other device.
pub open spec fn grab_command(root: WindowHandle, binding: Binding) -> Command {
    match binding.trigger.kind {
        EventKind::KeyPress => Command::GrabKey {
            owner_events: true,
            grab_window: root,
            modifiers: binding.trigger.modifiers,
            key: binding.trigger.code,
            pointer_mode: GrabMode::Async,
            keyboard_mode: GrabMode::Async,
        },
        EventKind::ButtonPress => Command::GrabButton {
            owner_events: false,
            grab_window: root,
            event_mask: BUTTON_GRAB_EVENTS,
            pointer_mode: GrabMode::Async,
            keyboard_mode: GrabMode::Async,
            confine_to: root,
            button: binding.trigger.code,
            modifiers: binding.trigger.modifiers,
        },
    }
}

/// The requests that install a grab table on the root window: first the one
/// that clears every key grab there, then one grab for each binding, in the
/// table's order.
pub open spec fn install_commands(root: WindowHandle, bindings: Seq<Binding>) -> Seq<Command> {
    seq![Command::UngrabAllKeys { grab_window: root }] + bindings.map_values(
        |binding: Binding| grab_command(root, binding),
    )
}

/// Builds the request that registers one binding on the root window.
pub fn grab_request(root: WindowHandle, binding: Binding) -> (command: Command)
    ensures
        command == grab_command(root, binding),
{
    match binding.trigger.kind {
        EventKind::KeyPress => Command::GrabKey {
            owner_events: true,
            grab_window: root,
            modifiers: binding.trigger.modifiers,
            key: binding.trigger.code,
            pointer_mode: GrabMode::Async,
            keyboard_mode: GrabMode::Async,
        },
        EventKind::ButtonPress => Command::GrabButton {
            owner_events: false,
            grab_window: root,
            event_mask: BUTTON_GRAB_EVENTS,
            pointer_mode: GrabMode::Async,
            keyboard_mode: GrabMode::Async,
            confine_to: root,
            button: binding.trigger.code,
            modifiers: binding.trigger.modifiers,
        },
    }
}

/// Plans the installation of a grab table on the root window.
///
/// The plan begins by clearing the key grabs that an earlier manager may
/// have left on the window, so that it can be carried out again at any time.
pub fn install_grabs(root: WindowHandle, table: &GrabTable) -> (commands: Vec<Command>)
    ensures
        commands@ == install_commands(root, table@),
{
    let mut commands: Vec<Command> = Vec::new();
    commands.push(Command::UngrabAllKeys { grab_window: root });
    let n = table.len();
    let mut i: usize = 0;
    while i < n
        invariant
            0 <= i <= n,
            n == table@.len(),
            commands@.len() == i + 1,
            commands@[0] == (Command::UngrabAllKeys { grab_window: root }),
            forall|k: int| 0 <= k < i ==> commands@[k + 1] == grab_command(root, table@[k]),
        decreases n - i,
    {
        match table.binding(i) {
            Some(binding) => {
                commands.push(grab_request(root, binding));
            },
            None => {},
        }
        i += 1;
    }
    proof {
        assert(commands@ =~= install_commands(root, table@));
    }
    commands
}

/// The trigger that a grab request is about, if the command is one.
pub open spec fn grabbed_trigger(command: Command) -> Option<Trigger> {
    match command {
        Command::GrabKey { modifiers, key, .. } => Some(
            Trigger { kind: EventKind::KeyPress, modifiers, code: key },
        ),
        Command::GrabButton { modifiers, button, .. } => Some(
            Trigger { kind: EventKind::ButtonPress, modifiers, code: button },
        ),
        _ => None,
    }
}

/// What the display server's answer to a command means for the setup: a
/// grab that the server refused is a conflict, anything else is in order.
pub open spec fn spec_grab_verdict(command: Command, granted: bool) -> Result<
    (),
    GrabConflictError,
> {
    match grabbed_trigger(command) {
        Some(trigger) => if granted {
            Ok(())
        } else {
            Err(GrabConflictError { trigger })
        },
        None => Ok(()),
    }
}

/// Judges the display server's answer to one command of the setup. A refused
/// grab is reported with the combination that another client owns; it is
/// never passed over.
pub fn grab_verdict(command: &Command, granted: bool) -> (verdict: Result<(), GrabConflictError>)
    ensures
        verdict == spec_grab_verdict(*command, granted),
{
    match command {
        Command::GrabKey { modifiers, key, .. } => {
            if granted {
                Ok(())
            } else {
                Err(
                    GrabConflictError {
                        trigger: Trigger {
                            kind: EventKind::KeyPress,
                            modifiers: *modifiers,
                            code: *key,
                        },
                    },
                )
            }
        },
        Command::GrabButton { modifiers, button, .. } => {
            if granted {
                Ok(())
            } else {
                Err(
                    GrabConflictError {
                        trigger: Trigger {
                            kind: EventKind::ButtonPress,
                            modifiers: *modifiers,
                            code: *button,
                        },
                    },
                )
            }
        },
        _ => Ok(()),
    }
}

/// A key grab as the display server keeps it.
pub struct KeyGrab {
    pub window: WindowHandle,
    pub modifiers: u16,
    pub key: u8,
}

/// What one command does to the key grabs that the display server keeps.
///
/// Clearing the key grabs of a window drops those and no others. Grabbing a
/// key adds the grab, unless the same key is grabbed on the window with the
/// same modifiers already: that is a conflict. No other command touches the
/// key grabs.
pub open spec fn serve(held: Set<KeyGrab>, command: Command) -> Result<
    Set<KeyGrab>,
    GrabConflictError,
> {
    match command {
        Command::UngrabAllKeys { grab_window } => Ok(
            Set::new(|grab: KeyGrab| held.contains(grab) && grab.window != grab_window),
        ),
        Command::GrabKey { grab_window, modifiers, key, .. } => {
            let grab = KeyGrab { window: grab_window, modifiers, key };
            if held.contains(grab) {
                Err(
                    GrabConflictError {
                        trigger: Trigger { kind: EventKind::KeyPress, modifiers, code: key },
                    },
                )
            } else {
                Ok(held.insert(grab))
            }
        },
        _ => Ok(held),
    }
}

/// What a run of commands does to the key grabs that the display server
/// keeps: each command is served in turn, up to the first conflict.
pub open spec fn serve_all(held: Set<KeyGrab>, commands: Seq<Command>) -> Result<
    Set<KeyGrab>,
    GrabConflictError,
>
    decreases commands.len(),
{
    if commands.len() == 0 {
        Ok(held)
    } else {
        match serve(held, commands[0]) {
            Ok(next) => serve_all(next, commands.drop_first()),
            Err(conflict) => Err(conflict),
        }
    }
}

/// The key grabs that a grab table asks for on the root window.
pub open spec fn key_grabs(root: WindowHandle, bindings: Seq<Binding>) -> Set<KeyGrab> {
    Set::new(
        |grab: KeyGrab|
            grab.window == root && exists|i: int|
                0 <= i < bindings.len() && (#[trigger] bindings[i]).trigger == (Trigger {
                    kind: EventKind::KeyPress,
                    modifiers: grab.modifiers,
                    code: grab.key,
                }),
    )
}

/// The grabs that are left once the key grabs of the root window are
/// cleared.
pub open spec fn cleared(root: WindowHandle, held: Set<KeyGrab>) -> Set<KeyGrab> {
    Set::new(|grab: KeyGrab| held.contains(grab) && grab.window != root)
}

/// Registering the bindings of a table one by one meets no conflict where
/// none of its keys is grabbed on the root window yet.
proof fn lemma_register(root: WindowHandle, bindings: Seq<Binding>, held: Set<KeyGrab>)
    requires
        distinct_triggers(bindings),
        forall|grab: KeyGrab| held.contains(grab) ==> !key_grabs(root, bindings).contains(grab),
    ensures
        serve_all(held, bindings.map_values(|binding: Binding| grab_command(root, binding)))
            == Ok::<Set<KeyGrab>, GrabConflictError>(held.union(key_grabs(root, bindings))),
    decreases bindings.len(),
{
    let commands = bindings.map_values(|binding: Binding| grab_command(root, binding));
    if bindings.len() == 0 {
        assert(held.union(key_grabs(root, bindings)) =~= held);
    } else {
        let first = bindings[0];
        let rest = bindings.drop_first();
        assert(commands[0] == grab_command(root, first));
        assert(commands.drop_first() =~= rest.map_values(
            |binding: Binding| grab_command(root, binding),
        ));
        assert(forall|i: int| 0 <= i < rest.len() ==> rest[i] == bindings[i + 1]);
        assert(distinct_triggers(rest)) by {
            assert forall|i: int, j: int| 0 <= i < j < rest.len() implies (
            #[trigger] rest[i]).trigger != (#[trigger] rest[j]).trigger by {
                assert(bindings[i + 1].trigger != bindings[j + 1].trigger);
            }
        }
        let next = serve(held, commands[0])->Ok_0;
        if first.trigger.kind is KeyPress {
            let grab = KeyGrab {
                window: root,
                modifiers: first.trigger.modifiers,
                key: first.trigger.code,
            };
            assert(key_grabs(root, bindings).contains(grab));
            assert(next == held.insert(grab));
        } else {
            assert(next == held);
        }
        assert forall|grab: KeyGrab| next.contains(grab) implies !key_grabs(root, rest).contains(
            grab,
        ) by {
            if key_grabs(root, rest).contains(grab) {
                let i = choose|i: int|
                    0 <= i < rest.len() && (#[trigger] rest[i]).trigger == (Trigger {
                        kind: EventKind::KeyPress,
                        modifiers: grab.modifiers,
                        code: grab.key,
                    });
                assert(bindings[i + 1].trigger == rest[i].trigger);
                assert(bindings[0].trigger != bindings[i + 1].trigger);
                assert(key_grabs(root, bindings).contains(grab));
            }
        }
        lemma_register(root, rest, next);
        assert(next.union(key_grabs(root, rest)) =~= held.union(key_grabs(root, bindings))) by {
            assert forall|grab: KeyGrab|
                key_grabs(root, rest).contains(grab) implies key_grabs(root, bindings).contains(
                grab,
            ) by {
                let i = choose|i: int|
                    0 <= i < rest.len() && (#[trigger] rest[i]).trigger == (Trigger {
                        kind: EventKind::KeyPress,
                        modifiers: grab.modifiers,
                        code: grab.key,
                    });
                assert(bindings[i + 1].trigger == rest[i].trigger);
            }
            assert forall|grab: KeyGrab|
                key_grabs(root, bindings).contains(grab) implies next.contains(grab) || key_grabs(
                    root,
                    rest,
                ).contains(grab) by {
                let i = choose|i: int|
                    0 <= i < bindings.len() && (#[trigger] bindings[i]).trigger == (Trigger {
                        kind: EventKind::KeyPress,
                        modifiers: grab.modifiers,
                        code: grab.key,
                    });
                if i > 0 {
                    assert(rest[i - 1].trigger == bindings[i].trigger);
                }
            }
        }
    }
}

/// Installing a grab table succeeds whatever key grabs the display server
/// still keeps, and so succeeds again when it is repeated.
///
/// The plan clears the key grabs of the root window before it registers its
/// own, so that grabs left over from an earlier startup cannot stand in its
/// way. Served on any set of key grabs, the plan of a table meets no
/// conflict and leaves the grabs of other windows together with those of
/// the table; served once more on that outcome, it gives the same again.
pub proof fn theorem_install_repeats(
    root: WindowHandle,
    bindings: Seq<Binding>,
    stale: Set<KeyGrab>,
)
    requires
        distinct_triggers(bindings),
    ensures
        serve_all(stale, install_commands(root, bindings)) == Ok::<
            Set<KeyGrab>,
            GrabConflictError,
        >(cleared(root, stale).union(key_grabs(root, bindings))),
        serve_all(
            cleared(root, stale).union(key_grabs(root, bindings)),
            install_commands(root, bindings),
        ) == serve_all(stale, install_commands(root, bindings)),
{
    let plan = install_commands(root, bindings);
    let grabs = bindings.map_values(|binding: Binding| grab_command(root, binding));
    assert(plan[0] == (Command::UngrabAllKeys { grab_window: root }));
    assert(plan.drop_first() =~= grabs);
    let installed = cleared(root, stale).union(key_grabs(root, bindings));
    assert(serve(stale, plan[0]) == Ok::<Set<KeyGrab>, GrabConflictError>(cleared(root, stale)));
    lemma_register(root, bindings, cleared(root, stale));
    assert(cleared(root, installed) =~= cleared(root, stale));
    assert(serve(installed, plan[0]) == Ok::<Set<KeyGrab>, GrabConflictError>(
        cleared(root, installed),
    ));
}

} // verus!
