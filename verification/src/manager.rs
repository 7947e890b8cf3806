//! The event dispatcher: the window manager's state and what each received
//! event does to it.

use vstd::prelude::*;
use crate::command::Command;
use crate::event::{Event, InputDetail, Received};
use crate::error::TransientEventError;
use crate::grabs::{
    lemma_lookup_first_match,
    lemma_standard_lookup,
    spec_lookup,
    standard_bindings,
    Action,
    Binding,
    EventKind,
    GrabTable,
    Trigger,
};
use crate::interaction::{compute_geometry_update, spec_geometry_update, InteractionMode};
use crate::protocol::{
    effective_modifiers,
    spec_effective_modifiers,
    GrabMode,
    WindowHandle,
    DRAG_EVENTS,
    MODIFIER_KEYS,
    MODKEY,
    MOD_LOCK,
};
use crate::session::{install_commands, install_grabs};

verus! {

/// The state of a window manager, as contracts see it.
pub struct ManagerState {
    /// The run flag: events are handled while it is set.
    pub running: bool,
    /// The root window of the managed screen.
    pub root: WindowHandle,
    /// The pointer interaction in progress.
    pub mode: InteractionMode,
    /// The bindings of the grab table, in their order.
    pub table: Seq<Binding>,
}

/// The active pointer grab of a drag: motion and button release are reported
/// to the manager wherever the pointer goes, and the pointer stays within the
/// root window.
pub open spec fn pointer_grab(root: WindowHandle) -> Command {
    Command::GrabPointer {
        owner_events: false,
        grab_window: root,
        event_mask: DRAG_EVENTS,
        pointer_mode: GrabMode::Async,
        keyboard_mode: GrabMode::Async,
        confine_to: root,
    }
}

/// The trigger that a press is looked up by: its kind, its key or button,
/// and the modifier keys that count.
pub open spec fn press_trigger(kind: EventKind, detail: InputDetail) -> Trigger {
    Trigger { kind, modifiers: spec_effective_modifiers(detail.state), code: detail.code }
}

/// A drag begins only from the idle mode: the pointer is grabbed and the
/// request is flushed. While a drag is in progress a further press is passed
/// over.
pub open spec fn begin_drag(s: ManagerState, mode: InteractionMode) -> (ManagerState, Seq<Command>) {
    if s.mode is Idle {
        (ManagerState { mode, ..s }, seq![pointer_grab(s.root), Command::Flush])
    } else {
        (s, Seq::empty())
    }
}

/// What the action of a binding does when its trigger is pressed. Moving and
/// resizing are drags, which only a button can begin, as only the button's
/// release ends them.
pub open spec fn perform(s: ManagerState, kind: EventKind, action: Action, child: WindowHandle) -> (
    ManagerState,
    Seq<Command>,
) {
    match action {
        Action::Spawn => (s, seq![Command::Spawn]),
        Action::Quit => (ManagerState { running: false, ..s }, Seq::empty()),
        Action::Ignore => (s, Seq::empty()),
        Action::Move => if kind is ButtonPress {
            begin_drag(s, InteractionMode::Moving(child))
        } else {
            (s, Seq::empty())
        },
        Action::Resize => if kind is ButtonPress {
            begin_drag(s, InteractionMode::Resizing(child))
        } else {
            (s, Seq::empty())
        },
    }
}

/// A press of a key or a button: the action that the grab table binds to it
/// is performed, and a press that the table does not bind is passed over.
pub open spec fn on_press(s: ManagerState, kind: EventKind, detail: InputDetail) -> (
    ManagerState,
    Seq<Command>,
) {
    match spec_lookup(s.table, press_trigger(kind, detail)) {
        Some(action) => perform(s, kind, action, detail.child),
        None => (s, Seq::empty()),
    }
}

/// A pointer motion: during a drag the window's geometry is set from the
/// pointer's position and the request is flushed.
pub open spec fn on_motion(s: ManagerState, detail: InputDetail) -> (ManagerState, Seq<Command>) {
    match spec_geometry_update(s.mode, detail) {
        Some(request) => (s, seq![Command::ConfigureWindow(request), Command::Flush]),
        None => (s, Seq::empty()),
    }
}

/// A button release: a drag in progress ends, whichever button it was, and
/// the pointer grab is released. Outside a drag nothing happens.
pub open spec fn on_release(s: ManagerState) -> (ManagerState, Seq<Command>) {
    if s.mode is Idle {
        (s, Seq::empty())
    } else {
        (
            ManagerState { mode: InteractionMode::Idle, ..s },
            seq![Command::UngrabPointer, Command::Flush],
        )
    }
}

/// What one wait on the connection does to the manager: the state after it
/// and the commands to carry out, in order.
///
/// A manager whose run flag is down handles nothing. A transport error is
/// passed over, and so is an event of no interest.
pub open spec fn step(s: ManagerState, input: Received) -> (ManagerState, Seq<Command>) {
    if !s.running {
        (s, Seq::empty())
    } else {
        match input {
            Ok(Event::KeyPress(detail)) => on_press(s, EventKind::KeyPress, detail),
            Ok(Event::ButtonPress(detail)) => on_press(s, EventKind::ButtonPress, detail),
            Ok(Event::MotionNotify(detail)) => on_motion(s, detail),
            Ok(Event::ButtonRelease(_)) => on_release(s),
            Ok(Event::Other) => (s, Seq::empty()),
            Err(_) => (s, Seq::empty()),
        }
    }
}

/// What a stream of inputs does to the manager: each input is handled in
/// turn while the run flag is up, and nothing after it has gone down.
pub open spec fn replay(s: ManagerState, inputs: Seq<Received>) -> (ManagerState, Seq<Command>)
    decreases inputs.len(),
{
    if inputs.len() == 0 || !s.running {
        (s, Seq::empty())
    } else {
        let (next, first) = step(s, inputs[0]);
        let (end, rest) = replay(next, inputs.drop_first());
        (end, first + rest)
    }
}

/// Replaying one input is taking one step.
pub proof fn lemma_replay_one(s: ManagerState, input: Received)
    ensures
        replay(s, seq![input]) == step(s, input),
{
    let inputs = seq![input];
    assert(inputs[0] == input);
    assert(inputs.drop_first() =~= Seq::<Received>::empty());
    let (next, first) = step(s, input);
    assert(replay(next, Seq::<Received>::empty()) == (next, Seq::<Command>::empty()));
    assert(first + Seq::<Command>::empty() =~= first);
}

/// Replaying two streams one after the other is replaying their
/// concatenation.
pub proof fn lemma_replay_concat(s: ManagerState, first: Seq<Received>, second: Seq<Received>)
    ensures
        replay(s, first + second) == ({
            let (middle, head) = replay(s, first);
            let (end, tail) = replay(middle, second);
            (end, head + tail)
        }),
    decreases first.len(),
{
    if first.len() == 0 {
        assert(first + second =~= second);
        assert(Seq::<Command>::empty() + replay(s, second).1 =~= replay(s, second).1);
    } else if !s.running {
        assert(Seq::<Command>::empty() + Seq::<Command>::empty() =~= Seq::<Command>::empty());
    } else {
        let (next, one) = step(s, first[0]);
        assert((first + second)[0] == first[0]);
        assert((first + second).drop_first() =~= first.drop_first() + second);
        lemma_replay_concat(next, first.drop_first(), second);
        let (middle, head) = replay(next, first.drop_first());
        let (end, tail) = replay(middle, second);
        assert(one + (head + tail) =~= (one + head) + tail);
    }
}

/// The commands of one step keep the flush discipline: where they hold a
/// request to the display server, a flush follows as their last, and no
/// flush stands anywhere else.
pub open spec fn flushed_once(commands: Seq<Command>) -> bool {
    &&& (exists|i: int| 0 <= i < commands.len() && (#[trigger] commands[i]).spec_is_request())
        <==> (commands.len() > 0 && commands.last() is Flush)
    &&& forall|i: int| 0 <= i < commands.len() - 1 ==> !((#[trigger] commands[i]) is Flush)
}

/// Every step flushes the requests that it issues, once and after the last
/// of them, and flushes nothing where it issues none.
pub proof fn lemma_step_flushes_requests(s: ManagerState, input: Received)
    ensures
        flushed_once(step(s, input).1),
{
    let commands = step(s, input).1;
    if commands.len() > 0 {
        assert(commands.len() == 1 || commands.len() == 2);
        if commands.len() == 2 {
            assert(commands[1] is Flush);
            assert(commands[0].spec_is_request());
        } else {
            assert(commands[0] is Spawn);
        }
    }
}

/// What no step changes, and what only some steps change: the root window
/// and the grab table stay as they are; the run flag never goes up, and goes
/// down only on a press that the table binds to quitting; the interaction
/// mode changes only on a button press or a button release.
pub proof fn lemma_step_preserves(s: ManagerState, input: Received)
    ensures
        ({
            let next = step(s, input).0;
            &&& next.root == s.root
            &&& next.table == s.table
            &&& next.running ==> s.running
            &&& next.running != s.running ==> (input matches Ok(Event::KeyPress(detail))
                && spec_lookup(s.table, press_trigger(EventKind::KeyPress, detail)) == Some(
                Action::Quit,
            )) || (input matches Ok(Event::ButtonPress(detail)) && spec_lookup(
                s.table,
                press_trigger(EventKind::ButtonPress, detail),
            ) == Some(Action::Quit))
            &&& next.mode != s.mode ==> input is Ok && (input->Ok_0 is ButtonPress
                || input->Ok_0 is ButtonRelease)
        }),
{
}

/// A button press with modifiers that no binding of the pressed button asks
/// for is passed over: the state stays as it is, no drag begins and no
/// pointer grab is asked for.
pub proof fn lemma_press_without_modifier(s: ManagerState, detail: InputDetail)
    requires
        forall|i: int|
            0 <= i < s.table.len() && (#[trigger] s.table[i]).trigger.kind == EventKind::ButtonPress
                && s.table[i].trigger.code == detail.code ==> s.table[i].trigger.modifiers
                != spec_effective_modifiers(detail.state),
    ensures
        step(s, Ok(Event::ButtonPress(detail))) == (s, Seq::<Command>::empty()),
{
    lemma_lookup_first_match(s.table, press_trigger(EventKind::ButtonPress, detail));
}

/// With the standard grab table, a press of any key or button without the
/// manager's modifier is passed over.
pub proof fn lemma_standard_press_needs_modkey(s: ManagerState, kind: EventKind, detail: InputDetail)
    requires
        s.table == standard_bindings(),
        spec_effective_modifiers(detail.state) != MODKEY,
    ensures
        on_press(s, kind, detail) == (s, Seq::<Command>::empty()),
        step(s, Ok(Event::ButtonPress(detail))) == (s, Seq::<Command>::empty()),
        step(s, Ok(Event::KeyPress(detail))) == (s, Seq::<Command>::empty()),
{
    lemma_standard_lookup(press_trigger(EventKind::ButtonPress, detail));
    lemma_standard_lookup(press_trigger(EventKind::KeyPress, detail));
}

/// The lock modifier and the pointer buttons that are down make no
/// difference to what a press does.
pub proof fn lemma_lock_makes_no_difference(
    s: ManagerState,
    kind: EventKind,
    detail: InputDetail,
    buttons: u16,
)
    requires
        buttons & MODIFIER_KEYS == 0,
    ensures
        on_press(s, kind, InputDetail { state: detail.state | MOD_LOCK | buttons, ..detail })
            == on_press(s, kind, detail),
{
    let state = detail.state;
    assert(buttons & 0x00ffu16 == 0 ==> ((state | 0x0002u16 | buttons) & 0x00ffu16 & !0x0002u16)
        == (state & 0x00ffu16 & !0x0002u16)) by (bit_vector);
}

/// A button release outside a drag is passed over: the manager stays idle
/// and the pointer grab, which it does not hold, is not released.
pub proof fn lemma_release_while_idle(s: ManagerState, detail: InputDetail)
    requires
        s.mode is Idle,
    ensures
        step(s, Ok(Event::ButtonRelease(detail))) == (s, Seq::<Command>::empty()),
{
}

/// A transport error is skipped: the step leaves the state as it is, the run
/// flag with it, and asks for nothing, so that a stream of inputs with an
/// error in it is handled as the stream without the error is.
pub proof fn lemma_transport_error_skipped(
    s: ManagerState,
    error: TransientEventError,
    before: Seq<Received>,
    after: Seq<Received>,
)
    ensures
        step(s, Err(error)) == (s, Seq::<Command>::empty()),
        replay(s, before + seq![Err::<Event, TransientEventError>(error)] + after) == replay(
            s,
            before + after,
        ),
{
    let failed = Err::<Event, TransientEventError>(error);
    let (middle, head) = replay(s, before);
    assert(before + seq![failed] + after =~= before + (seq![failed] + after));
    lemma_replay_concat(s, before, seq![failed] + after);
    lemma_replay_concat(middle, seq![failed], after);
    lemma_replay_one(middle, failed);
    lemma_replay_concat(s, before, after);
    let tail = replay(middle, after).1;
    assert(Seq::<Command>::empty() + tail =~= tail);
}

/// The manager as the event loop begins: the run flag is up and no
/// interaction is in progress.
pub open spec fn started(s: ManagerState) -> ManagerState {
    ManagerState { running: true, mode: InteractionMode::Idle, ..s }
}

/// A whole run of the event loop over a stream of inputs: the requests of
/// the setup are flushed, then the inputs are replayed.
pub open spec fn spec_run(s: ManagerState, inputs: Seq<Received>) -> (ManagerState, Seq<Command>) {
    let (end, commands) = replay(started(s), inputs);
    (end, seq![Command::Flush] + commands)
}

/// The commands of the setup: the grab table is installed on the root
/// window, then the default client is launched.
pub open spec fn setup_commands(root: WindowHandle, bindings: Seq<Binding>) -> Seq<Command> {
    install_commands(root, bindings) + seq![Command::Spawn]
}

/// A window manager: the run flag, the root window, the interaction in
/// progress and the grab table. It decides; its driver acts.
pub struct WindowManager {
    running: bool,
    root: WindowHandle,
    mode: InteractionMode,
    table: GrabTable,
}

impl View for WindowManager {
    type V = ManagerState;

    closed spec fn view(&self) -> ManagerState {
        ManagerState {
            running: self.running,
            root: self.root,
            mode: self.mode,
            table: self.table@,
        }
    }
}

impl WindowManager {
    /// Makes a manager for the screen with the given root window, and plans
    /// its setup. The manager does not run yet.
    pub fn setup(root: WindowHandle, table: GrabTable) -> (made: (WindowManager, Vec<Command>))
        ensures
            made.0@ == (ManagerState {
                running: false,
                root,
                mode: InteractionMode::Idle,
                table: table@,
            }),
            made.1@ == setup_commands(root, table@),
    {
        let mut commands = install_grabs(root, &table);
        commands.push(Command::Spawn);
        let manager = WindowManager { running: false, root, mode: InteractionMode::Idle, table };
        (manager, commands)
    }

    /// Begins the event loop: raises the run flag and has the requests of
    /// the setup flushed.
    pub fn start(&mut self) -> (commands: Vec<Command>)
        ensures
            final(self)@ == started(old(self)@),
            commands@ == seq![Command::Flush],
    {
        self.running = true;
        self.mode = InteractionMode::Idle;
        let mut commands: Vec<Command> = Vec::new();
        commands.push(Command::Flush);
        commands
    }

    /// Handles what one wait on the connection came back with, and says what
    /// to carry out before the next wait.
    pub fn handle(&mut self, input: &Received) -> (commands: Vec<Command>)
        ensures
            (final(self)@, commands@) == step(old(self)@, *input),
    {
        let mut commands: Vec<Command> = Vec::new();
        if !self.running {
            return commands;
        }
        match input {
            Ok(Event::KeyPress(detail)) => {
                self.press(EventKind::KeyPress, detail, &mut commands);
            },
            Ok(Event::ButtonPress(detail)) => {
                self.press(EventKind::ButtonPress, detail, &mut commands);
            },
            Ok(Event::MotionNotify(detail)) => {
                match compute_geometry_update(self.mode, detail) {
                    Some(request) => {
                        commands.push(Command::ConfigureWindow(request));
                        commands.push(Command::Flush);
                    },
                    None => {},
                }
            },
            Ok(Event::ButtonRelease(_)) => {
                match self.mode {
                    InteractionMode::Idle => {},
                    _ => {
                        self.mode = InteractionMode::Idle;
                        commands.push(Command::UngrabPointer);
                        commands.push(Command::Flush);
                    },
                }
            },
            Ok(Event::Other) => {},
            Err(_) => {},
        }
        proof {
            assert(commands@ =~= step(old(self)@, *input).1);
        }
        commands
    }

    /// Looks a press up in the grab table and performs the action bound to
    /// it.
    fn press(&mut self, kind: EventKind, detail: &InputDetail, commands: &mut Vec<Command>)
        requires
            old(commands)@.len() == 0,
        ensures
            (final(self)@, final(commands)@) == on_press(old(self)@, kind, *detail),
    {
        let trigger = Trigger {
            kind,
            modifiers: effective_modifiers(detail.state),
            code: detail.code,
        };
        let drag = match self.table.lookup(trigger) {
            None => None,
            Some(Action::Spawn) => {
                commands.push(Command::Spawn);
                None
            },
            Some(Action::Quit) => {
                self.running = false;
                None
            },
            Some(Action::Ignore) => None,
            Some(Action::Move) => Some(InteractionMode::Moving(detail.child)),
            Some(Action::Resize) => Some(InteractionMode::Resizing(detail.child)),
        };
        match (drag, kind, self.mode) {
            (Some(mode), EventKind::ButtonPress, InteractionMode::Idle) => {
                self.mode = mode;
                commands.push(
                    Command::GrabPointer {
                        owner_events: false,
                        grab_window: self.root,
                        event_mask: DRAG_EVENTS,
                        pointer_mode: GrabMode::Async,
                        keyboard_mode: GrabMode::Async,
                        confine_to: self.root,
                    },
                );
                commands.push(Command::Flush);
            },
            _ => {},
        }
        proof {
            assert(commands@ =~= on_press(old(self)@, kind, *detail).1);
        }
    }

    /// Runs the event loop over a stream of inputs that was received
    /// earlier: begins as `start` does, then handles the inputs one by one
    /// until the stream ends or the run flag goes down. The commands of all
    /// steps come back in order.
    pub fn run(&mut self, inputs: &Vec<Received>) -> (commands: Vec<Command>)
        ensures
            (final(self)@, commands@) == spec_run(old(self)@, inputs@),
    {
        let mut commands = self.start();
        let mut i: usize = 0;
        proof {
            assert(inputs@.skip(0) =~= inputs@);
            assert(commands@ + replay(self@, inputs@).1 =~= spec_run(old(self)@, inputs@).1);
        }
        while i < inputs.len() && self.running
            invariant
                0 <= i <= inputs.len(),
                replay(self@, inputs@.skip(i as int)).0 == spec_run(old(self)@, inputs@).0,
                commands@ + replay(self@, inputs@.skip(i as int)).1 == spec_run(
                    old(self)@,
                    inputs@,
                ).1,
            decreases inputs.len() - i,
        {
            let ghost before = self@;
            let ghost done = commands@;
            let mut step_commands = self.handle(&inputs[i]);
            commands.append(&mut step_commands);
            proof {
                let rest = inputs@.skip(i as int);
                assert(rest[0] == inputs@[i as int]);
                assert(rest.drop_first() =~= inputs@.skip(i as int + 1));
                let (next, first) = step(before, rest[0]);
                let tail = replay(next, rest.drop_first()).1;
                assert(done + (first + tail) =~= (done + first) + tail);
            }
            i += 1;
        }
        proof {
            assert(replay(self@, inputs@.skip(i as int)).1 =~= Seq::<Command>::empty());
            assert(commands@ + Seq::<Command>::empty() =~= commands@);
        }
        commands
    }

    /// Whether the run flag is up.
    pub fn is_running(&self) -> (running: bool)
        ensures
            running == self@.running,
    {
        self.running
    }

    /// The root window of the managed screen.
    pub fn root(&self) -> (root: WindowHandle)
        ensures
            root == self@.root,
    {
        self.root
    }

    /// The pointer interaction in progress.
    pub fn mode(&self) -> (mode: InteractionMode)
        ensures
            mode == self@.mode,
    {
        self.mode
    }
}

} // verus!
