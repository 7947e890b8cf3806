use wm_core::command::{Command, ConfigureRequest, Geometry};
use wm_core::error::TransientEventError;
use wm_core::event::{Event, InputDetail, Received};
use wm_core::grabs::{Action, Binding, EventKind, GrabTable, Trigger};
use wm_core::interaction::{clamp_extent, compute_geometry_update, InteractionMode, MIN_EXTENT};
use wm_core::manager::WindowManager;
use wm_core::protocol::{GrabMode, WindowHandle, DRAG_EVENTS, MODKEY, MOD_LOCK};

const ROOT: WindowHandle = WindowHandle(1);
const W42: WindowHandle = WindowHandle(42);

fn detail(code: u8, state: u16, child: WindowHandle, root_x: i16, root_y: i16) -> InputDetail {
    InputDetail { code, state, child, root_x, root_y, event_x: 0, event_y: 0 }
}

fn press(button: u8, state: u16, child: WindowHandle) -> Received {
    Ok(Event::ButtonPress(detail(button, state, child, 7, 9)))
}

fn motion(root_x: i16, root_y: i16) -> Received {
    Ok(Event::MotionNotify(detail(0, MODKEY | 0x0100, W42, root_x, root_y)))
}

fn release(button: u8) -> Received {
    Ok(Event::ButtonRelease(detail(button, MODKEY | 0x0100, W42, 3, 4)))
}

fn running_manager() -> WindowManager {
    let (mut manager, _) = WindowManager::setup(ROOT, GrabTable::standard());
    manager.start();
    manager
}

fn pointer_grab() -> Command {
    Command::GrabPointer {
        owner_events: false,
        grab_window: ROOT,
        event_mask: DRAG_EVENTS,
        pointer_mode: GrabMode::Async,
        keyboard_mode: GrabMode::Async,
        confine_to: ROOT,
    }
}

fn position(window: WindowHandle, x: i32, y: i32) -> Command {
    Command::ConfigureWindow(ConfigureRequest { window, geometry: Geometry::Position { x, y } })
}

fn size(window: WindowHandle, width: u32, height: u32) -> Command {
    Command::ConfigureWindow(ConfigureRequest { window, geometry: Geometry::Size { width, height } })
}

fn releases(commands: &[Command]) -> usize {
    commands.iter().filter(|c| matches!(c, Command::UngrabPointer)).count()
}

#[test]
fn press_motion_release_moves_window() {
    let mut manager = running_manager();
    let grabbed = manager.handle(&press(1, MODKEY, W42));
    assert_eq!(grabbed, vec![pointer_grab(), Command::Flush]);
    assert_eq!(manager.mode(), InteractionMode::Moving(W42));

    let moved = manager.handle(&motion(100, 50));
    assert_eq!(moved, vec![position(W42, 100, 50), Command::Flush]);
    assert_eq!(manager.mode(), InteractionMode::Moving(W42));

    let released = manager.handle(&release(1));
    assert_eq!(released, vec![Command::UngrabPointer, Command::Flush]);
    assert_eq!(manager.mode(), InteractionMode::Idle);
    assert!(manager.is_running());
}

#[test]
fn move_ends_at_last_motion() {
    let mut manager = running_manager();
    let mut all = Vec::new();
    all.extend(manager.handle(&press(1, MODKEY, W42)));
    for (x, y) in [(10, 10), (-3, 250), (640, 480)] {
        all.extend(manager.handle(&motion(x, y)));
    }
    all.extend(manager.handle(&release(1)));
    assert_eq!(
        all,
        vec![
            pointer_grab(),
            Command::Flush,
            position(W42, 10, 10),
            Command::Flush,
            position(W42, -3, 250),
            Command::Flush,
            position(W42, 640, 480),
            Command::Flush,
            Command::UngrabPointer,
            Command::Flush,
        ]
    );
    let last = all.iter().rev().find(|c| matches!(c, Command::ConfigureWindow(_)));
    assert_eq!(last, Some(&position(W42, 640, 480)));
    assert_eq!(releases(&all), 1);
    assert_eq!(manager.mode(), InteractionMode::Idle);
}

#[test]
fn resize_ends_at_last_motion() {
    let mut manager = running_manager();
    let mut all = Vec::new();
    all.extend(manager.handle(&press(3, MODKEY, W42)));
    assert_eq!(manager.mode(), InteractionMode::Resizing(W42));
    all.extend(manager.handle(&motion(20, 30)));
    all.extend(manager.handle(&motion(300, 200)));
    all.extend(manager.handle(&release(3)));
    assert_eq!(
        all,
        vec![
            pointer_grab(),
            Command::Flush,
            size(W42, 20, 30),
            Command::Flush,
            size(W42, 300, 200),
            Command::Flush,
            Command::UngrabPointer,
            Command::Flush,
        ]
    );
    assert_eq!(releases(&all), 1);
    assert_eq!(manager.mode(), InteractionMode::Idle);
}

#[test]
fn resize_clamps_to_minimum() {
    let mut manager = running_manager();
    manager.handle(&press(3, MODKEY, W42));
    assert_eq!(manager.handle(&motion(-5, 0)), vec![size(W42, 1, 1), Command::Flush]);
    assert_eq!(manager.handle(&motion(0, 17)), vec![size(W42, 1, 17), Command::Flush]);
    assert_eq!(manager.handle(&motion(1, -32768)), vec![size(W42, 1, 1), Command::Flush]);
    assert_eq!(manager.handle(&motion(32767, 2)), vec![size(W42, 32767, 2), Command::Flush]);
}

#[test]
fn clamp_extent_values() {
    assert_eq!(MIN_EXTENT, 1);
    assert_eq!(clamp_extent(-32768), 1);
    assert_eq!(clamp_extent(-1), 1);
    assert_eq!(clamp_extent(0), 1);
    assert_eq!(clamp_extent(1), 1);
    assert_eq!(clamp_extent(2), 2);
    assert_eq!(clamp_extent(32767), 32767);
}

#[test]
fn geometry_update_by_mode() {
    let at = detail(0, 0, WindowHandle(9), -7, 12);
    assert_eq!(compute_geometry_update(InteractionMode::Idle, &at), None);
    assert_eq!(
        compute_geometry_update(InteractionMode::Moving(W42), &at),
        Some(ConfigureRequest { window: W42, geometry: Geometry::Position { x: -7, y: 12 } })
    );
    assert_eq!(
        compute_geometry_update(InteractionMode::Resizing(W42), &at),
        Some(ConfigureRequest { window: W42, geometry: Geometry::Size { width: 1, height: 12 } })
    );
}

#[test]
fn mode_target() {
    assert_eq!(InteractionMode::Idle.target(), None);
    assert_eq!(InteractionMode::Moving(W42).target(), Some(W42));
    assert_eq!(InteractionMode::Resizing(ROOT).target(), Some(ROOT));
}

#[test]
fn press_without_modifier_is_ignored() {
    let mut manager = running_manager();
    assert_eq!(manager.handle(&press(1, 0, W42)), vec![]);
    assert_eq!(manager.mode(), InteractionMode::Idle);
    assert_eq!(manager.handle(&press(3, 0, W42)), vec![]);
    assert_eq!(manager.mode(), InteractionMode::Idle);
    assert_eq!(manager.handle(&press(1, 0, W42)), vec![]);
    assert_eq!(manager.mode(), InteractionMode::Idle);
    assert!(manager.is_running());
}

#[test]
fn press_with_other_modifiers_is_ignored() {
    let mut manager = running_manager();
    // shift held on top of the modifier, then control alone
    assert_eq!(manager.handle(&press(1, MODKEY | 0x0001, W42)), vec![]);
    assert_eq!(manager.handle(&press(1, 0x0004, W42)), vec![]);
    assert_eq!(manager.mode(), InteractionMode::Idle);
}

#[test]
fn lock_and_buttons_do_not_count_as_modifiers() {
    let mut manager = running_manager();
    let grabbed = manager.handle(&press(1, MODKEY | MOD_LOCK | 0x0400, W42));
    assert_eq!(grabbed, vec![pointer_grab(), Command::Flush]);
    assert_eq!(manager.mode(), InteractionMode::Moving(W42));
}

#[test]
fn unbound_button_is_ignored() {
    let mut manager = running_manager();
    assert_eq!(manager.handle(&press(2, MODKEY, W42)), vec![]);
    assert_eq!(manager.mode(), InteractionMode::Idle);
}

#[test]
fn release_while_idle_is_ignored() {
    let mut manager = running_manager();
    assert_eq!(manager.handle(&release(1)), vec![]);
    assert_eq!(manager.mode(), InteractionMode::Idle);
    assert!(manager.is_running());
}

#[test]
fn motion_while_idle_is_ignored() {
    let mut manager = running_manager();
    assert_eq!(manager.handle(&motion(100, 50)), vec![]);
    assert_eq!(manager.mode(), InteractionMode::Idle);
}

#[test]
fn second_press_during_drag_is_ignored() {
    let mut manager = running_manager();
    manager.handle(&press(1, MODKEY, W42));
    assert_eq!(manager.handle(&press(3, MODKEY, WindowHandle(77))), vec![]);
    assert_eq!(manager.mode(), InteractionMode::Moving(W42));
    assert_eq!(manager.handle(&press(1, MODKEY, WindowHandle(77))), vec![]);
    assert_eq!(manager.mode(), InteractionMode::Moving(W42));
    assert_eq!(manager.handle(&motion(5, 6)), vec![position(W42, 5, 6), Command::Flush]);
}

#[test]
fn release_of_any_button_ends_drag() {
    let mut manager = running_manager();
    manager.handle(&press(1, MODKEY, W42));
    assert_eq!(manager.handle(&release(3)), vec![Command::UngrabPointer, Command::Flush]);
    assert_eq!(manager.mode(), InteractionMode::Idle);
    assert_eq!(manager.handle(&release(3)), vec![]);
}

#[test]
fn reserved_key_does_nothing() {
    let mut manager = running_manager();
    for key in [
        Ok(Event::KeyPress(detail(24, MODKEY, W42, 0, 0))),
        Ok(Event::KeyPress(detail(25, MODKEY, W42, 0, 0))),
        Ok(Event::KeyPress(detail(24, 0, W42, 0, 0))),
    ] {
        assert_eq!(manager.handle(&key), vec![]);
        assert_eq!(manager.mode(), InteractionMode::Idle);
        assert!(manager.is_running());
    }
}

#[test]
fn key_press_launches_client() {
    let (mut manager, _) = WindowManager::setup(ROOT, custom_table());
    manager.start();
    let key = Ok(Event::KeyPress(detail(12, 0x0008, W42, 0, 0)));
    assert_eq!(manager.handle(&key), vec![Command::Spawn]);
    assert_eq!(manager.mode(), InteractionMode::Idle);
    assert!(manager.is_running());
    // during a drag too, and the drag goes on
    manager.handle(&press(1, 0x0004, W42));
    assert_eq!(manager.handle(&key), vec![Command::Spawn]);
    assert_eq!(manager.mode(), InteractionMode::Resizing(W42));
}

#[test]
fn key_code_is_not_a_button() {
    let mut manager = running_manager();
    // button 24 is not bound, nor is key 1
    assert_eq!(manager.handle(&press(24, MODKEY, W42)), vec![]);
    let key = Ok(Event::KeyPress(detail(1, MODKEY, W42, 0, 0)));
    assert_eq!(manager.handle(&key), vec![]);
    assert_eq!(manager.mode(), InteractionMode::Idle);
}

#[test]
fn other_event_is_ignored() {
    let mut manager = running_manager();
    manager.handle(&press(3, MODKEY, W42));
    assert_eq!(manager.handle(&Ok(Event::Other)), vec![]);
    assert_eq!(manager.mode(), InteractionMode::Resizing(W42));
    assert!(manager.is_running());
}

#[test]
fn transport_error_is_skipped() {
    let mut manager = running_manager();
    manager.handle(&press(1, MODKEY, W42));
    assert_eq!(manager.handle(&Err(TransientEventError {})), vec![]);
    assert!(manager.is_running());
    assert_eq!(manager.mode(), InteractionMode::Moving(W42));
    assert_eq!(manager.root(), ROOT);
    assert_eq!(manager.handle(&motion(100, 50)), vec![position(W42, 100, 50), Command::Flush]);
}

#[test]
fn nothing_is_handled_before_start() {
    let (mut manager, _) = WindowManager::setup(ROOT, GrabTable::standard());
    assert!(!manager.is_running());
    assert_eq!(manager.handle(&press(1, MODKEY, W42)), vec![]);
    assert_eq!(manager.mode(), InteractionMode::Idle);
    assert_eq!(manager.start(), vec![Command::Flush]);
    assert!(manager.is_running());
    assert_eq!(manager.handle(&press(1, MODKEY, W42)), vec![pointer_grab(), Command::Flush]);
}

fn custom_table() -> GrabTable {
    let mut table = GrabTable::new();
    let bindings = [
        (EventKind::KeyPress, 0x0008, 9, Action::Quit),
        (EventKind::KeyPress, 0x0008, 10, Action::Move),
        (EventKind::KeyPress, 0x0008, 11, Action::Resize),
        (EventKind::KeyPress, 0x0008, 12, Action::Spawn),
        (EventKind::ButtonPress, 0x0008, 1, Action::Ignore),
        (EventKind::ButtonPress, 0, 2, Action::Spawn),
        (EventKind::ButtonPress, 0x0008, 8, Action::Quit),
        (EventKind::ButtonPress, 0x0004, 1, Action::Resize),
    ];
    for (kind, modifiers, code, action) in bindings {
        let bound = table.bind(Binding { trigger: Trigger { kind, modifiers, code }, action });
        assert_eq!(bound, Ok(()));
    }
    table
}

#[test]
fn quit_binding_lowers_run_flag() {
    let (mut manager, _) = WindowManager::setup(ROOT, custom_table());
    manager.start();
    manager.handle(&press(1, 0x0004, W42));
    assert_eq!(manager.mode(), InteractionMode::Resizing(W42));
    let quit = Ok(Event::KeyPress(detail(9, 0x0008, W42, 0, 0)));
    assert_eq!(manager.handle(&quit), vec![]);
    assert!(!manager.is_running());
    assert_eq!(manager.mode(), InteractionMode::Resizing(W42));
    // nothing more is handled
    assert_eq!(manager.handle(&motion(5, 5)), vec![]);
    assert_eq!(manager.handle(&release(1)), vec![]);
    assert_eq!(manager.mode(), InteractionMode::Resizing(W42));
}

#[test]
fn ignored_button_begins_no_drag() {
    let (mut manager, _) = WindowManager::setup(ROOT, custom_table());
    manager.start();
    assert_eq!(manager.handle(&press(1, 0x0008, W42)), vec![]);
    assert_eq!(manager.mode(), InteractionMode::Idle);
    assert!(manager.is_running());
}

#[test]
fn button_can_quit_or_spawn() {
    let (mut manager, _) = WindowManager::setup(ROOT, custom_table());
    manager.start();
    assert_eq!(manager.handle(&press(2, 0, W42)), vec![Command::Spawn]);
    assert!(manager.is_running());
    assert_eq!(manager.handle(&press(8, 0x0008, W42)), vec![]);
    assert!(!manager.is_running());
}

#[test]
fn key_bound_to_drag_begins_none() {
    let (mut manager, _) = WindowManager::setup(ROOT, custom_table());
    manager.start();
    let move_key = Ok(Event::KeyPress(detail(10, 0x0008, W42, 0, 0)));
    let resize_key = Ok(Event::KeyPress(detail(11, 0x0008, W42, 0, 0)));
    assert_eq!(manager.handle(&move_key), vec![]);
    assert_eq!(manager.handle(&resize_key), vec![]);
    assert_eq!(manager.mode(), InteractionMode::Idle);
    assert!(manager.is_running());
}
