//! What a complete drag does: where the dragged window ends up, and how
//! often the pointer grab is released.

use vstd::prelude::*;
use crate::command::{Command, Geometry};
use crate::error::TransientEventError;
use crate::event::{Event, InputDetail, Received};
use crate::grabs::{spec_lookup, Action, EventKind};
use crate::interaction::{spec_clamp_extent, InteractionMode};
use crate::manager::{
    lemma_replay_concat,
    lemma_replay_one,
    pointer_grab,
    press_trigger,
    replay,
    step,
    ManagerState,
};
use crate::protocol::WindowHandle;

verus! {

/// Origin and extent of a window, as the display server keeps them.
pub struct Placement {
    pub x: int,
    pub y: int,
    pub width: int,
    pub height: int,
}

/// The placement of `window` once the display server has carried out one
/// command: a configure request for this window sets the part that it names,
/// and nothing else touches the placement.
pub open spec fn configured(placement: Placement, window: WindowHandle, command: Command)
    -> Placement {
    match command {
        Command::ConfigureWindow(request) => if request.window == window {
            match request.geometry {
                Geometry::Position { x, y } => Placement { x: x as int, y: y as int, ..placement },
                Geometry::Size { width, height } => Placement {
                    width: width as int,
                    height: height as int,
                    ..placement
                },
            }
        } else {
            placement
        },
        _ => placement,
    }
}

/// The placement of `window` once the display server has carried out the
/// commands in their order.
pub open spec fn placement_after(placement: Placement, window: WindowHandle, commands: Seq<Command>)
    -> Placement
    decreases commands.len(),
{
    if commands.len() == 0 {
        placement
    } else {
        configured(
            placement_after(placement, window, commands.drop_last()),
            window,
            commands.last(),
        )
    }
}

/// How many of the commands release the pointer grab.
pub open spec fn pointer_releases(commands: Seq<Command>) -> nat
    decreases commands.len(),
{
    if commands.len() == 0 {
        0
    } else {
        pointer_releases(commands.drop_last()) + (if commands.last() is UngrabPointer {
            1nat
        } else {
            0nat
        })
    }
}

/// The inputs of pointer motions, one for each detail.
pub open spec fn motion_inputs(motions: Seq<InputDetail>) -> Seq<Received> {
    motions.map_values(
        |detail: InputDetail| Ok::<Event, TransientEventError>(Event::MotionNotify(detail)),
    )
}

/// The inputs of a whole drag: a button goes down, the pointer moves, a
/// button goes up.
pub open spec fn drag_inputs(press: InputDetail, motions: Seq<InputDetail>, release: InputDetail)
    -> Seq<Received> {
    seq![Ok::<Event, TransientEventError>(Event::ButtonPress(press))] + motion_inputs(motions)
        + seq![Ok::<Event, TransientEventError>(Event::ButtonRelease(release))]
}

/// Carrying out two runs of commands one after the other places the window
/// as carrying out their concatenation does.
pub proof fn lemma_placement_concat(
    placement: Placement,
    window: WindowHandle,
    first: Seq<Command>,
    second: Seq<Command>,
)
    ensures
        placement_after(placement, window, first + second) == placement_after(
            placement_after(placement, window, first),
            window,
            second,
        ),
    decreases second.len(),
{
    if second.len() == 0 {
        assert(first + second =~= first);
    } else {
        assert((first + second).drop_last() =~= first + second.drop_last());
        assert((first + second).last() == second.last());
        lemma_placement_concat(placement, window, first, second.drop_last());
    }
}

/// The releases of a concatenation are those of its two parts.
pub proof fn lemma_releases_concat(first: Seq<Command>, second: Seq<Command>)
    ensures
        pointer_releases(first + second) == pointer_releases(first) + pointer_releases(second),
    decreases second.len(),
{
    if second.len() == 0 {
        assert(first + second =~= first);
    } else {
        assert((first + second).drop_last() =~= first + second.drop_last());
        assert((first + second).last() == second.last());
        lemma_releases_concat(first, second.drop_last());
    }
}

/// Two commands in a row, as the display server carries them out.
proof fn lemma_pair(placement: Placement, window: WindowHandle, a: Command, b: Command)
    ensures
        placement_after(placement, window, seq![a, b]) == configured(
            configured(placement, window, a),
            window,
            b,
        ),
        pointer_releases(seq![a, b]) == (if a is UngrabPointer {
            1nat
        } else {
            0nat
        }) + (if b is UngrabPointer {
            1nat
        } else {
            0nat
        }),
{
    let both = seq![a, b];
    let one = seq![a];
    assert(both.drop_last() =~= one);
    assert(one.drop_last() =~= Seq::<Command>::empty());
    assert(both.last() == b && one.last() == a);
    let none = Seq::<Command>::empty();
    assert(placement_after(placement, window, none) == placement);
    assert(pointer_releases(none) == 0);
    assert(placement_after(placement, window, one) == configured(placement, window, a));
    assert(pointer_releases(one) == pointer_releases(none) + (if a is UngrabPointer {
        1nat
    } else {
        0nat
    }));
}

/// During a drag, pointer motions leave the manager as it is, release
/// nothing, and leave the dragged window where the last of them asks.
pub proof fn lemma_motions_during_drag(
    s: ManagerState,
    motions: Seq<InputDetail>,
    placement: Placement,
)
    requires
        s.running,
        !(s.mode is Idle),
    ensures
        ({
            let (end, commands) = replay(s, motion_inputs(motions));
            &&& end == s
            &&& pointer_releases(commands) == 0
            &&& motions.len() == 0 ==> commands == Seq::<Command>::empty()
            &&& motions.len() > 0 ==> match s.mode {
                InteractionMode::Moving(window) => placement_after(placement, window, commands)
                    == (Placement {
                    x: motions.last().root_x as int,
                    y: motions.last().root_y as int,
                    ..placement
                }),
                InteractionMode::Resizing(window) => placement_after(placement, window, commands)
                    == (Placement {
                    width: spec_clamp_extent(motions.last().root_x) as int,
                    height: spec_clamp_extent(motions.last().root_y) as int,
                    ..placement
                }),
                InteractionMode::Idle => true,
            }
        }),
    decreases motions.len(),
{
    if motions.len() == 0 {
        assert(motion_inputs(motions) =~= Seq::<Received>::empty());
    } else {
        let earlier = motions.drop_last();
        let last = Ok::<Event, TransientEventError>(Event::MotionNotify(motions.last()));
        assert(motion_inputs(motions) =~= motion_inputs(earlier) + seq![last]);
        lemma_motions_during_drag(s, earlier, placement);
        lemma_replay_concat(s, motion_inputs(earlier), seq![last]);
        lemma_replay_one(s, last);
        let head = replay(s, motion_inputs(earlier)).1;
        let tail = step(s, last).1;
        lemma_placement_concat(placement, s.mode.spec_target()->0, head, tail);
        lemma_releases_concat(head, tail);
        let reached = placement_after(placement, s.mode.spec_target()->0, head);
        lemma_pair(reached, s.mode.spec_target()->0, tail[0], tail[1]);
        assert(tail =~= seq![tail[0], tail[1]]);
    }
}

/// What a drag comes to, whichever of the two actions began it.
proof fn lemma_drag(
    s: ManagerState,
    press: InputDetail,
    motions: Seq<InputDetail>,
    release: InputDetail,
    before: Placement,
    mode: InteractionMode,
)
    requires
        s.running,
        s.mode is Idle,
        !(mode is Idle),
        step(s, Ok(Event::ButtonPress(press))) == (
            ManagerState { mode, ..s },
            seq![pointer_grab(s.root), Command::Flush],
        ),
    ensures
        ({
            let dragging = ManagerState { mode, ..s };
            let (end, commands) = replay(s, drag_inputs(press, motions, release));
            let moved = replay(dragging, motion_inputs(motions)).1;
            &&& end == s
            &&& pointer_releases(commands) == 1
            &&& placement_after(before, mode.spec_target()->0, commands) == placement_after(
                before,
                mode.spec_target()->0,
                moved,
            )
        }),
{
    let dragging = ManagerState { mode, ..s };
    let down = Ok::<Event, TransientEventError>(Event::ButtonPress(press));
    let up = Ok::<Event, TransientEventError>(Event::ButtonRelease(release));
    let window = mode.spec_target()->0;
    lemma_replay_concat(s, seq![down] + motion_inputs(motions), seq![up]);
    lemma_replay_concat(s, seq![down], motion_inputs(motions));
    lemma_replay_one(s, down);
    lemma_replay_one(dragging, up);
    lemma_motions_during_drag(dragging, motions, before);
    let grabbed = step(s, down).1;
    let moved = replay(dragging, motion_inputs(motions)).1;
    let released = step(dragging, up).1;
    assert(step(dragging, up).0 == s);
    assert(released =~= seq![Command::UngrabPointer, Command::Flush]);
    lemma_pair(before, window, grabbed[0], grabbed[1]);
    assert(grabbed =~= seq![grabbed[0], grabbed[1]]);
    lemma_placement_concat(before, window, grabbed, moved);
    lemma_releases_concat(grabbed, moved);
    lemma_placement_concat(before, window, grabbed + moved, released);
    lemma_releases_concat(grabbed + moved, released);
    let reached = placement_after(before, window, grabbed + moved);
    lemma_pair(reached, window, Command::UngrabPointer, Command::Flush);
}

/// A move, from the press that begins it to the release that ends it.
///
/// Where the grab table binds the pressed button to moving, and the manager
/// is running and idle, then after the press, one or more pointer motions
/// and a release, the window under the press has its origin at the root
/// coordinates of the last motion and its extent as before, the pointer grab
/// has been released exactly once, and the manager is idle again.
pub proof fn theorem_move_follows_pointer(
    s: ManagerState,
    press: InputDetail,
    motions: Seq<InputDetail>,
    release: InputDetail,
    before: Placement,
)
    requires
        s.running,
        s.mode is Idle,
        spec_lookup(s.table, press_trigger(EventKind::ButtonPress, press)) == Some(Action::Move),
        motions.len() > 0,
    ensures
        ({
            let (end, commands) = replay(s, drag_inputs(press, motions, release));
            &&& end == s
            &&& pointer_releases(commands) == 1
            &&& placement_after(before, press.child, commands) == (Placement {
                x: motions.last().root_x as int,
                y: motions.last().root_y as int,
                ..before
            })
        }),
{
    let mode = InteractionMode::Moving(press.child);
    lemma_drag(s, press, motions, release, before, mode);
    lemma_motions_during_drag(ManagerState { mode, ..s }, motions, before);
}

/// A resize, from the press that begins it to the release that ends it.
///
/// Where the grab table binds the pressed button to resizing, and the manager
/// is running and idle, then after the press, one or more pointer motions
/// and a release, the window under the press has the root coordinates of the
/// last motion as its width and height, each raised to the smallest extent
/// where it is below that, and its origin as before; the pointer grab has
/// been released exactly once, and the manager is idle again.
pub proof fn theorem_resize_follows_pointer(
    s: ManagerState,
    press: InputDetail,
    motions: Seq<InputDetail>,
    release: InputDetail,
    before: Placement,
)
    requires
        s.running,
        s.mode is Idle,
        spec_lookup(s.table, press_trigger(EventKind::ButtonPress, press)) == Some(
            Action::Resize,
        ),
        motions.len() > 0,
    ensures
        ({
            let (end, commands) = replay(s, drag_inputs(press, motions, release));
            &&& end == s
            &&& pointer_releases(commands) == 1
            &&& placement_after(before, press.child, commands) == (Placement {
                width: spec_clamp_extent(motions.last().root_x) as int,
                height: spec_clamp_extent(motions.last().root_y) as int,
                ..before
            })
            &&& placement_after(before, press.child, commands).width >= 1
            &&& placement_after(before, press.child, commands).height >= 1
        }),
{
    let mode = InteractionMode::Resizing(press.child);
    lemma_drag(s, press, motions, release, before, mode);
    lemma_motions_during_drag(ManagerState { mode, ..s }, motions, before);
}

} // verus!
