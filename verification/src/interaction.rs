//! The pointer interaction that is in progress, and the geometry that a
//! pointer motion asks for.

use vstd::prelude::*;
use crate::command::{ConfigureRequest, Geometry};
use crate::event::InputDetail;
use crate::protocol::WindowHandle;

verus! {

/// Smallest width or height that a resize asks for: the display server
/// refuses a window without extent.
pub const MIN_EXTENT: u32 = 1;

/// What the pointer is doing to which window. At most one interaction is in
/// progress at any time.
#[derive(Clone, Copy, Debug, PartialEq, Eq, Structural, Hash)]
pub enum InteractionMode {
    /// No drag is in progress.
    Idle,
    /// The window follows the pointer with its origin.
    Moving(WindowHandle),
    /// The window follows the pointer with its extent.
    Resizing(WindowHandle),
}

impl InteractionMode {
    /// The window that the interaction in progress is about.
    pub open spec fn spec_target(self) -> Option<WindowHandle> {
        match self {
            InteractionMode::Idle => None,
            InteractionMode::Moving(window) => Some(window),
            InteractionMode::Resizing(window) => Some(window),
        }
    }

    /// The window that is being dragged, if any is.
    pub fn target(&self) -> (window: Option<WindowHandle>)
        ensures
            window == self.spec_target(),
    {
        match self {
            InteractionMode::Idle => None,
            InteractionMode::Moving(window) => Some(*window),
            InteractionMode::Resizing(window) => Some(*window),
        }
    }
}

/// A root coordinate read as a window extent: the coordinate itself, or
/// `MIN_EXTENT` where the coordinate is smaller than that.
pub open spec fn spec_clamp_extent(coord: i16) -> u32 {
    if coord < MIN_EXTENT {
        MIN_EXTENT
    } else {
        coord as u32
    }
}

/// Reads a root coordinate as a window extent, never smaller than
/// `MIN_EXTENT`.
pub fn clamp_extent(coord: i16) -> (extent: u32)
    ensures
        extent == spec_clamp_extent(coord),
        extent >= MIN_EXTENT,
{
    if coord < 1 {
        MIN_EXTENT
    } else {
        coord as u32
    }
}

/// The configure request that a pointer motion gives rise to.
///
/// The pointer's root coordinates are applied as they are, with no account of
/// where the drag began: a moved window gets them as its origin, a resized
/// window as its extent, clamped from below. Outside a drag a motion asks for
/// nothing.
pub open spec fn spec_geometry_update(mode: InteractionMode, motion: InputDetail) -> Option<
    ConfigureRequest,
> {
    match mode {
        InteractionMode::Idle => None,
        InteractionMode::Moving(window) => Some(
            ConfigureRequest {
                window,
                geometry: Geometry::Position { x: motion.root_x as i32, y: motion.root_y as i32 },
            },
        ),
        InteractionMode::Resizing(window) => Some(
            ConfigureRequest {
                window,
                geometry: Geometry::Size {
                    width: spec_clamp_extent(motion.root_x),
                    height: spec_clamp_extent(motion.root_y),
                },
            },
        ),
    }
}

/// Computes the configure request for a pointer motion in the given mode.
pub fn compute_geometry_update(mode: InteractionMode, motion: &InputDetail) -> (request: Option<
    ConfigureRequest,
>)
    ensures
        request == spec_geometry_update(mode, *motion),
{
    match mode {
        InteractionMode::Idle => None,
        InteractionMode::Moving(window) => Some(
            ConfigureRequest {
                window,
                geometry: Geometry::Position { x: motion.root_x as i32, y: motion.root_y as i32 },
            },
        ),
        InteractionMode::Resizing(window) => Some(
            ConfigureRequest {
                window,
                geometry: Geometry::Size {
                    width: clamp_extent(motion.root_x),
                    height: clamp_extent(motion.root_y),
                },
            },
        ),
    }
}

} // verus!
