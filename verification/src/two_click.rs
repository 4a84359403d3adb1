//! The two-click wall tool's state machine.
//!
//! The host casts the cursor's ray onto the ground plane and hands the hit
//! point over in integer millimetres (the vertical coordinate is forced to
//! zero before it gets here). The first click records the start point; the
//! second finalises the wall between start and end, clears the state and
//! deactivates the tool. A wall shorter than one millimetre — with both
//! points on the same millimetre — is dropped rather than placed.

use vstd::prelude::*;
use crate::commands::ActiveTool;

verus! {

/// A point on the ground plane (y = 0), in millimetres.
#[derive(Debug, PartialEq, Eq, Structural, Clone, Copy)]
pub struct GroundPoint {
    pub x: i32,
    pub z: i32,
}

/// How far the ghost's stub end sits from the cursor before the first
/// click, in millimetres (half a metre).
pub const GHOST_STUB_MM: i32 = 500;

/// The state of the two-click tool: the recorded first click, if any.
pub struct TwoClickRectState {
    pub start: Option<GroundPoint>,
}

impl Default for TwoClickRectState {
    /// Initially no start point is recorded.
    fn default() -> (r: Self)
        ensures
            r.start is None,
    {
        TwoClickRectState { start: None }
    }
}

/// What the host must do after a click of the two-click tool.
#[derive(Debug, PartialEq, Eq, Structural, Clone, Copy)]
pub enum WallAction {
    /// First click: the start point was recorded, nothing to spawn yet.
    Started,
    /// Second click: spawn a wall between these two ground points.
    Placed(GroundPoint, GroundPoint),
    /// Second click on the same millimetre as the first: no wall, but the
    /// tool still deactivates.
    Dropped,
}

/// One click of the active wall tool at the given ground-plane hit.
///
/// The first click records `hit` and leaves the tool active; the second
/// click always deactivates the tool and clears the state, and yields a
/// wall exactly when the two points differ.
pub fn two_click_event(
    active: &mut ActiveTool,
    state: &mut TwoClickRectState,
    hit: GroundPoint,
) -> (r: WallAction)
    requires
        old(active).tool == Some(crate::tool::ToolId::ArchitectWall),
    ensures
        old(state).start is None ==> {
            &&& final(state).start == Some(hit)
            &&& final(active).tool == old(active).tool
            &&& final(active).tab_id == old(active).tab_id
            &&& r == WallAction::Started
        },
        old(state).start matches Some(start) ==> {
            &&& final(state).start is None
            &&& final(active).tool is None
            &&& final(active).tab_id is None
            &&& r == (if start == hit {
                WallAction::Dropped
            } else {
                WallAction::Placed(start, hit)
            })
        },
{
    match state.start {
        None => {
            state.start = Some(hit);
            WallAction::Started
        },
        Some(start) => {
            state.start = None;
            active.tool = None;
            active.tab_id = None;
            if start.x == hit.x && start.z == hit.z {
                WallAction::Dropped
            } else {
                WallAction::Placed(start, hit)
            }
        },
    }
}

/// Where the stub end of the ghost sits for a cursor at `x`: half a metre
/// further along the x axis, held at the numeric limit instead of wrapping.
pub open spec fn ghost_stub_x(x: int) -> int {
    if x + GHOST_STUB_MM <= i32::MAX { x + GHOST_STUB_MM } else { i32::MAX as int }
}

/// The segment the ghost preview spans for the current state and cursor
/// hit: start-to-cursor once the first click is down, otherwise a short
/// stub at the cursor.
pub fn ghost_segment(state: &TwoClickRectState, hit: GroundPoint) -> (r: (
    GroundPoint,
    GroundPoint,
))
    ensures
        state.start matches Some(start) ==> r == (start, hit),
        state.start is None ==> {
            &&& r.0 == hit
            &&& r.1.x == ghost_stub_x(hit.x as int)
            &&& r.1.z == hit.z
        },
{
    match state.start {
        Some(start) => (start, hit),
        None => {
            let stub_x: i32 = if hit.x <= i32::MAX - GHOST_STUB_MM {
                hit.x + GHOST_STUB_MM
            } else {
                i32::MAX
            };
            (hit, GroundPoint { x: stub_x, z: hit.z })
        },
    }
}

/// Whether a wall between the two points would be degenerate: shorter than
/// one millimetre, which on the millimetre grid means the points coincide.
pub fn wall_is_degenerate(a: GroundPoint, b: GroundPoint) -> (r: bool)
    ensures
        r <==> a == b,
{
    a.x == b.x && a.z == b.z
}

} // verus!
