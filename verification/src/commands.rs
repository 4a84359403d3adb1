//! Commands sent from the viewport overlay and the tool activation they
//! cause.

use vstd::prelude::*;
use crate::tool::ToolId;
use crate::two_click::TwoClickRectState;

verus! {

/// A request from a viewport's floating tool buttons: run a tool inside
/// the tab the buttons belong to.
#[derive(Debug, Clone, Copy, PartialEq, Eq, Structural)]
pub enum ViewportCommand {
    Run(ToolId, u32),
}

/// Which tool is active, and in which viewport tab it was started.
pub struct ActiveTool {
    pub tool: Option<ToolId>,
    pub tab_id: Option<u32>,
}

impl Default for ActiveTool {
    /// Initially no tool is active.
    fn default() -> (r: Self)
        ensures
            r.tool is None,
            r.tab_id is None,
    {
        ActiveTool { tool: None, tab_id: None }
    }
}

/// Activate the tool a viewport command names, tied to the tab the command
/// came from, with the two-click state reset for a fresh run.
///
/// Only the wall tool is implemented so far; the other tools have no
/// behaviour yet, so commands naming them are excluded.
pub fn apply_viewport_command(
    active: &mut ActiveTool,
    state: &mut TwoClickRectState,
    cmd: ViewportCommand,
)
    requires
        cmd matches ViewportCommand::Run(tool_id, _) && tool_id == ToolId::ArchitectWall,
    ensures
        cmd matches ViewportCommand::Run(tool_id, tab_id) ==> {
            &&& final(active).tool == Some(tool_id)
            &&& final(active).tab_id == Some(tab_id)
            &&& final(state).start is None
        },
{
    match cmd {
        ViewportCommand::Run(tool_id, tab_id) => {
            active.tool = Some(tool_id);
            active.tab_id = Some(tab_id);
            state.start = None;
        },
    }
}

} // verus!
