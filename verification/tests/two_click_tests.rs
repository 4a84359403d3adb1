use monolith_core::commands::{apply_viewport_command, ActiveTool, ViewportCommand};
use monolith_core::tool::ToolId;
use monolith_core::two_click::{
    ghost_segment, two_click_event, wall_is_degenerate, GroundPoint, TwoClickRectState, WallAction,
};

fn p(x: i32, z: i32) -> GroundPoint {
    GroundPoint { x, z }
}

#[test]
fn running_the_wall_tool_activates_it() {
    let mut active = ActiveTool::default();
    let mut state = TwoClickRectState::default();
    apply_viewport_command(&mut active, &mut state, ViewportCommand::Run(ToolId::ArchitectWall, 5));
    assert_eq!(active.tool, Some(ToolId::ArchitectWall));
    assert_eq!(active.tab_id, Some(5));
    assert!(state.start.is_none());
}

#[test]
fn first_click_records_the_start_point() {
    let mut active = ActiveTool { tool: Some(ToolId::ArchitectWall), tab_id: Some(1) };
    let mut state = TwoClickRectState::default();
    let action = two_click_event(&mut active, &mut state, p(1000, 2000));
    assert_eq!(action, WallAction::Started);
    assert_eq!(state.start, Some(p(1000, 2000)));
    assert_eq!(active.tool, Some(ToolId::ArchitectWall));
    assert_eq!(active.tab_id, Some(1));
}

#[test]
fn second_click_places_the_wall_and_disarms_the_tool() {
    let mut active = ActiveTool { tool: Some(ToolId::ArchitectWall), tab_id: Some(1) };
    let mut state = TwoClickRectState { start: Some(p(0, 0)) };
    let action = two_click_event(&mut active, &mut state, p(4000, 0));
    assert_eq!(action, WallAction::Placed(p(0, 0), p(4000, 0)));
    assert!(state.start.is_none());
    assert!(active.tool.is_none());
    assert!(active.tab_id.is_none());
}

#[test]
fn second_click_on_the_same_spot_places_nothing() {
    let mut active = ActiveTool { tool: Some(ToolId::ArchitectWall), tab_id: Some(1) };
    let mut state = TwoClickRectState { start: Some(p(250, -30)) };
    let action = two_click_event(&mut active, &mut state, p(250, -30));
    assert_eq!(action, WallAction::Dropped);
    assert!(state.start.is_none());
    assert!(active.tool.is_none());
}

#[test]
fn two_clicks_in_a_row_run_the_full_cycle() {
    let mut active = ActiveTool::default();
    let mut state = TwoClickRectState::default();
    apply_viewport_command(&mut active, &mut state, ViewportCommand::Run(ToolId::ArchitectWall, 2));
    assert_eq!(two_click_event(&mut active, &mut state, p(0, 0)), WallAction::Started);
    assert_eq!(
        two_click_event(&mut active, &mut state, p(0, 2500)),
        WallAction::Placed(p(0, 0), p(0, 2500))
    );
    assert!(active.tool.is_none());
}

#[test]
fn ghost_spans_start_to_cursor_once_started() {
    let state = TwoClickRectState { start: Some(p(10, 20)) };
    assert_eq!(ghost_segment(&state, p(300, 400)), (p(10, 20), p(300, 400)));
}

#[test]
fn ghost_is_a_half_metre_stub_before_the_first_click() {
    let state = TwoClickRectState::default();
    assert_eq!(ghost_segment(&state, p(100, 200)), (p(100, 200), p(600, 200)));
}

#[test]
fn ghost_stub_saturates_at_the_coordinate_limit() {
    let state = TwoClickRectState::default();
    let (a, b) = ghost_segment(&state, p(i32::MAX - 100, 0));
    assert_eq!(a, p(i32::MAX - 100, 0));
    assert_eq!(b, p(i32::MAX, 0));
}

#[test]
fn a_wall_is_degenerate_only_on_the_same_millimetre() {
    assert!(wall_is_degenerate(p(5, 5), p(5, 5)));
    assert!(!wall_is_degenerate(p(5, 5), p(5, 6)));
    assert!(!wall_is_degenerate(p(5, 5), p(6, 5)));
}
