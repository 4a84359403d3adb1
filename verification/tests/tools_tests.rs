use monolith_core::icons::{icon_path, icon_variants, Icon};
use monolith_core::tool::{architect_tools, modify_tools, ToolId, ToolRegistry};

#[test]
fn every_tool_keeps_its_id_and_metadata() {
    let reg = ToolRegistry::new();
    let d = reg.def(ToolId::ModifySelect);
    assert_eq!(d.id, ToolId::ModifySelect);
    assert_eq!(d.icon, Icon::ToolModifySelect);
    assert_eq!(d.label, "Select");
    assert_eq!(d.tooltip, "Select elements");

    let d = reg.def(ToolId::ArchitectWall);
    assert_eq!(d.id, ToolId::ArchitectWall);
    assert_eq!(d.icon, Icon::ToolArchitectWall);
    assert_eq!(d.label, "Wall");
    assert_eq!(d.tooltip, "Create walls");

    let d = reg.def(ToolId::ModifyTrim);
    assert_eq!(d.label, "Trim");
    assert_eq!(d.tooltip, "Trim/extend");
}

#[test]
fn def_is_total_over_the_tools() {
    let reg = ToolRegistry::default();
    for id in modify_tools().into_iter().chain(architect_tools().into_iter()) {
        assert_eq!(reg.def(id).id, id);
    }
}

#[test]
fn tool_bar_order_is_modify_then_architect() {
    assert_eq!(
        modify_tools(),
        vec![
            ToolId::ModifySelect,
            ToolId::ModifyMove,
            ToolId::ModifyRotate,
            ToolId::ModifyAlign,
            ToolId::ModifyTrim,
            ToolId::ModifyMirror,
            ToolId::ModifyCut,
        ]
    );
    assert_eq!(architect_tools(), vec![ToolId::ArchitectWall]);
}

#[test]
fn icons_have_their_asset_paths() {
    assert_eq!(icon_path(&Icon::WindowClose), Some("ui/icons/windows_controls/close/close.png"));
    assert_eq!(icon_path(&Icon::TabViewport), Some("ui/icons/tab/viewport/viewport.png"));
    assert_eq!(icon_path(&Icon::ToolModifyMove), Some("ui/icons/tool_modify/move/move.png"));
    assert_eq!(icon_path(&Icon::ToolArchitectWall), Some("ui/icons/tool_architect/wall/wall.png"));
}

#[test]
fn the_separator_has_no_asset() {
    assert_eq!(icon_path(&Icon::Separator), None);
}

#[test]
fn every_icon_but_the_separator_has_a_distinct_path() {
    let icons = icon_variants();
    assert_eq!(icons.len(), 31);
    let mut paths: Vec<&'static str> = Vec::new();
    for icon in &icons {
        match icon_path(icon) {
            Some(p) => {
                assert!(!paths.contains(&p));
                paths.push(p);
            }
            None => assert_eq!(*icon, Icon::Separator),
        }
    }
    assert_eq!(paths.len(), 30);
}
