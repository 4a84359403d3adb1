//! The editor's icon set and the asset path of each icon.

use vstd::prelude::*;

verus! {

#[derive(Debug, Clone, Copy, PartialEq, Eq, Structural, Hash)]
pub enum Icon {
    Separator,
    WindowClose,
    WindowMaximize,
    WindowMinimize,
    TabConsole,
    TabProperty,
    TabExplorer,
    TabViewport,
    TabAssetBrowser,
    TabPropertyView,
    TabPropertyExport,
    TabPropertySpatial,
    TabPropertyInformation,
    TabPropertyParameters,
    TabPropertyGraphics,
    TabPropertyModifiers,
    TabPropertyMaterial,
    TabPropertyCollaboration,
    TabExplorerAssets,
    TabExplorerGroups,
    TabExplorerSchedules,
    TabExplorerSheets,
    TabExplorerViews,
    ToolModifyAlign,
    ToolModifyCut,
    ToolModifyMirror,
    ToolModifyMove,
    ToolModifyRotate,
    ToolModifySelect,
    ToolModifyTrim,
    ToolArchitectWall,
}

/// Asset path of each icon; the separator is drawn, not loaded, so it has none.
pub open spec fn icon_path_spec(icon: Icon) -> Option<Seq<char>> {
    match icon {
        Icon::Separator => None,
        Icon::WindowClose => Some("ui/icons/windows_controls/close/close.png"@),
        Icon::WindowMinimize => Some("ui/icons/windows_controls/minimize/minimize.png"@),
        Icon::WindowMaximize => Some("ui/icons/windows_controls/maximize/maximize.png"@),
        Icon::TabPropertyView => Some("ui/icons/tab_properties/view/view.png"@),
        Icon::TabPropertyExport => Some("ui/icons/tab_properties/export/export.png"@),
        Icon::TabPropertySpatial => Some("ui/icons/tab_properties/spatial/spatial.png"@),
        Icon::TabPropertyInformation => Some("ui/icons/tab_properties/information/information.png"@),
        Icon::TabPropertyParameters => Some("ui/icons/tab_properties/parameters/parameters.png"@),
        Icon::TabPropertyGraphics => Some("ui/icons/tab_properties/graphic/graphic.png"@),
        Icon::TabPropertyModifiers => Some("ui/icons/tab_properties/modifiers/modifiers.png"@),
        Icon::TabPropertyMaterial => Some("ui/icons/tab_properties/material/material.png"@),
        Icon::TabPropertyCollaboration => Some("ui/icons/tab_properties/collaboration/collaboration.png"@),
        Icon::TabExplorerAssets => Some("ui/icons/tab_explorer/assets/assets.png"@),
        Icon::TabExplorerGroups => Some("ui/icons/tab_explorer/groups/groups.png"@),
        Icon::TabExplorerSchedules => Some("ui/icons/tab_explorer/schedules/schedules.png"@),
        Icon::TabExplorerSheets => Some("ui/icons/tab_explorer/sheets/sheets.png"@),
        Icon::TabExplorerViews => Some("ui/icons/tab_explorer/views/views.png"@),
        Icon::TabConsole => Some("ui/icons/tab/console/console.png"@),
        Icon::TabExplorer => Some("ui/icons/tab/explorer/explorer.png"@),
        Icon::TabProperty => Some("ui/icons/tab/property/property.png"@),
        Icon::TabViewport => Some("ui/icons/tab/viewport/viewport.png"@),
        Icon::TabAssetBrowser => Some("ui/icons/tab/asset_browser/asset_browser.png"@),
        Icon::ToolModifyAlign => Some("ui/icons/tool_modify/align/align.png"@),
        Icon::ToolModifyCut => Some("ui/icons/tool_modify/cut/cut.png"@),
        Icon::ToolModifyMirror => Some("ui/icons/tool_modify/mirror/mirror.png"@),
        Icon::ToolModifyMove => Some("ui/icons/tool_modify/move/move.png"@),
        Icon::ToolModifyRotate => Some("ui/icons/tool_modify/rotate/rotate.png"@),
        Icon::ToolModifySelect => Some("ui/icons/tool_modify/select/select.png"@),
        Icon::ToolModifyTrim => Some("ui/icons/tool_modify/trim/trim.png"@),
        Icon::ToolArchitectWall => Some("ui/icons/tool_architect/wall/wall.png"@),
    }
}

/// Asset path of an icon, or `None` for the separator.
pub fn icon_path(icon: &Icon) -> (r: Option<&'static str>)
    ensures
        r is None <==> icon_path_spec(*icon) is None,
        r matches Some(s) ==> icon_path_spec(*icon) == Some(s@),
{
    Some(
        match icon {
            Icon::WindowClose => "ui/icons/windows_controls/close/close.png",
            Icon::WindowMinimize => "ui/icons/windows_controls/minimize/minimize.png",
            Icon::WindowMaximize => "ui/icons/windows_controls/maximize/maximize.png",
            Icon::TabPropertyView => "ui/icons/tab_properties/view/view.png",
            Icon::TabPropertyExport => "ui/icons/tab_properties/export/export.png",
            Icon::TabPropertySpatial => "ui/icons/tab_properties/spatial/spatial.png",
            Icon::TabPropertyInformation => "ui/icons/tab_properties/information/information.png",
            Icon::TabPropertyParameters => "ui/icons/tab_properties/parameters/parameters.png",
            Icon::TabPropertyGraphics => "ui/icons/tab_properties/graphic/graphic.png",
            Icon::TabPropertyModifiers => "ui/icons/tab_properties/modifiers/modifiers.png",
            Icon::TabPropertyMaterial => "ui/icons/tab_properties/material/material.png",
            Icon::TabPropertyCollaboration => "ui/icons/tab_properties/collaboration/collaboration.png",
            Icon::TabExplorerAssets => "ui/icons/tab_explorer/assets/assets.png",
            Icon::TabExplorerGroups => "ui/icons/tab_explorer/groups/groups.png",
            Icon::TabExplorerSchedules => "ui/icons/tab_explorer/schedules/schedules.png",
            Icon::TabExplorerSheets => "ui/icons/tab_explorer/sheets/sheets.png",
            Icon::TabExplorerViews => "ui/icons/tab_explorer/views/views.png",
            Icon::TabConsole => "ui/icons/tab/console/console.png",
            Icon::TabExplorer => "ui/icons/tab/explorer/explorer.png",
            Icon::TabProperty => "ui/icons/tab/property/property.png",
            Icon::TabViewport => "ui/icons/tab/viewport/viewport.png",
            Icon::TabAssetBrowser => "ui/icons/tab/asset_browser/asset_browser.png",
            Icon::ToolModifyAlign => "ui/icons/tool_modify/align/align.png",
            Icon::ToolModifyCut => "ui/icons/tool_modify/cut/cut.png",
            Icon::ToolModifyMirror => "ui/icons/tool_modify/mirror/mirror.png",
            Icon::ToolModifyMove => "ui/icons/tool_modify/move/move.png",
            Icon::ToolModifyRotate => "ui/icons/tool_modify/rotate/rotate.png",
            Icon::ToolModifySelect => "ui/icons/tool_modify/select/select.png",
            Icon::ToolModifyTrim => "ui/icons/tool_modify/trim/trim.png",
            Icon::ToolArchitectWall => "ui/icons/tool_architect/wall/wall.png",
            Icon::Separator => {
                return None;
            },
        },
    )
}

/// Every icon, in declaration order; the host loads a texture for each.
pub fn icon_variants() -> (r: Vec<Icon>)
    ensures
        r@.len() == 31,
        forall|i: int| 0 <= i < r@.len() ==> r@[i] == icon_order_spec(i),
{
    let v = vec![
        Icon::Separator,
        Icon::WindowClose,
        Icon::WindowMaximize,
        Icon::WindowMinimize,
        Icon::TabConsole,
        Icon::TabProperty,
        Icon::TabExplorer,
        Icon::TabViewport,
        Icon::TabAssetBrowser,
        Icon::TabPropertyView,
        Icon::TabPropertyExport,
        Icon::TabPropertySpatial,
        Icon::TabPropertyInformation,
        Icon::TabPropertyParameters,
        Icon::TabPropertyGraphics,
        Icon::TabPropertyModifiers,
        Icon::TabPropertyMaterial,
        Icon::TabPropertyCollaboration,
        Icon::TabExplorerAssets,
        Icon::TabExplorerGroups,
        Icon::TabExplorerSchedules,
        Icon::TabExplorerSheets,
        Icon::TabExplorerViews,
        Icon::ToolModifyAlign,
        Icon::ToolModifyCut,
        Icon::ToolModifyMirror,
        Icon::ToolModifyMove,
        Icon::ToolModifyRotate,
        Icon::ToolModifySelect,
        Icon::ToolModifyTrim,
        Icon::ToolArchitectWall,
    ];
    proof {
        assert forall|i: int| 0 <= i < v@.len() implies v@[i] == icon_order_spec(i) by {}
    }
    v
}

/// The declaration order of the icon set.
pub open spec fn icon_order_spec(i: int) -> Icon {
    if i == 0 { Icon::Separator }
    else if i == 1 { Icon::WindowClose }
    else if i == 2 { Icon::WindowMaximize }
    else if i == 3 { Icon::WindowMinimize }
    else if i == 4 { Icon::TabConsole }
    else if i == 5 { Icon::TabProperty }
    else if i == 6 { Icon::TabExplorer }
    else if i == 7 { Icon::TabViewport }
    else if i == 8 { Icon::TabAssetBrowser }
    else if i == 9 { Icon::TabPropertyView }
    else if i == 10 { Icon::TabPropertyExport }
    else if i == 11 { Icon::TabPropertySpatial }
    else if i == 12 { Icon::TabPropertyInformation }
    else if i == 13 { Icon::TabPropertyParameters }
    else if i == 14 { Icon::TabPropertyGraphics }
    else if i == 15 { Icon::TabPropertyModifiers }
    else if i == 16 { Icon::TabPropertyMaterial }
    else if i == 17 { Icon::TabPropertyCollaboration }
    else if i == 18 { Icon::TabExplorerAssets }
    else if i == 19 { Icon::TabExplorerGroups }
    else if i == 20 { Icon::TabExplorerSchedules }
    else if i == 21 { Icon::TabExplorerSheets }
    else if i == 22 { Icon::TabExplorerViews }
    else if i == 23 { Icon::ToolModifyAlign }
    else if i == 24 { Icon::ToolModifyCut }
    else if i == 25 { Icon::ToolModifyMirror }
    else if i == 26 { Icon::ToolModifyMove }
    else if i == 27 { Icon::ToolModifyRotate }
    else if i == 28 { Icon::ToolModifySelect }
    else if i == 29 { Icon::ToolModifyTrim }
    else { Icon::ToolArchitectWall }
}

} // verus!
