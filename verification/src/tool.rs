//! The modelling tools, their metadata and the order the tool bar shows them.

use vstd::prelude::*;
use crate::icons::Icon;

verus! {

#[derive(Debug, Clone, Copy, PartialEq, Eq, Structural, Hash)]
pub enum ToolId {
    ModifySelect,
    ModifyMove,
    ModifyRotate,
    ModifyAlign,
    ModifyTrim,
    ModifyMirror,
    ModifyCut,
    ArchitectWall,
}

#[derive(Debug, Clone, Copy)]
pub struct ToolDef {
    pub id: ToolId,
    pub icon: Icon,
    pub label: &'static str,
    pub tooltip: &'static str,
}

pub open spec fn tool_icon_spec(id: ToolId) -> Icon {
    match id {
        ToolId::ModifySelect => Icon::ToolModifySelect,
        ToolId::ModifyMove => Icon::ToolModifyMove,
        ToolId::ModifyRotate => Icon::ToolModifyRotate,
        ToolId::ModifyAlign => Icon::ToolModifyAlign,
        ToolId::ModifyTrim => Icon::ToolModifyTrim,
        ToolId::ModifyMirror => Icon::ToolModifyMirror,
        ToolId::ModifyCut => Icon::ToolModifyCut,
        ToolId::ArchitectWall => Icon::ToolArchitectWall,
    }
}

pub open spec fn tool_label_spec(id: ToolId) -> Seq<char> {
    match id {
        ToolId::ModifySelect => "Select"@,
        ToolId::ModifyMove => "Move"@,
        ToolId::ModifyRotate => "Rotate"@,
        ToolId::ModifyAlign => "Align"@,
        ToolId::ModifyTrim => "Trim"@,
        ToolId::ModifyMirror => "Mirror"@,
        ToolId::ModifyCut => "Cut"@,
        ToolId::ArchitectWall => "Wall"@,
    }
}

pub open spec fn tool_tooltip_spec(id: ToolId) -> Seq<char> {
    match id {
        ToolId::ModifySelect => "Select elements"@,
        ToolId::ModifyMove => "Move elements"@,
        ToolId::ModifyRotate => "Rotate elements"@,
        ToolId::ModifyAlign => "Align elements"@,
        ToolId::ModifyTrim => "Trim/extend"@,
        ToolId::ModifyMirror => "Mirror elements"@,
        ToolId::ModifyCut => "Cut geometry"@,
        ToolId::ArchitectWall => "Create walls"@,
    }
}

/// The registry of tool definitions; `def` is total over the tool ids.
pub struct ToolRegistry {}

impl ToolRegistry {
    pub fn new() -> ToolRegistry {
        ToolRegistry {}
    }

    /// The definition of a tool: its icon, label and tooltip.
    pub fn def(&self, id: ToolId) -> (d: ToolDef)
        ensures
            d.id == id,
            d.icon == tool_icon_spec(id),
            d.label@ == tool_label_spec(id),
            d.tooltip@ == tool_tooltip_spec(id),
    {
        match id {
            ToolId::ModifySelect => ToolDef {
                id: ToolId::ModifySelect,
                icon: Icon::ToolModifySelect,
                label: "Select",
                tooltip: "Select elements",
            },
            ToolId::ModifyMove => ToolDef {
                id: ToolId::ModifyMove,
                icon: Icon::ToolModifyMove,
                label: "Move",
                tooltip: "Move elements",
            },
            ToolId::ModifyRotate => ToolDef {
                id: ToolId::ModifyRotate,
                icon: Icon::ToolModifyRotate,
                label: "Rotate",
                tooltip: "Rotate elements",
            },
            ToolId::ModifyAlign => ToolDef {
                id: ToolId::ModifyAlign,
                icon: Icon::ToolModifyAlign,
                label: "Align",
                tooltip: "Align elements",
            },
            ToolId::ModifyTrim => ToolDef {
                id: ToolId::ModifyTrim,
                icon: Icon::ToolModifyTrim,
                label: "Trim",
                tooltip: "Trim/extend",
            },
            ToolId::ModifyMirror => ToolDef {
                id: ToolId::ModifyMirror,
                icon: Icon::ToolModifyMirror,
                label: "Mirror",
                tooltip: "Mirror elements",
            },
            ToolId::ModifyCut => ToolDef {
                id: ToolId::ModifyCut,
                icon: Icon::ToolModifyCut,
                label: "Cut",
                tooltip: "Cut geometry",
            },
            ToolId::ArchitectWall => ToolDef {
                id: ToolId::ArchitectWall,
                icon: Icon::ToolArchitectWall,
                label: "Wall",
                tooltip: "Create walls",
            },
        }
    }
}

impl Default for ToolRegistry {
    fn default() -> Self {
        ToolRegistry::new()
    }
}

/// The modify tools, in the order the tool bar shows them.
pub fn modify_tools() -> (r: Vec<ToolId>)
    ensures
        r@ == seq![
            ToolId::ModifySelect,
            ToolId::ModifyMove,
            ToolId::ModifyRotate,
            ToolId::ModifyAlign,
            ToolId::ModifyTrim,
            ToolId::ModifyMirror,
            ToolId::ModifyCut,
        ],
{
    let v = vec![
        ToolId::ModifySelect,
        ToolId::ModifyMove,
        ToolId::ModifyRotate,
        ToolId::ModifyAlign,
        ToolId::ModifyTrim,
        ToolId::ModifyMirror,
        ToolId::ModifyCut,
    ];
    proof {
        assert(v@ =~= seq![
            ToolId::ModifySelect,
            ToolId::ModifyMove,
            ToolId::ModifyRotate,
            ToolId::ModifyAlign,
            ToolId::ModifyTrim,
            ToolId::ModifyMirror,
            ToolId::ModifyCut,
        ]);
    }
    v
}

/// The architect tools, in the order the tool bar shows them.
pub fn architect_tools() -> (r: Vec<ToolId>)
    ensures
        r@ == seq![ToolId::ArchitectWall],
{
    let v = vec![ToolId::ArchitectWall];
    proof {
        assert(v@ =~= seq![ToolId::ArchitectWall]);
    }
    v
}

} // verus!
