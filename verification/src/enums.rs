//! Fixed option sets shown in the properties panels.
//!
//! Each enum offers its display label and the list of all variants in the
//! order they are offered to the user.

use vstd::prelude::*;

verus! {

#[derive(Debug, PartialEq, Eq, Structural, Clone, Copy)]
pub enum LOD {
    Lod100,
    Lod200,
    Lod300,
    Lod400,
    Lod500,
}

impl LOD {
    pub open spec fn label_spec(self) -> Seq<char> {
        match self {
            LOD::Lod100 => "LOD 100"@,
            LOD::Lod200 => "LOD 200"@,
            LOD::Lod300 => "LOD 300"@,
            LOD::Lod400 => "LOD 400"@,
            LOD::Lod500 => "LOD 500"@,
        }
    }

    /// Display label of the variant.
    pub fn label(self) -> (r: &'static str)
        ensures
            r@ == self.label_spec(),
    {
        match self {
            LOD::Lod100 => "LOD 100",
            LOD::Lod200 => "LOD 200",
            LOD::Lod300 => "LOD 300",
            LOD::Lod400 => "LOD 400",
            LOD::Lod500 => "LOD 500",
        }
    }

    /// All variants, in the order shown in a dropdown.
    pub fn variants() -> (r: Vec<LOD>)
        ensures
            r@ == seq![LOD::Lod100, LOD::Lod200, LOD::Lod300, LOD::Lod400, LOD::Lod500],
    {
        let v = vec![LOD::Lod100, LOD::Lod200, LOD::Lod300, LOD::Lod400, LOD::Lod500];
        proof {
            assert(v@ =~= seq![LOD::Lod100, LOD::Lod200, LOD::Lod300, LOD::Lod400, LOD::Lod500]);
        }
        v
    }
}

#[derive(Debug, PartialEq, Eq, Structural, Clone, Copy)]
pub enum CutBehavior {
    ShowTop,
    GhostCut,
    Uncut,
}

impl CutBehavior {
    pub open spec fn label_spec(self) -> Seq<char> {
        match self {
            CutBehavior::ShowTop => "Show Top"@,
            CutBehavior::GhostCut => "Ghost Cut"@,
            CutBehavior::Uncut => "Uncut"@,
        }
    }

    /// Display label of the variant.
    pub fn label(self) -> (r: &'static str)
        ensures
            r@ == self.label_spec(),
    {
        match self {
            CutBehavior::ShowTop => "Show Top",
            CutBehavior::GhostCut => "Ghost Cut",
            CutBehavior::Uncut => "Uncut",
        }
    }

    /// All variants, in the order shown in a dropdown.
    pub fn variants() -> (r: Vec<CutBehavior>)
        ensures
            r@ == seq![CutBehavior::ShowTop, CutBehavior::GhostCut, CutBehavior::Uncut],
    {
        let v = vec![CutBehavior::ShowTop, CutBehavior::GhostCut, CutBehavior::Uncut];
        proof {
            assert(v@ =~= seq![CutBehavior::ShowTop, CutBehavior::GhostCut, CutBehavior::Uncut]);
        }
        v
    }
}

#[derive(Debug, PartialEq, Eq, Structural, Clone, Copy)]
pub enum PhasingTemp {
    Existing,
    Demolition,
    NewConstruction,
    Furnishing,
    HandOver,
}

impl PhasingTemp {
    pub open spec fn label_spec(self) -> Seq<char> {
        match self {
            PhasingTemp::Existing => "Existing"@,
            PhasingTemp::Demolition => "Demolition"@,
            PhasingTemp::NewConstruction => "New Construction"@,
            PhasingTemp::Furnishing => "Furnishing"@,
            PhasingTemp::HandOver => "Hand Over"@,
        }
    }

    /// Display label of the variant.
    pub fn label(self) -> (r: &'static str)
        ensures
            r@ == self.label_spec(),
    {
        match self {
            PhasingTemp::Existing => "Existing",
            PhasingTemp::Demolition => "Demolition",
            PhasingTemp::NewConstruction => "New Construction",
            PhasingTemp::Furnishing => "Furnishing",
            PhasingTemp::HandOver => "Hand Over",
        }
    }

    /// All variants, in the order shown in a dropdown.
    pub fn variants() -> (r: Vec<PhasingTemp>)
        ensures
            r@ == seq![
                PhasingTemp::Existing,
                PhasingTemp::Demolition,
                PhasingTemp::NewConstruction,
                PhasingTemp::Furnishing,
                PhasingTemp::HandOver,
            ],
    {
        let v = vec![
            PhasingTemp::Existing,
            PhasingTemp::Demolition,
            PhasingTemp::NewConstruction,
            PhasingTemp::Furnishing,
            PhasingTemp::HandOver,
        ];
        proof {
            assert(v@ =~= seq![
                PhasingTemp::Existing,
                PhasingTemp::Demolition,
                PhasingTemp::NewConstruction,
                PhasingTemp::Furnishing,
                PhasingTemp::HandOver,
            ]);
        }
        v
    }
}

#[derive(Debug, PartialEq, Eq, Structural, Clone, Copy)]
pub enum AnchorStrategy {
    Float,
    RayCast,
    Embedded,
    Gravity,
    Manifold,
}

impl AnchorStrategy {
    pub open spec fn label_spec(self) -> Seq<char> {
        match self {
            AnchorStrategy::Float => "Float"@,
            AnchorStrategy::RayCast => "Raycast"@,
            AnchorStrategy::Embedded => "Embedded"@,
            AnchorStrategy::Gravity => "Gravity"@,
            AnchorStrategy::Manifold => "Manifold"@,
        }
    }

    /// Display label of the variant.
    pub fn label(self) -> (r: &'static str)
        ensures
            r@ == self.label_spec(),
    {
        match self {
            AnchorStrategy::Float => "Float",
            AnchorStrategy::RayCast => "Raycast",
            AnchorStrategy::Embedded => "Embedded",
            AnchorStrategy::Gravity => "Gravity",
            AnchorStrategy::Manifold => "Manifold",
        }
    }

    /// All variants, in the order shown in a dropdown.
    pub fn variants() -> (r: Vec<AnchorStrategy>)
        ensures
            r@ == seq![
                AnchorStrategy::Float,
                AnchorStrategy::RayCast,
                AnchorStrategy::Embedded,
                AnchorStrategy::Gravity,
                AnchorStrategy::Manifold,
            ],
    {
        let v = vec![
            AnchorStrategy::Float,
            AnchorStrategy::RayCast,
            AnchorStrategy::Embedded,
            AnchorStrategy::Gravity,
            AnchorStrategy::Manifold,
        ];
        proof {
            assert(v@ =~= seq![
                AnchorStrategy::Float,
                AnchorStrategy::RayCast,
                AnchorStrategy::Embedded,
                AnchorStrategy::Gravity,
                AnchorStrategy::Manifold,
            ]);
        }
        v
    }
}

#[derive(Debug, PartialEq, Eq, Structural, Clone, Copy)]
pub enum RenderMode {
    Automatic,
    Lod1,
    Lod2,
    Lod3,
    NoChange,
}

impl RenderMode {
    pub open spec fn label_spec(self) -> Seq<char> {
        match self {
            RenderMode::Automatic => "Automatic"@,
            RenderMode::Lod1 => "Lod 1"@,
            RenderMode::Lod2 => "Lod 2"@,
            RenderMode::Lod3 => "Lod 3"@,
            RenderMode::NoChange => "No Change"@,
        }
    }

    /// Display label of the variant.
    pub fn label(self) -> (r: &'static str)
        ensures
            r@ == self.label_spec(),
    {
        match self {
            RenderMode::Automatic => "Automatic",
            RenderMode::Lod1 => "Lod 1",
            RenderMode::Lod2 => "Lod 2",
            RenderMode::Lod3 => "Lod 3",
            RenderMode::NoChange => "No Change",
        }
    }

    /// All variants, in the order shown in a dropdown.
    pub fn variants() -> (r: Vec<RenderMode>)
        ensures
            r@ == seq![
                RenderMode::Automatic,
                RenderMode::Lod1,
                RenderMode::Lod2,
                RenderMode::Lod3,
                RenderMode::NoChange,
            ],
    {
        let v = vec![
            RenderMode::Automatic,
            RenderMode::Lod1,
            RenderMode::Lod2,
            RenderMode::Lod3,
            RenderMode::NoChange,
        ];
        proof {
            assert(v@ =~= seq![
                RenderMode::Automatic,
                RenderMode::Lod1,
                RenderMode::Lod2,
                RenderMode::Lod3,
                RenderMode::NoChange,
            ]);
        }
        v
    }
}

} // verus!
