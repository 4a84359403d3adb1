//! How an element's geometry is anchored in the scene.

use vstd::prelude::*;

verus! {

/// The three shapes of primitive: one that sits at a point, one that runs
/// along a line and joins with its kind, and one drawn as a perimeter,
/// such as a floor or a ceiling.
#[derive(Debug, Clone, Copy, PartialEq, Eq, Structural)]
pub enum PrimitiveKind {
    PointBased,
    LinearBased,
    PerimeterBased,
}

} // verus!
