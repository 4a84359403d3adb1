//! Scene elements: the identities placed elements carry, and the keys of
//! their parameter bags.
//!
//! Identities are UUIDs minted by the `uuid` crate; values of that type
//! pass through this crate opaquely.

use vstd::prelude::*;

verus! {

#[verifier::external_type_specification]
#[verifier::external_body]
pub struct ExUuid(uuid::Uuid);

/// Relies on uuid::Uuid::new_v4: a fresh random (version 4) identifier.
/// The result depends on randomness, so nothing is promised of it.
#[verifier::external_body]
fn new_v4_uuid() -> uuid::Uuid {
    uuid::Uuid::new_v4()
}

/// Identity of one placed element.
#[derive(Clone, Copy, Debug, PartialEq, Eq, Hash)]
pub struct ElementId(pub uuid::Uuid);

impl ElementId {
    /// A fresh identity for a newly placed element.
    pub fn fresh() -> ElementId {
        ElementId(new_v4_uuid())
    }
}

/// Identity of an element type shared by its instances.
#[derive(Clone, Copy, Debug, PartialEq, Eq, Hash)]
pub struct TypeId(pub uuid::Uuid);

impl TypeId {
    /// A fresh identity for a newly defined element type.
    pub fn fresh() -> TypeId {
        TypeId(new_v4_uuid())
    }
}

/// Key of one entry in an element's parameter bag.
#[derive(Debug, PartialEq, Eq, Structural, Clone, Copy, Hash)]
pub struct ParamKey(pub u32);

} // verus!
