//! Ray-cast selection: which scene entity is selected, and what a new pick
//! changes.
//!
//! Entities are named by the id the engine gives them. Whether an entity
//! still exists is the engine's knowledge; the host passes it in and
//! applies the returned edit (a `Selected` tag to remove and one to add)
//! to its world.

use vstd::prelude::*;

verus! {

/// The currently selected entity, if any.
pub struct SelectionState {
    pub current: Option<u64>,
}

impl Default for SelectionState {
    /// Initially nothing is selected.
    fn default() -> (r: Self)
        ensures
            r.current is None,
    {
        SelectionState { current: None }
    }
}

/// What the host must change in its world after a pick: drop the selection
/// tag from one entity and put it on another.
#[derive(Debug, PartialEq, Eq, Structural, Clone, Copy)]
pub struct SelectionEdit {
    pub deselect: Option<u64>,
    pub select: Option<u64>,
}

/// Replace the selection with a new pick (or `None` for a miss).
///
/// Picking what is already selected changes nothing. Otherwise the old
/// entity is deselected if it still exists, and the new one is selected —
/// and remembered — only if it still exists.
pub fn set_selection(
    sel: &mut SelectionState,
    new: Option<u64>,
    old_exists: bool,
    new_exists: bool,
) -> (r: SelectionEdit)
    ensures
        old(sel).current == new ==> {
            &&& final(sel).current == old(sel).current
            &&& r.deselect is None
            &&& r.select is None
        },
        old(sel).current != new ==> {
            &&& r.deselect == (if old(sel).current is Some && old_exists {
                old(sel).current
            } else {
                Option::<u64>::None
            })
            &&& r.select == (if new is Some && new_exists {
                new
            } else {
                Option::<u64>::None
            })
            &&& final(sel).current == r.select
        },
{
    let same = match (&sel.current, &new) {
        (Some(a), Some(b)) => *a == *b,
        (None, None) => true,
        _ => false,
    };
    if same {
        return SelectionEdit { deselect: None, select: None };
    }

    let mut edit = SelectionEdit { deselect: None, select: None };

    if let Some(old_entity) = sel.current {
        if old_exists {
            edit.deselect = Some(old_entity);
        }
    }
    sel.current = None;

    if let Some(new_entity) = new {
        if new_exists {
            edit.select = Some(new_entity);
            sel.current = Some(new_entity);
        }
    }
    edit
}

} // verus!
