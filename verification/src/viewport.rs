//! Fitting a dock tab's rectangle onto the window as a render viewport,
//! and keeping one camera per visible viewport tab.
//!
//! The host scales the dock's logical rectangles to physical pixels and
//! rounds; this module clamps the result to the window and decides which
//! cameras to keep, retarget or drop. Cameras are named by the id the
//! engine gives their entity.

use vstd::prelude::*;
use crate::dock::DockData;

verus! {

/// A render viewport in physical pixels: offset and a non-zero size.
#[derive(Debug, PartialEq, Eq, Structural, Clone, Copy)]
pub struct ViewportPx {
    pub x: u32,
    pub y: u32,
    pub w: u32,
    pub h: u32,
}

/// Width left of a span of `w` starting at `x` once cut off at `win`.
pub open spec fn clamped_extent_spec(x: int, w: int, win: int) -> int {
    if x + w > win {
        if win >= x {
            win - x
        } else {
            0
        }
    } else {
        w
    }
}

/// Clamp a viewport rectangle to the window: whatever sticks out past the
/// window's right or bottom edge is cut off, and a viewport left without
/// area is discarded.
pub fn clamp_viewport_to_window(
    x: u32,
    y: u32,
    w: u32,
    h: u32,
    win_w: u32,
    win_h: u32,
) -> (r: Option<ViewportPx>)
    ensures
        ({
            let cw = clamped_extent_spec(x as int, w as int, win_w as int);
            let ch = clamped_extent_spec(y as int, h as int, win_h as int);
            if cw == 0 || ch == 0 {
                r is None
            } else {
                r == Some(ViewportPx { x, y, w: cw as u32, h: ch as u32 })
            }
        }),
{
    let w2: u32 = if x as u64 + w as u64 > win_w as u64 {
        if win_w >= x {
            win_w - x
        } else {
            0
        }
    } else {
        w
    };
    let h2: u32 = if y as u64 + h as u64 > win_h as u64 {
        if win_h >= y {
            win_h - y
        } else {
            0
        }
    } else {
        h
    };
    if w2 == 0 || h2 == 0 {
        None
    } else {
        Some(ViewportPx { x, y, w: w2, h: h2 })
    }
}

/// Render order of a viewport tab's camera: tabs with higher ids draw
/// earlier, and no two tabs share an order.
pub fn camera_order(tab_id: u32) -> (r: i64)
    ensures
        r == -(tab_id as int),
{
    -(tab_id as i64)
}

/// The camera already serving a viewport tab, if one exists. `existing`
/// pairs each camera's tab id with its entity id.
pub fn camera_for_tab(existing: &Vec<(u32, u64)>, tab_id: u32) -> (r: Option<u64>)
    ensures
        r matches Some(e) ==> exists|i: int|
            0 <= i < existing@.len() && existing@[i] == (tab_id, e),
        r is None ==> forall|i: int| 0 <= i < existing@.len() ==> existing@[i].0 != tab_id,
{
    let n = existing.len();
    let mut k: usize = 0;
    while k < n
        invariant
            n == existing@.len(),
            0 <= k <= n,
            forall|i: int| 0 <= i < k ==> existing@[i].0 != tab_id,
        decreases n - k,
    {
        let (tab, entity) = existing[k];
        if tab == tab_id {
            return Some(entity);
        }
        k = k + 1;
    }
    None
}

/// The cameras whose viewport tab shows no rectangle this frame; the host
/// despawns them. Every stale camera is in the result, and everything in
/// the result is a stale camera.
pub fn stale_cameras(existing: &Vec<(u32, u64)>, dock: &DockData) -> (r: Vec<u64>)
    ensures
        forall|i: int|
            0 <= i < existing@.len() && dock.lookup(existing@[i].0) is None ==> r@.contains(
                existing@[i].1,
            ),
        forall|e: u64|
            r@.contains(e) ==> exists|i: int|
                0 <= i < existing@.len() && existing@[i].1 == e && dock.lookup(
                    existing@[i].0,
                ) is None,
{
    let n = existing.len();
    let mut out: Vec<u64> = Vec::new();
    let mut k: usize = 0;
    while k < n
        invariant
            n == existing@.len(),
            0 <= k <= n,
            forall|i: int|
                0 <= i < k && dock.lookup(existing@[i].0) is None ==> out@.contains(
                    existing@[i].1,
                ),
            forall|e: u64|
                out@.contains(e) ==> exists|i: int|
                    0 <= i < existing@.len() && existing@[i].1 == e && dock.lookup(
                        existing@[i].0,
                    ) is None,
        decreases n - k,
    {
        let (tab, entity) = existing[k];
        if !has_viewport(dock, tab) {
            let ghost out_pre = out@;
            out.push(entity);
            proof {
                assert(out@[out@.len() - 1] == entity);
                assert forall|e: u64| out_pre.contains(e) implies out@.contains(e) by {
                    let j = choose|j: int| 0 <= j < out_pre.len() && out_pre[j] == e;
                    assert(out@[j] == e);
                }
                assert forall|e: u64| out@.contains(e) implies exists|i: int|
                    0 <= i < existing@.len() && existing@[i].1 == e && dock.lookup(
                        existing@[i].0,
                    ) is None by {
                    let j = choose|j: int| 0 <= j < out@.len() && out@[j] == e;
                    if j < out@.len() - 1 {
                        assert(out_pre[j] == e);
                        assert(out_pre.contains(e));
                    } else {
                        assert(e == entity);
                        assert(existing@[k as int].1 == e && dock.lookup(
                            existing@[k as int].0,
                        ) is None);
                    }
                }
            }
        }
        k = k + 1;
    }
    out
}

/// Whether the dock recorded a rectangle for this tab this frame.
pub fn has_viewport(dock: &DockData, tab_id: u32) -> (r: bool)
    ensures
        r <==> dock.lookup(tab_id) is Some,
{
    let n = dock.viewports.len();
    let mut k: usize = 0;
    while k < n
        invariant
            n == dock.viewports@.len(),
            0 <= k <= n,
            forall|i: int| 0 <= i < k ==> dock.viewports@[i].0 != tab_id,
        decreases n - k,
    {
        if dock.viewports[k].0 == tab_id {
            return true;
        }
        k = k + 1;
    }
    false
}

} // verus!
