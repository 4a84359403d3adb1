//! Per-frame dock bookkeeping: which viewport tab covers which screen
//! rectangle, and which tab sits under the cursor.
//!
//! The GUI lays the dock out in logical pixels; the host rounds them to
//! integers before handing them over.

use vstd::prelude::*;

verus! {

/// A viewport tab's rectangle in logical pixels: left-top corner and size.
#[derive(Debug, PartialEq, Eq, Structural, Clone, Copy)]
pub struct ViewportRect {
    pub x: i32,
    pub y: i32,
    pub w: i32,
    pub h: i32,
}

/// Whether the point lies in the rectangle, edges included.
pub open spec fn rect_contains_spec(r: ViewportRect, cx: int, cy: int) -> bool {
    &&& r.x <= cx <= r.x + r.w
    &&& r.y <= cy <= r.y + r.h
}

/// The viewport rectangles the dock produced this frame, one per visible
/// viewport tab.
#[derive(Debug, Clone)]
pub struct DockData {
    pub viewports: Vec<(u32, ViewportRect)>,
}

impl DockData {
    /// Each tab id appears at most once.
    pub open spec fn wf(self) -> bool {
        forall|i: int, j: int|
            0 <= i < j < self.viewports@.len() ==> self.viewports@[i].0 != self.viewports@[j].0
    }

    /// The rectangle recorded for a tab, if any.
    pub open spec fn lookup(self, tab_id: u32) -> Option<ViewportRect> {
        if exists|i: int| 0 <= i < self.viewports@.len() && self.viewports@[i].0 == tab_id {
            let i = choose|i: int| 0 <= i < self.viewports@.len() && self.viewports@[i].0 == tab_id;
            Some(self.viewports@[i].1)
        } else {
            None
        }
    }

    pub fn new() -> (r: DockData)
        ensures
            r.viewports@.len() == 0,
            r.wf(),
    {
        DockData { viewports: Vec::new() }
    }

    /// Drop every rectangle; the dock records them afresh each frame.
    pub fn clear_frame(&mut self)
        ensures
            final(self).viewports@.len() == 0,
            final(self).wf(),
    {
        self.viewports.clear();
    }

    /// The rectangle recorded for a tab this frame, if any.
    pub fn get_viewport(&self, tab_id: u32) -> (r: Option<ViewportRect>)
        ensures
            r matches Some(rect) ==> exists|i: int|
                0 <= i < self.viewports@.len() && self.viewports@[i] == (tab_id, rect),
            r is None ==> forall|i: int|
                0 <= i < self.viewports@.len() ==> self.viewports@[i].0 != tab_id,
            self.wf() ==> r == self.lookup(tab_id),
    {
        let n = self.viewports.len();
        let mut k: usize = 0;
        while k < n
            invariant
                n == self.viewports@.len(),
                0 <= k <= n,
                forall|i: int| 0 <= i < k ==> self.viewports@[i].0 != tab_id,
            decreases n - k,
        {
            let (tab, rect) = self.viewports[k];
            if tab == tab_id {
                proof {
                    if self.wf() {
                        lemma_lookup_at(*self, k as int);
                    }
                }
                return Some(rect);
            }
            k = k + 1;
        }
        None
    }

    /// Record the rectangle of a viewport tab for this frame, replacing
    /// any rectangle already recorded for the same tab.
    pub fn set_viewport(&mut self, tab_id: u32, rect: ViewportRect)
        requires
            old(self).wf(),
        ensures
            final(self).wf(),
            final(self).lookup(tab_id) == Some(rect),
            forall|t: u32| t != tab_id ==> final(self).lookup(t) == old(self).lookup(t),
    {
        let ghost pre = *self;
        let n = self.viewports.len();
        let mut k: usize = 0;
        while k < n
            invariant
                *self == pre,
                pre == *old(self),
                pre.wf(),
                n == self.viewports@.len(),
                0 <= k <= n,
                forall|i: int| 0 <= i < k ==> self.viewports@[i].0 != tab_id,
            decreases n - k,
        {
            if self.viewports[k].0 == tab_id {
                self.viewports[k] = (tab_id, rect);
                proof {
                    assert(self.viewports@.len() == pre.viewports@.len());
                    assert forall|i: int|
                        0 <= i < self.viewports@.len() implies self.viewports@[i].0
                        == pre.viewports@[i].0 by {}
                    assert forall|i: int, j: int|
                        0 <= i < j < self.viewports@.len() implies self.viewports@[i].0
                        != self.viewports@[j].0 by {
                        assert(pre.viewports@[i].0 != pre.viewports@[j].0);
                    }
                    assert(self.wf());
                    lemma_lookup_at(*self, k as int);
                    assert forall|t: u32| t != tab_id implies self.lookup(t) == pre.lookup(t) by {
                        lemma_lookup_same_entries(pre, *self, t, k as int);
                    }
                }
                return ;
            }
            k = k + 1;
        }
        self.viewports.push((tab_id, rect));
        proof {
            lemma_lookup_at(*self, n as int);
            assert forall|t: u32| t != tab_id implies self.lookup(t) == pre.lookup(t) by {
                lemma_lookup_pushed(pre, *self, t, (tab_id, rect));
            }
        }
    }
}

/// If entry `i` names `tab_id` and the data is well formed, the lookup
/// yields exactly that entry's rectangle.
proof fn lemma_lookup_at(d: DockData, i: int)
    requires
        d.wf(),
        0 <= i < d.viewports@.len(),
    ensures
        d.lookup(d.viewports@[i].0) == Some(d.viewports@[i].1),
{
    let tab_id = d.viewports@[i].0;
    assert(exists|k: int| 0 <= k < d.viewports@.len() && d.viewports@[k].0 == tab_id);
    let k = choose|k: int| 0 <= k < d.viewports@.len() && d.viewports@[k].0 == tab_id;
    if k < i {
        assert(d.viewports@[k].0 != d.viewports@[i].0);
    } else if k > i {
        assert(d.viewports@[i].0 != d.viewports@[k].0);
    }
}

/// Two datasets of the same length that agree everywhere but at `j`, where
/// both entries carry the same tab id, look up alike for every other tab.
proof fn lemma_lookup_same_entries(a: DockData, b: DockData, t: u32, j: int)
    requires
        a.wf(),
        a.viewports@.len() == b.viewports@.len(),
        0 <= j < a.viewports@.len(),
        forall|i: int| 0 <= i < a.viewports@.len() && i != j ==> a.viewports@[i] == b.viewports@[i],
        a.viewports@[j].0 == b.viewports@[j].0,
        t != a.viewports@[j].0,
    ensures
        a.lookup(t) == b.lookup(t),
{
    assert(forall|i: int|
        0 <= i < a.viewports@.len() ==> a.viewports@[i].0 == b.viewports@[i].0);
    if exists|i: int| 0 <= i < a.viewports@.len() && a.viewports@[i].0 == t {
        let ia = choose|i: int| 0 <= i < a.viewports@.len() && a.viewports@[i].0 == t;
        assert(b.viewports@[ia].0 == t);
        let ib = choose|i: int| 0 <= i < b.viewports@.len() && b.viewports@[i].0 == t;
        assert(a.viewports@[ib].0 == t);
        if ia < ib {
            assert(a.viewports@[ia].0 != a.viewports@[ib].0);
        } else if ib < ia {
            assert(a.viewports@[ib].0 != a.viewports@[ia].0);
        }
        assert(ia == ib);
        assert(ia != j);
        assert(a.viewports@[ia] == b.viewports@[ia]);
    } else {
        assert(forall|i: int| 0 <= i < b.viewports@.len() ==> b.viewports@[i].0 != t);
    }
}

/// Appending an entry for one tab leaves every other tab's lookup as it
/// was.
proof fn lemma_lookup_pushed(a: DockData, b: DockData, t: u32, e: (u32, ViewportRect))
    requires
        a.wf(),
        b.viewports@ == a.viewports@.push(e),
        t != e.0,
    ensures
        a.lookup(t) == b.lookup(t),
{
    assert(a.viewports@.len() + 1 == b.viewports@.len());
    assert(forall|i: int| 0 <= i < a.viewports@.len() ==> a.viewports@[i] == b.viewports@[i]);
    if exists|i: int| 0 <= i < a.viewports@.len() && a.viewports@[i].0 == t {
        let i = choose|i: int| 0 <= i < a.viewports@.len() && a.viewports@[i].0 == t;
        assert(b.viewports@[i].0 == t);
        let k = choose|k: int| 0 <= k < b.viewports@.len() && b.viewports@[k].0 == t;
        assert(k < a.viewports@.len());
        if i < k {
            assert(a.viewports@[i].0 != a.viewports@[k].0);
        } else if k < i {
            assert(a.viewports@[k].0 != a.viewports@[i].0);
        }
        assert(i == k);
    } else {
        if exists|i: int| 0 <= i < b.viewports@.len() && b.viewports@[i].0 == t {
            let i = choose|i: int| 0 <= i < b.viewports@.len() && b.viewports@[i].0 == t;
            assert(i < a.viewports@.len());
        }
    }
}

/// The viewport tab whose rectangle the cursor lies in, if any. When
/// rectangles overlap, which of the containing tabs is named is left open.
pub fn find_tab_under_cursor(dock_data: &DockData, cx: i32, cy: i32) -> (r: Option<u32>)
    ensures
        r matches Some(id) ==> exists|i: int|
            0 <= i < dock_data.viewports@.len() && dock_data.viewports@[i].0 == id
                && rect_contains_spec(dock_data.viewports@[i].1, cx as int, cy as int),
        r is None ==> forall|i: int|
            0 <= i < dock_data.viewports@.len() ==> !rect_contains_spec(
                dock_data.viewports@[i].1,
                cx as int,
                cy as int,
            ),
{
    let n = dock_data.viewports.len();
    let mut k: usize = 0;
    while k < n
        invariant
            n == dock_data.viewports@.len(),
            0 <= k <= n,
            forall|i: int|
                0 <= i < k ==> !rect_contains_spec(
                    dock_data.viewports@[i].1,
                    cx as int,
                    cy as int,
                ),
        decreases n - k,
    {
        let (tab_id, rect) = dock_data.viewports[k];
        if cx as i64 >= rect.x as i64 && cx as i64 <= rect.x as i64 + rect.w as i64
            && cy as i64 >= rect.y as i64 && cy as i64 <= rect.y as i64 + rect.h as i64 {
            return Some(tab_id);
        }
        k = k + 1;
    }
    None
}

} // verus!
