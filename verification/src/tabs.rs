//! Dock tabs: the four tab kinds, the tabs themselves and the id counter
//! that names new tabs.
//!
//! The dock tree that arranges the tabs on screen belongs to the GUI
//! toolkit; this module owns what the tabs say and how they are numbered.

use vstd::prelude::*;

verus! {

#[derive(Debug, PartialEq, Eq, Structural, Clone, Copy)]
pub enum TabKind {
    Viewport,
    Explorer,
    Properties,
    Console,
}

/// The title a tab of this kind carries: the kind's name.
pub open spec fn tab_title_spec(kind: TabKind) -> Seq<char> {
    match kind {
        TabKind::Viewport => "Viewport"@,
        TabKind::Explorer => "Explorer"@,
        TabKind::Properties => "Properties"@,
        TabKind::Console => "Console"@,
    }
}

/// Title shown for a tab of this kind.
pub fn tab_kind_title(kind: TabKind) -> (r: &'static str)
    ensures
        r@ == tab_title_spec(kind),
{
    match kind {
        TabKind::Viewport => "Viewport",
        TabKind::Explorer => "Explorer",
        TabKind::Properties => "Properties",
        TabKind::Console => "Console",
    }
}

/// Every tab kind, in the order the tab selector offers them.
pub fn all_tab_kinds() -> (r: Vec<TabKind>)
    ensures
        r@ == seq![TabKind::Viewport, TabKind::Explorer, TabKind::Properties, TabKind::Console],
{
    let v = vec![TabKind::Viewport, TabKind::Explorer, TabKind::Properties, TabKind::Console];
    proof {
        assert(v@ =~= seq![
            TabKind::Viewport,
            TabKind::Explorer,
            TabKind::Properties,
            TabKind::Console,
        ]);
    }
    v
}

/// One dock tab: its kind, the title shown on it and its stable id.
#[derive(Debug, Clone)]
pub struct MonoTab {
    pub kind: TabKind,
    pub title: String,
    pub id: u32,
}

impl MonoTab {
    /// A tab is well formed when its title matches its kind.
    pub open spec fn wf(self) -> bool {
        self.title@ == tab_title_spec(self.kind)
    }

    /// Turn the tab into another kind; the title follows, the id stays.
    pub fn set_kind(&mut self, kind: TabKind)
        ensures
            final(self).kind == kind,
            final(self).title@ == tab_title_spec(kind),
            final(self).id == old(self).id,
            final(self).wf(),
    {
        self.kind = kind;
        self.title = tab_kind_title(kind).to_owned();
    }
}

/// Builds a tab of the given kind with the given id.
fn make_tab(kind: TabKind, id: u32) -> (tab: MonoTab)
    ensures
        tab.kind == kind,
        tab.title@ == tab_title_spec(kind),
        tab.id == id,
        tab.wf(),
{
    MonoTab { kind, title: tab_kind_title(kind).to_owned(), id }
}

/// The dock's tab numbering: a counter that has already handed out every
/// id up to its current value.
pub struct DockStateResource {
    pub tab_id_counter: u32,
}

impl DockStateResource {
    /// Create a tab of the given kind under the next free id.
    pub fn create_tab(&mut self, kind: TabKind) -> (tab: MonoTab)
        requires
            old(self).tab_id_counter < u32::MAX,
        ensures
            final(self).tab_id_counter == old(self).tab_id_counter + 1,
            tab.id == old(self).tab_id_counter + 1,
            tab.kind == kind,
            tab.wf(),
    {
        self.tab_id_counter = self.tab_id_counter + 1;
        make_tab(kind, self.tab_id_counter)
    }
}

impl Default for DockStateResource {
    /// The counter after the three initial tabs were numbered.
    fn default() -> (r: Self)
        ensures
            r.tab_id_counter == 4,
    {
        DockStateResource { tab_id_counter: 4 }
    }
}

/// The three tabs every fresh layout starts with — a viewport, an explorer
/// and a properties panel — numbered one to three.
pub fn initial_tabs() -> (r: Vec<MonoTab>)
    ensures
        r@.len() == 3,
        r@[0].kind == TabKind::Viewport && r@[0].id == 1 && r@[0].wf(),
        r@[1].kind == TabKind::Explorer && r@[1].id == 2 && r@[1].wf(),
        r@[2].kind == TabKind::Properties && r@[2].id == 3 && r@[2].wf(),
{
    let mut v: Vec<MonoTab> = Vec::new();
    v.push(make_tab(TabKind::Viewport, 1));
    v.push(make_tab(TabKind::Explorer, 2));
    v.push(make_tab(TabKind::Properties, 3));
    v
}

} // verus!
