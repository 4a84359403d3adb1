use monolith_core::tabs::{
    all_tab_kinds, initial_tabs, tab_kind_title, DockStateResource, TabKind,
};

#[test]
fn tab_titles_name_the_kind() {
    assert_eq!(tab_kind_title(TabKind::Viewport), "Viewport");
    assert_eq!(tab_kind_title(TabKind::Explorer), "Explorer");
    assert_eq!(tab_kind_title(TabKind::Properties), "Properties");
    assert_eq!(tab_kind_title(TabKind::Console), "Console");
}

#[test]
fn all_tab_kinds_in_selector_order() {
    assert_eq!(
        all_tab_kinds(),
        vec![TabKind::Viewport, TabKind::Explorer, TabKind::Properties, TabKind::Console]
    );
}

#[test]
fn the_initial_layout_has_three_numbered_tabs() {
    let tabs = initial_tabs();
    assert_eq!(tabs.len(), 3);
    assert_eq!(tabs[0].kind, TabKind::Viewport);
    assert_eq!(tabs[0].title, "Viewport");
    assert_eq!(tabs[0].id, 1);
    assert_eq!(tabs[1].kind, TabKind::Explorer);
    assert_eq!(tabs[1].id, 2);
    assert_eq!(tabs[2].kind, TabKind::Properties);
    assert_eq!(tabs[2].id, 3);
}

#[test]
fn created_tabs_continue_the_numbering() {
    let mut dock = DockStateResource::default();
    assert_eq!(dock.tab_id_counter, 4);
    let t1 = dock.create_tab(TabKind::Console);
    assert_eq!(t1.id, 5);
    assert_eq!(t1.kind, TabKind::Console);
    assert_eq!(t1.title, "Console");
    let t2 = dock.create_tab(TabKind::Viewport);
    assert_eq!(t2.id, 6);
    assert_eq!(dock.tab_id_counter, 6);
}

#[test]
fn changing_a_tabs_kind_renames_it() {
    let mut dock = DockStateResource::default();
    let mut tab = dock.create_tab(TabKind::Viewport);
    tab.set_kind(TabKind::Console);
    assert_eq!(tab.kind, TabKind::Console);
    assert_eq!(tab.title, "Console");
    assert_eq!(tab.id, 5);
}
