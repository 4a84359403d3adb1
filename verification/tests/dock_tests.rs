use monolith_core::dock::{find_tab_under_cursor, DockData, ViewportRect};

fn rect(x: i32, y: i32, w: i32, h: i32) -> ViewportRect {
    ViewportRect { x, y, w, h }
}

#[test]
fn cursor_inside_one_viewport() {
    let mut dock = DockData::new();
    dock.set_viewport(7, rect(100, 50, 400, 300));
    assert_eq!(find_tab_under_cursor(&dock, 250, 200), Some(7));
}

#[test]
fn cursor_outside_every_viewport() {
    let mut dock = DockData::new();
    dock.set_viewport(7, rect(100, 50, 400, 300));
    assert_eq!(find_tab_under_cursor(&dock, 50, 200), None);
    assert_eq!(find_tab_under_cursor(&dock, 250, 500), None);
}

#[test]
fn cursor_on_the_edge_counts_as_inside() {
    let mut dock = DockData::new();
    dock.set_viewport(3, rect(100, 50, 400, 300));
    assert_eq!(find_tab_under_cursor(&dock, 100, 50), Some(3));
    assert_eq!(find_tab_under_cursor(&dock, 500, 350), Some(3));
}

#[test]
fn picks_among_disjoint_viewports() {
    let mut dock = DockData::new();
    dock.set_viewport(1, rect(0, 0, 100, 100));
    dock.set_viewport(2, rect(200, 0, 100, 100));
    assert_eq!(find_tab_under_cursor(&dock, 50, 50), Some(1));
    assert_eq!(find_tab_under_cursor(&dock, 250, 50), Some(2));
    assert_eq!(find_tab_under_cursor(&dock, 150, 50), None);
}

#[test]
fn overlapping_viewports_name_a_containing_tab() {
    let mut dock = DockData::new();
    dock.set_viewport(1, rect(0, 0, 100, 100));
    dock.set_viewport(2, rect(50, 0, 100, 100));
    let hit = find_tab_under_cursor(&dock, 75, 50);
    assert!(hit == Some(1) || hit == Some(2));
}

#[test]
fn set_viewport_replaces_a_tabs_rectangle() {
    let mut dock = DockData::new();
    dock.set_viewport(1, rect(0, 0, 100, 100));
    dock.set_viewport(1, rect(500, 500, 10, 10));
    assert_eq!(dock.viewports.len(), 1);
    assert_eq!(find_tab_under_cursor(&dock, 50, 50), None);
    assert_eq!(find_tab_under_cursor(&dock, 505, 505), Some(1));
}

#[test]
fn clear_frame_empties_the_dock() {
    let mut dock = DockData::new();
    dock.set_viewport(1, rect(0, 0, 100, 100));
    dock.set_viewport(2, rect(200, 0, 100, 100));
    dock.clear_frame();
    assert_eq!(dock.viewports.len(), 0);
    assert_eq!(find_tab_under_cursor(&dock, 50, 50), None);
}

#[test]
fn negative_coordinates_are_ordinary() {
    let mut dock = DockData::new();
    dock.set_viewport(9, rect(-100, -100, 50, 50));
    assert_eq!(find_tab_under_cursor(&dock, -75, -75), Some(9));
    assert_eq!(find_tab_under_cursor(&dock, 0, 0), None);
}
