use monolith_core::dock::{DockData, ViewportRect};
use monolith_core::viewport::{
    camera_for_tab, camera_order, clamp_viewport_to_window, has_viewport, stale_cameras,
    ViewportPx,
};

#[test]
fn viewport_inside_window_is_unchanged() {
    let r = clamp_viewport_to_window(10, 20, 300, 200, 1920, 1080);
    assert_eq!(r, Some(ViewportPx { x: 10, y: 20, w: 300, h: 200 }));
}

#[test]
fn viewport_sticking_out_right_is_cut() {
    let r = clamp_viewport_to_window(1800, 0, 300, 200, 1920, 1080);
    assert_eq!(r, Some(ViewportPx { x: 1800, y: 0, w: 120, h: 200 }));
}

#[test]
fn viewport_sticking_out_bottom_is_cut() {
    let r = clamp_viewport_to_window(0, 1000, 300, 200, 1920, 1080);
    assert_eq!(r, Some(ViewportPx { x: 0, y: 1000, w: 300, h: 80 }));
}

#[test]
fn viewport_past_the_window_is_discarded() {
    assert_eq!(clamp_viewport_to_window(2000, 0, 300, 200, 1920, 1080), None);
    assert_eq!(clamp_viewport_to_window(0, 1080, 300, 200, 1920, 1080), None);
}

#[test]
fn empty_viewport_is_discarded() {
    assert_eq!(clamp_viewport_to_window(10, 10, 0, 200, 1920, 1080), None);
    assert_eq!(clamp_viewport_to_window(10, 10, 300, 0, 1920, 1080), None);
}

#[test]
fn huge_viewport_does_not_overflow() {
    let r = clamp_viewport_to_window(1, 1, u32::MAX, u32::MAX, 1920, 1080);
    assert_eq!(r, Some(ViewportPx { x: 1, y: 1, w: 1919, h: 1079 }));
}

#[test]
fn camera_order_descends_with_tab_id() {
    assert_eq!(camera_order(0), 0);
    assert_eq!(camera_order(1), -1);
    assert_eq!(camera_order(7), -7);
}

#[test]
fn finds_the_camera_of_a_tab() {
    let existing: Vec<(u32, u64)> = vec![(1, 100), (2, 200), (3, 300)];
    assert_eq!(camera_for_tab(&existing, 2), Some(200));
    assert_eq!(camera_for_tab(&existing, 9), None);
}

#[test]
fn stale_cameras_are_those_without_a_viewport() {
    let mut dock = DockData::new();
    dock.set_viewport(1, ViewportRect { x: 0, y: 0, w: 100, h: 100 });
    dock.set_viewport(3, ViewportRect { x: 200, y: 0, w: 100, h: 100 });
    let existing: Vec<(u32, u64)> = vec![(1, 100), (2, 200), (3, 300), (4, 400)];
    let stale = stale_cameras(&existing, &dock);
    assert_eq!(stale, vec![200, 400]);
    assert!(has_viewport(&dock, 1));
    assert!(!has_viewport(&dock, 2));
}
