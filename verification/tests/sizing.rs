use niri_workspace::sizing::{
    ensure_min_max_size, ensure_min_max_size_maybe_zero, new_window_size, resolve_default_height,
    resolve_default_width, LogicalSize,
};

fn size(w: i32, h: i32) -> LogicalSize {
    LogicalSize { w, h }
}

#[test]
fn min_max_size_limits() {
    assert_eq!(ensure_min_max_size(500, 100, 300), 300);
    assert_eq!(ensure_min_max_size(50, 100, 300), 100);
    assert_eq!(ensure_min_max_size(200, 100, 300), 200);
    // Non-positive limits mean no limit.
    assert_eq!(ensure_min_max_size(5000, 0, 0), 5000);
    assert_eq!(ensure_min_max_size(-10, -5, -1), -10);
    // The minimum wins over the maximum.
    assert_eq!(ensure_min_max_size(500, 400, 300), 400);
}

#[test]
fn zero_size_stays_zero() {
    assert_eq!(ensure_min_max_size_maybe_zero(0, 100, 300), 0);
    assert_eq!(ensure_min_max_size_maybe_zero(1, 100, 300), 100);
}

#[test]
fn fixed_size_window_opens_at_its_size() {
    let r = new_window_size(size(1000, 700), size(400, 300), size(400, 300));
    assert_eq!(r, size(400, 300));
    // A width left to the window stays 0; a fixed height still applies.
    let r = new_window_size(size(0, 0), size(400, 300), size(400, 300));
    assert_eq!(r, size(0, 300));
}

#[test]
fn new_window_height_honors_min_only_when_not_fixed() {
    // Only the minimum height applies when min and max differ.
    let r = new_window_size(size(1000, 700), size(0, 100), size(0, 500));
    assert_eq!(r, size(1000, 700));
    let r = new_window_size(size(1000, 50), size(0, 100), size(0, 500));
    assert_eq!(r, size(1000, 100));
    // A height left to the window stays 0.
    let r = new_window_size(size(1000, 0), size(0, 100), size(0, 500));
    assert_eq!(r, size(1000, 0));
    // The width honors both limits.
    let r = new_window_size(size(1000, 0), size(0, 0), size(800, 0));
    assert_eq!(r, size(800, 0));
}

#[test]
fn default_width_resolution() {
    assert_eq!(resolve_default_width(Some(Some(5)), false, Some(7)), Some(5));
    assert_eq!(resolve_default_width(Some(Some(5)), true, Some(7)), Some(5));
    assert_eq!(resolve_default_width::<i32>(Some(None), false, Some(7)), None);
    assert_eq!(resolve_default_width::<i32>(None, true, Some(7)), None);
    assert_eq!(resolve_default_width(None, false, Some(7)), Some(7));
    assert_eq!(resolve_default_width::<i32>(None, false, None), None);
}

#[test]
fn default_height_resolution() {
    assert_eq!(resolve_default_height(Some(Some(3)), false), Some(3));
    assert_eq!(resolve_default_height::<i32>(Some(None), false), None);
    assert_eq!(resolve_default_height::<i32>(None, false), None);
    assert_eq!(resolve_default_height::<i32>(None, true), None);
}
