use starcore::display::{
    compute_renderer_size, monitor_size, monitors_changed, needs_resize, plan_monitor_sync,
    virtual_bounds, MonitorSlot, MonitorSync, Rect, SurfaceGeometry,
};

fn rect(left: i32, top: i32, right: i32, bottom: i32) -> Rect {
    Rect { left, top, right, bottom }
}

#[test]
fn virtual_bounds_of_no_monitor_is_zero() {
    assert_eq!(virtual_bounds(&[]), rect(0, 0, 0, 0));
}

#[test]
fn virtual_bounds_of_one_monitor() {
    assert_eq!(virtual_bounds(&[rect(0, 0, 1920, 1080)]), rect(0, 0, 1920, 1080));
}

#[test]
fn virtual_bounds_spans_all_monitors() {
    let ms = [rect(0, 0, 1920, 1080), rect(-1280, 200, 0, 1224), rect(1920, -300, 4480, 1140)];
    let b = virtual_bounds(&ms);
    assert_eq!(b, rect(-1280, -300, 4480, 1224));
    for m in ms {
        assert!(b.left <= m.left && b.top <= m.top && m.right <= b.right && m.bottom <= b.bottom);
    }
}

#[test]
fn monitors_changed_cases() {
    let a = [rect(0, 0, 1920, 1080), rect(1920, 0, 3840, 1080)];
    assert!(!monitors_changed(&a, &a));
    assert!(monitors_changed(&a[..1], &a));
    assert!(monitors_changed(&[rect(0, 0, 1920, 1080), rect(1920, 0, 3840, 1200)], &a));
    assert!(!monitors_changed(&[], &[]));
}

#[test]
fn monitor_size_is_width_and_height() {
    assert_eq!(monitor_size(rect(-1280, 200, 0, 1224)), (1280, 1024));
}

#[test]
fn sync_recreates_on_count_change() {
    let slots = [MonitorSlot { rect: rect(0, 0, 1920, 1080), width: 1920, height: 1080 }];
    let p = plan_monitor_sync(&[rect(0, 0, 1920, 1080), rect(1920, 0, 3840, 1080)], &slots);
    assert!(matches!(p, MonitorSync::Recreate));
    let p = plan_monitor_sync(&[], &slots);
    assert!(matches!(p, MonitorSync::Recreate));
}

#[test]
fn sync_adjusts_moved_or_resized_windows() {
    let slots = [
        MonitorSlot { rect: rect(0, 0, 1920, 1080), width: 1920, height: 1080 },
        MonitorSlot { rect: rect(1920, 0, 3840, 1080), width: 1920, height: 1080 },
        MonitorSlot { rect: rect(0, 1080, 800, 1680), width: 800, height: 600 },
    ];
    let current = [
        rect(0, 0, 1920, 1080),
        rect(1920, 0, 4480, 1440),
        // same corner and size, other right/bottom in the slot does not matter
        rect(0, 1080, 800, 1680),
    ];
    match plan_monitor_sync(&current, &slots) {
        MonitorSync::Adjust(flags) => assert_eq!(flags, vec![false, true, false]),
        MonitorSync::Recreate => panic!("same number of monitors"),
    }
    let moved = [rect(10, 0, 1930, 1080), rect(1920, 0, 3840, 1080), rect(0, 1080, 800, 1680)];
    match plan_monitor_sync(&moved, &slots) {
        MonitorSync::Adjust(flags) => assert_eq!(flags, vec![true, false, false]),
        MonitorSync::Recreate => panic!("same number of monitors"),
    }
}

#[test]
fn renderer_size_at_least_one() {
    assert_eq!(compute_renderer_size(1920, 1080), (1920, 1080));
    assert_eq!(compute_renderer_size(0, 0), (1, 1));
    assert_eq!(compute_renderer_size(0, 5), (1, 5));
}

#[test]
fn renderer_size_of_negative_dimension_wraps() {
    let (w, h) = compute_renderer_size(-1, 2);
    assert_eq!(w, (-1i32) as usize);
    assert_eq!(h, 2);
}

#[test]
fn needs_resize_cases() {
    let g = SurfaceGeometry {
        width: 1920,
        height: 1080,
        monitor: rect(0, 0, 1920, 1080),
        desktop: rect(0, 0, 3840, 1080),
    };
    assert!(!needs_resize(&g, &g));
    assert!(needs_resize(&g, &SurfaceGeometry { width: 1280, ..g }));
    assert!(needs_resize(&g, &SurfaceGeometry { desktop: rect(0, 0, 1920, 1080), ..g }));
    assert!(needs_resize(&g, &SurfaceGeometry { monitor: rect(1, 0, 1920, 1080), ..g }));
    assert!(!needs_resize(&g, &SurfaceGeometry { width: 0, desktop: rect(0, 0, 1, 1), ..g }));
    assert!(!needs_resize(&g, &SurfaceGeometry { height: 0, ..g }));
}
