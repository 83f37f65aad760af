use quotax::widget::{
    default_position, default_position_in_range, expanded_h, position_restorable,
    position_save_due, restore_sums_in_range, widget_size, MonitorRect, Settings, WidgetGeom,
};

#[test]
fn expanded_height_is_clamped() {
    assert_eq!(expanded_h(100), 148);
    assert_eq!(expanded_h(10), 108);
    assert_eq!(expanded_h(1_000), 608);
    assert_eq!(widget_size(false, Some(100)), (210, 42));
    assert_eq!(widget_size(true, Some(100)), (300, 148));
    assert_eq!(widget_size(true, None), (300, 108));
}

#[test]
fn geometry_changes_are_deduplicated() {
    let mut g = WidgetGeom::new();
    assert!(!g.update(false, None));
    assert!(g.update(true, Some(200)));
    assert!(!g.update(true, Some(200)));
    assert!(g.update(true, Some(220)));
}

#[test]
fn poll_interval_setting() {
    let mut s = Settings::default();
    assert_eq!(s.poll_interval_secs_clamped(), 60);
    s.poll_interval_secs = Some(5);
    assert_eq!(s.poll_interval_secs_clamped(), 30);
    s.poll_interval_secs = Some(100_000);
    assert_eq!(s.poll_interval_secs_clamped(), 600);
    s.poll_interval_secs = Some(90);
    assert_eq!(s.poll_interval_secs_clamped(), 90);
}

#[test]
fn position_saves_are_debounced() {
    assert!(position_save_due(true, Some(1)));
    assert!(position_save_due(false, None));
    assert!(!position_save_due(false, Some(499)));
    assert!(position_save_due(false, Some(500)));
}

#[test]
fn restore_needs_some_overlap() {
    let ms = vec![
        MonitorRect { x: 0, y: 0, width: 1920, height: 1080 },
        MonitorRect { x: 1920, y: 0, width: 2560, height: 1440 },
    ];
    assert!(position_restorable(&ms, 1514, -20, 210, 42));
    assert!(!position_restorable(&ms, 1514, -42, 210, 42));
    assert!(position_restorable(&ms, 4000, 1000, 210, 42));
    assert!(!position_restorable(&ms, 4480, 0, 210, 42));
    assert!(!position_restorable(&vec![], 0, 0, 210, 42));
    assert_eq!(
        default_position(&MonitorRect { x: 0, y: 0, width: 1920, height: 1080 }, 210, 42),
        (1686, 974)
    );
}

#[test]
fn overflowing_placements_are_detected() {
    let ms = vec![
        MonitorRect { x: 0, y: 0, width: 1920, height: 1080 },
        MonitorRect { x: i32::MAX, y: 0, width: 10, height: 10 },
    ];
    assert!(restore_sums_in_range(&ms, 100, 100, 210, 42));
    assert!(!restore_sums_in_range(&ms, 5000, 100, 210, 42));
    assert!(!restore_sums_in_range(&ms, i32::MAX - 10, 100, 210, 42));
    assert!(restore_sums_in_range(&vec![], i32::MAX, i32::MAX, 210, 42));
    let m = MonitorRect { x: 0, y: 0, width: 1920, height: 1080 };
    assert!(default_position_in_range(&m, 210, 42));
    assert!(!default_position_in_range(&MonitorRect { x: i32::MAX, y: 0, width: 1, height: 1 }, 210, 42));
    assert!(!default_position_in_range(&MonitorRect { x: i32::MIN, y: 0, width: 0, height: 10 }, 210, 42));
}
