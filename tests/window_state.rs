use winit_gtk::{
    configure_window, scale_factor_changed, ConfigureGeometry, Frame, PhysicalPosition,
    PhysicalSize, QueuedEvent, Rect, SharedWindowState, WindowEvent, WindowId, WindowState,
};

fn state(scale: i32) -> SharedWindowState {
    SharedWindowState::new(WindowState::new(scale, 10, 20, 640, 480, None))
}

#[test]
fn snapshot_without_frame_uses_window_rectangle() {
    let s = WindowState::new(1, 10, 20, 640, 480, None);
    assert_eq!((s.outer_x, s.outer_y, s.outer_width, s.outer_height), (10, 20, 640, 480));
    assert_eq!((s.surface_x, s.surface_y), (0, 0));
}

#[test]
fn snapshot_with_frame_offsets_surface() {
    let frame = Rect { x: 4, y: 2, width: 660, height: 510 };
    let s = WindowState::new(2, 10, 32, 640, 480, Some(frame));
    assert_eq!((s.outer_x, s.outer_y, s.outer_width, s.outer_height), (4, 2, 660, 510));
    assert_eq!((s.surface_x, s.surface_y), (6, 30));
    assert_eq!(s.scale_factor, 2);
}

#[test]
fn surface_size_uses_latest_scale_factor() {
    let mut s = state(1);
    s.set_surface_size(100, 50);
    assert_eq!(s.surface_size(), PhysicalSize { width: 100, height: 50 });
    assert!(s.update_scale_factor(2));
    assert_eq!(s.surface_size(), PhysicalSize { width: 200, height: 100 });
    assert!(!s.update_scale_factor(2));
}

#[test]
fn physical_values_saturate() {
    let mut s = state(3);
    s.set_surface_size(-5, i32::MAX);
    assert_eq!(s.surface_size(), PhysicalSize { width: 0, height: u32::MAX });
    s.set_outer_position(i32::MIN, i32::MAX);
    assert_eq!(s.outer_position(), PhysicalPosition { x: i32::MIN, y: i32::MAX });
    s.set_surface_position(-7, 9);
    assert_eq!(s.surface_position(), PhysicalPosition { x: -21, y: 27 });
}

#[test]
fn update_position_and_size_reports_changes() {
    let mut s = state(1);
    let r = s.update_position_and_size(0, 0, 640, 480, 10, 20, 640, 480);
    assert_eq!(r, (false, false));
    let r = s.update_position_and_size(1, 1, 641, 480, 10, 21, 700, 500);
    assert_eq!(r, (true, true));
    assert_eq!(s.outer_size(), PhysicalSize { width: 700, height: 500 });
    assert_eq!(s.surface_position(), PhysicalPosition { x: 1, y: 1 });
}

#[test]
fn configure_updates_state_before_events() {
    let mut s = state(2);
    let frame = Frame { extents: Rect { x: 100, y: 50, width: 820, height: 640 }, origin_x: 110, origin_y: 80 };
    let geometry = ConfigureGeometry { width: 800, height: 600, frame: Some(frame) };
    let id = WindowId::from_raw(7);
    let events: Vec<QueuedEvent<()>> = configure_window(&mut s, id, geometry);
    assert_eq!(events.len(), 2);
    match &events[0] {
        QueuedEvent::Window { id: got, event } => {
            assert_eq!(*got, id);
            assert_eq!(*event, WindowEvent::Moved(PhysicalPosition { x: 200, y: 100 }));
        },
        _ => panic!("expected a window event"),
    }
    match &events[1] {
        QueuedEvent::Window { event, .. } => {
            assert_eq!(*event, WindowEvent::SurfaceResized(PhysicalSize { width: 1600, height: 1200 }));
        },
        _ => panic!("expected a window event"),
    }
    assert_eq!(s.surface_size(), PhysicalSize { width: 1600, height: 1200 });
    assert_eq!(s.surface_position(), PhysicalPosition { x: 20, y: 60 });
}

#[test]
fn configure_without_frame() {
    let mut s = state(1);
    let geometry = ConfigureGeometry { width: 30, height: 40, frame: None };
    let events: Vec<QueuedEvent<()>> = configure_window(&mut s, WindowId::from_raw(1), geometry);
    let snap = s.snapshot();
    assert_eq!((snap.outer_x, snap.outer_y, snap.outer_width, snap.outer_height), (0, 0, 30, 40));
    assert_eq!(events.len(), 2);
}

#[test]
fn scale_change_applies_to_later_reads() {
    let mut s = state(1);
    s.set_outer_size(10, 20);
    scale_factor_changed(&mut s, 3);
    assert_eq!(s.scale_factor(), 3);
    assert_eq!(s.outer_size(), PhysicalSize { width: 30, height: 60 });
}
