use winit_gtk::{NativeOp, WindowId, WindowRegistry, WindowRequest};

type Request = WindowRequest<u32, u32>;

fn registry_with(ids: &[u64]) -> WindowRegistry<&'static str> {
    let mut r = WindowRegistry::new();
    for id in ids {
        r.insert(WindowId::from_raw(*id), "native");
    }
    r
}

#[test]
fn requests_apply_in_send_order() {
    let mut registry = registry_with(&[1, 2]);
    let w1 = WindowId::from_raw(1);
    let w2 = WindowId::from_raw(2);
    let requests: Vec<(WindowId, Request)> = vec![
        (w1, WindowRequest::Title("first".to_string())),
        (w2, WindowRequest::Visible(false)),
        (w1, WindowRequest::Title("second".to_string())),
        (w1, WindowRequest::Resizable(true)),
        (w2, WindowRequest::WithGtkWindow(9)),
    ];
    let ops = registry.handle_window_requests(requests);
    assert_eq!(ops.len(), 5);
    assert!(matches!(&ops[0], Some(NativeOp::SetTitle(id, t)) if *id == w1 && t == "first"));
    assert!(matches!(&ops[1], Some(NativeOp::Hide(id)) if *id == w2));
    assert!(matches!(&ops[2], Some(NativeOp::SetTitle(id, t)) if *id == w1 && t == "second"));
    assert!(matches!(&ops[3], Some(NativeOp::SetResizable(id, true)) if *id == w1));
    assert!(matches!(&ops[4], Some(NativeOp::WithGtkWindow(id, 9)) if *id == w2));
}

#[test]
fn destroy_then_title_is_noop() {
    let mut registry = registry_with(&[5]);
    let w = WindowId::from_raw(5);
    let ops = registry.handle_window_requests(vec![
        (w, Request::Destroy),
        (w, Request::Title("x".to_string())),
    ]);
    assert!(matches!(&ops[0], Some(NativeOp::Destroy("native"))));
    assert!(ops[1].is_none());
    assert!(!registry.contains(w));
    assert_eq!(registry.len(), 0);
}

#[test]
fn request_for_unknown_window_is_ignored() {
    let mut registry = registry_with(&[1]);
    let op = registry.handle_window_request(WindowId::from_raw(2), Request::Visible(true));
    assert!(op.is_none());
    assert_eq!(registry.len(), 1);
}

#[test]
fn visible_true_shows_and_wire_up_carries_flags() {
    let mut registry = registry_with(&[3]);
    let w = WindowId::from_raw(3);
    let op = registry.handle_window_request(w, Request::Visible(true));
    assert!(matches!(op, Some(NativeOp::Show(id)) if id == w));
    let op = registry.handle_window_request(
        w,
        Request::WireUpEvents { transparent_draw: true, pointer_moved: false, fullscreen: true },
    );
    assert!(matches!(
        op,
        Some(NativeOp::WireUpEvents { id, transparent_draw: true, pointer_moved: false, fullscreen: true }) if id == w
    ));
    let op = registry.handle_window_request(w, Request::WithDefaultVbox(4));
    assert!(matches!(op, Some(NativeOp::WithDefaultVbox(id, 4)) if id == w));
    assert_eq!(registry.get(w), Some(&"native"));
}

#[test]
fn title_request_reaches_registered_window() {
    let mut registry = registry_with(&[42]);
    let w = WindowId::from_raw(42);
    let op = registry.handle_window_request(w, Request::Title("A".to_string()));
    assert!(matches!(op, Some(NativeOp::SetTitle(id, t)) if id == w && t == "A"));
}
