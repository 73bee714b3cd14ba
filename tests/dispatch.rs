use winit_gtk::{
    coalesce_redraws, event_callbacks, is_main_thread_id, iteration_callbacks, iteration_head,
    iteration_tail, opening_callbacks, redraw_callbacks, with_kept, AppCallback, DeviceId,
    EventQueues, PeekableReceiver, QueuedEvent, StartCause, WindowEvent, WindowId,
};

fn is_redraw_of(c: &AppCallback<u8>, id: WindowId) -> bool {
    matches!(c, AppCallback::WindowEvent(w, WindowEvent::RedrawRequested) if *w == id)
}

#[test]
fn redraws_coalesce_to_one_per_window() {
    let w1 = WindowId::from_raw(1);
    let w2 = WindowId::from_raw(2);
    let ids = vec![w1, w1, w2, w1, w2, w1];
    let callbacks: Vec<AppCallback<u8>> = redraw_callbacks(&ids);
    assert_eq!(callbacks.len(), 2);
    assert_eq!(callbacks.iter().filter(|c| is_redraw_of(c, w1)).count(), 1);
    assert_eq!(callbacks.iter().filter(|c| is_redraw_of(c, w2)).count(), 1);
}

#[test]
fn coalesce_keeps_first_request_order() {
    let ids: Vec<WindowId> = [3u64, 1, 3, 2, 1].iter().map(|r| WindowId::from_raw(*r)).collect();
    let out = coalesce_redraws(&ids);
    let raw: Vec<u64> = out.iter().map(|w| w.raw).collect();
    assert_eq!(raw, vec![3, 1, 2]);
    assert!(coalesce_redraws(&Vec::new()).is_empty());
}

#[test]
fn opening_callbacks_on_init() {
    let c: Vec<AppCallback<u8>> = opening_callbacks(StartCause::Init);
    assert_eq!(c.len(), 2);
    assert!(matches!(c[0], AppCallback::NewEvents(StartCause::Init)));
    assert!(matches!(c[1], AppCallback::CanCreateSurfaces));
    let c: Vec<AppCallback<u8>> = opening_callbacks(StartCause::Poll);
    assert_eq!(c.len(), 1);
}

#[test]
fn events_delivered_in_arrival_order() {
    let w = WindowId::from_raw(9);
    let events = vec![
        QueuedEvent::Window { id: w, event: WindowEvent::Focused(true) },
        QueuedEvent::Device { id: DeviceId { raw: 4 }, event: 17u8 },
        QueuedEvent::Window { id: w, event: WindowEvent::CloseRequested },
    ];
    let c = event_callbacks(events);
    assert_eq!(c.len(), 3);
    assert!(matches!(c[0], AppCallback::WindowEvent(id, WindowEvent::Focused(true)) if id == w));
    assert!(matches!(c[1], AppCallback::DeviceEvent(Some(DeviceId { raw: 4 }), 17)));
    assert!(matches!(c[2], AppCallback::WindowEvent(id, WindowEvent::CloseRequested) if id == w));
}

#[test]
fn peeked_message_is_kept_and_first() {
    let (tx, rx) = crossbeam_channel::unbounded::<u32>();
    let mut p = PeekableReceiver::new(rx);
    assert!(!p.has_incoming());
    tx.send(1).unwrap();
    tx.send(2).unwrap();
    assert!(p.has_incoming());
    assert!(p.has_incoming());
    tx.send(3).unwrap();
    assert_eq!(p.drain(), vec![1, 2, 3]);
    assert!(p.try_recv().is_err());
    tx.send(4).unwrap();
    assert!(p.has_incoming());
    assert_eq!(p.try_recv(), Ok(4));
    assert!(p.drain().is_empty());
}

#[test]
fn queues_report_pending_and_drain() {
    let (etx, erx) = crossbeam_channel::unbounded::<QueuedEvent<u8>>();
    let (rtx, rrx) = crossbeam_channel::unbounded::<WindowId>();
    let mut q = EventQueues::new(erx, rrx);
    assert!(!q.has_pending(false, false));
    assert!(q.has_pending(true, false));
    assert!(q.has_pending(false, true));
    let w = WindowId::from_raw(2);
    rtx.send(w).unwrap();
    rtx.send(w).unwrap();
    assert!(q.has_pending(false, false));
    etx.send(QueuedEvent::Window { id: w, event: WindowEvent::Destroyed }).unwrap();
    assert!(q.has_pending(false, false));
    let events = q.drain_events();
    assert_eq!(events.len(), 1);
    let redraws = q.drain_redraws();
    assert_eq!(redraws.len(), 1);
    assert!(is_redraw_of(&redraws[0], w));
    assert!(!q.has_pending(false, false));
}

fn describe(c: &AppCallback<u8>) -> String {
    match c {
        AppCallback::NewEvents(_) => "new".to_string(),
        AppCallback::CanCreateSurfaces => "surfaces".to_string(),
        AppCallback::WindowEvent(id, WindowEvent::RedrawRequested) => format!("redraw {}", id.raw),
        AppCallback::WindowEvent(id, _) => format!("window {}", id.raw),
        AppCallback::DeviceEvent(_, e) => format!("device {e}"),
        AppCallback::ProxyWakeUp => "wake".to_string(),
        AppCallback::AboutToWait => "wait".to_string(),
    }
}

#[test]
fn iteration_order_is_fixed() {
    let w1 = WindowId::from_raw(1);
    let w2 = WindowId::from_raw(2);
    let events = vec![
        QueuedEvent::Window { id: w2, event: WindowEvent::Focused(true) },
        QueuedEvent::Device { id: DeviceId { raw: 0 }, event: 5u8 },
    ];
    let redraws = vec![w2, w1, w2];
    let all: Vec<String> = iteration_callbacks(StartCause::Init, events, true, &redraws)
        .iter()
        .map(describe)
        .collect();
    assert_eq!(
        all,
        vec!["new", "surfaces", "window 2", "device 5", "wake", "redraw 2", "redraw 1", "wait"]
    );
    let quiet: Vec<String> = iteration_callbacks(StartCause::Poll, Vec::new(), false, &Vec::new())
        .iter()
        .map(describe)
        .collect();
    assert_eq!(quiet, vec!["new", "wait"]);
}

#[test]
fn head_and_tail_split_the_iteration() {
    let w = WindowId::from_raw(4);
    let head: Vec<String> = iteration_head(
        StartCause::Poll,
        event_callbacks(vec![QueuedEvent::Window { id: w, event: WindowEvent::CloseRequested }]),
    )
    .iter()
    .map(describe)
    .collect();
    assert_eq!(head, vec!["new", "window 4"]);
    let tail: Vec<String> =
        iteration_tail(false, redraw_callbacks(&vec![w, w])).iter().map(describe).collect();
    assert_eq!(tail, vec!["redraw 4", "wait"]);
}

#[test]
fn kept_message_goes_first() {
    assert_eq!(with_kept(Some(1), vec![2, 3]), vec![1, 2, 3]);
    assert_eq!(with_kept(None, vec![2, 3]), vec![2, 3]);
    assert_eq!(with_kept(Some(9), Vec::new()), vec![9]);
}

#[test]
fn keep_received_keeps_only_messages() {
    let (_tx, rx) = crossbeam_channel::unbounded::<u32>();
    let mut p = PeekableReceiver::new(rx);
    assert!(!p.keep_received(Err(crossbeam_channel::TryRecvError::Empty)));
    assert!(p.keep_received(Ok(7)));
    assert!(p.has_incoming());
    assert_eq!(p.try_recv(), Ok(7));
}

#[test]
fn main_thread_id_rule() {
    assert!(is_main_thread_id(42, 42));
    assert!(!is_main_thread_id(43, 42));
}
