use winit_gtk::{
    redraw_callbacks, AppCallback, CreationGuard, EventLoop, NativeOp,
    PlatformSpecificEventLoopAttributes, PumpAction, PumpEvent, PumpStatus, WindowEvent, WindowId,
    WindowRegistry, WindowRequest,
};

type Request = WindowRequest<u8, u8>;

#[test]
fn title_applied_before_next_redraw() {
    let mut guard = CreationGuard::new();
    let attrs = PlatformSpecificEventLoopAttributes::default();
    let mut driver = EventLoop::new(&attrs, &mut guard, true).unwrap();
    let mut registry: WindowRegistry<&str> = WindowRegistry::new();
    let w = WindowId::from_raw(11);
    registry.insert(w, "window");

    let (requests_tx, requests_rx) = crossbeam_channel::unbounded::<(WindowId, Request)>();
    let background = requests_tx.clone();
    background.send((w, WindowRequest::Title("A".to_string()))).unwrap();
    let redraws = vec![w];

    let mut log: Vec<String> = Vec::new();
    let mut action = driver.pump_step(PumpEvent::Begin { timeout: None });
    loop {
        action = match action {
            PumpAction::Activate => driver.pump_step(PumpEvent::IterationDone),
            PumpAction::SamplePending => {
                let pending = !requests_rx.is_empty();
                driver.pump_step(PumpEvent::Sampled { pending, now: 0 })
            },
            PumpAction::Poll(_) => {
                // The native loop runs the request consumer.
                while let Ok((id, request)) = requests_rx.try_recv() {
                    if let Some(NativeOp::SetTitle(_, title)) = registry.handle_window_request(id, request) {
                        log.push(format!("title {title}"));
                    }
                }
                driver.pump_step(PumpEvent::Polled { pending: true, now: 1 })
            },
            PumpAction::RunIteration(_) => {
                let callbacks: Vec<AppCallback<()>> = redraw_callbacks(&redraws);
                for c in callbacks {
                    if let AppCallback::WindowEvent(id, WindowEvent::RedrawRequested) = c {
                        log.push(format!("redraw {}", id.raw));
                    }
                }
                driver.pump_step(PumpEvent::IterationDone)
            },
            PumpAction::Finish(status) => {
                assert_eq!(status, PumpStatus::Continue);
                break;
            },
        };
    }
    assert_eq!(log, vec!["title A".to_string(), "redraw 11".to_string()]);
}
