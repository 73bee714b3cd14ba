//! Event-loop driver core for a GTK-hosted windowing backend.
//!
//! The native toolkit is single-threaded and cooperative; this crate holds
//! the decisions that sit between it and a thread-agnostic application:
//! per-window geometry records, the ordered window request consumer, the
//! pump state machine with its timeout rules, the per-iteration dispatch
//! order with redraw coalescing, the window construction plan, and the
//! platform-tagged native handles.

mod attributes;
mod dispatch;
mod event;
mod event_loop;
mod handle;
mod request;
mod theme;
mod thread;
mod window;
mod window_state;

pub use attributes::{EventLoopBuilderExtGtk, WindowAttributesGtk};
pub use dispatch::{
    coalesce_redraws, event_callbacks, iteration_callbacks, iteration_head, iteration_tail,
    opening_callbacks, redraw_callbacks, with_kept, AppCallback, EventQueues, PeekableReceiver,
};
pub use event::{
    configure_window, scale_factor_changed, ConfigureGeometry, DeviceId, Frame, QueuedEvent,
    WindowEvent, WindowId,
};
pub use event_loop::{
    min_timeout, policy_timeout, poll_plan, run_result, start_cause, wait_timeout, wants_iteration,
    ActiveEventLoop, ControlFlow, CreationGuard, DeviceEvents, EventLoop, EventLoopError, OsError,
    PlatformSpecificEventLoopAttributes, PollPlan, PumpAction, PumpEvent, PumpStage, PumpState,
    PumpStatus, StartCause,
};
pub use handle::{
    DisplayProbe, HandleError, OwnedDisplayHandle, OwnedWindowHandle, RawDisplayHandle,
    RawWindowHandle, WindowProbe, XlibConnection,
};
pub use request::{NativeOp, WindowRegistry, WindowRequest};
pub use theme::light_theme_name;
pub use thread::{is_main_thread, is_main_thread_id};
pub use window::{
    plan_window, Fullscreen, FullscreenPlan, GeometryHints, LogicalPosition, LogicalSize,
    MaximizeAction, MaximizeProcess, RequestError, Theme, WindowAttributes, WindowLevel,
    WindowPlan,
};
pub use window_state::{
    to_physical_position, to_physical_size, PhysicalPosition, PhysicalSize, Rect,
    SharedWindowState, WindowState,
};
