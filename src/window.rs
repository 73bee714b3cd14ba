use vstd::prelude::*;

use crate::attributes::WindowAttributesGtk;

verus! {

/// A size in logical pixels.
#[derive(Debug, Clone, Copy, PartialEq, Eq, Structural)]
pub struct LogicalSize {
    pub width: i32,
    pub height: i32,
}

/// A position in logical pixels.
#[derive(Debug, Clone, Copy, PartialEq, Eq, Structural)]
pub struct LogicalPosition {
    pub x: i32,
    pub y: i32,
}

#[derive(Debug, Clone, Copy, PartialEq, Eq, Structural)]
pub enum WindowLevel {
    Normal,
    AlwaysOnTop,
    AlwaysOnBottom,
}

#[derive(Debug, Clone, Copy, PartialEq, Eq, Structural)]
pub enum Theme {
    Light,
    Dark,
}

/// Fullscreen modes; a borderless one may name a monitor by its native id.
#[derive(Debug, Clone, Copy, PartialEq, Eq, Structural)]
pub enum Fullscreen {
    Exclusive,
    Borderless(Option<u64>),
}

/// The portable window options, with every size already in logical pixels
/// at the window's scale factor.
#[derive(Debug, Clone)]
pub struct WindowAttributes {
    pub title: String,
    pub visible: bool,
    pub decorations: bool,
    pub active: bool,
    pub resizable: bool,
    pub maximized: bool,
    pub transparent: bool,
    pub closable: bool,
    pub surface_size: Option<LogicalSize>,
    pub min_surface_size: Option<LogicalSize>,
    pub max_surface_size: Option<LogicalSize>,
    pub surface_resize_increments: Option<LogicalSize>,
    pub position: Option<LogicalPosition>,
    pub window_level: WindowLevel,
    pub preferred_theme: Option<Theme>,
    pub fullscreen: Option<Fullscreen>,
}

/// Why a window request failed.
#[derive(Debug, Clone)]
pub enum RequestError {
    NotSupported(String),
}

/// The geometry hints handed to the toolkit; a flag says which of the
/// three pairs are meant.
#[derive(Debug, Clone, Copy, PartialEq, Eq, Structural)]
pub struct GeometryHints {
    pub min_width: i32,
    pub min_height: i32,
    pub max_width: i32,
    pub max_height: i32,
    pub width_inc: i32,
    pub height_inc: i32,
    pub use_min_size: bool,
    pub use_max_size: bool,
    pub use_resize_inc: bool,
}

#[derive(Debug, Clone, Copy, PartialEq, Eq, Structural)]
pub enum FullscreenPlan {
    Windowed,
    /// Fullscreen on the monitor with this native id, if it is found.
    OnMonitor(u64),
    /// Fullscreen on the window's current monitor.
    Current,
}

/// Everything the toolkit is told when a window is built.
#[derive(Debug, Clone, Copy, PartialEq, Eq, Structural)]
pub struct WindowPlan {
    pub deletable: bool,
    pub visible: bool,
    pub decorated: bool,
    pub accept_focus: bool,
    pub skip_taskbar: bool,
    pub width: i32,
    pub height: i32,
    pub hints: GeometryHints,
    pub move_to: Option<LogicalPosition>,
    /// Maximize in steps (see `MaximizeProcess`) instead of setting
    /// `resizable` at once.
    pub maximize: bool,
    pub resizable: bool,
    pub keep_above: bool,
    pub keep_below: bool,
    pub prefer_dark_theme: Option<bool>,
    pub fullscreen: FullscreenPlan,
    pub app_paintable: bool,
    pub rgba_visual: bool,
    pub default_vbox: bool,
    pub show: bool,
    pub present: bool,
    /// Restore `accept_focus` after the first draw of a window created
    /// without focus.
    pub restore_focus_after_draw: bool,
    pub transparent_draw: bool,
    pub pointer_moved: bool,
    pub fullscreen_requested: bool,
}

pub open spec fn size_or(s: Option<LogicalSize>, w: i32, h: i32) -> (i32, i32) {
    match s {
        Some(s) => (s.width, s.height),
        None => (w, h),
    }
}

fn size_or_default(s: Option<LogicalSize>, w: i32, h: i32) -> (r: (i32, i32))
    ensures
        r == size_or(s, w, h),
{
    match s {
        Some(s) => (s.width, s.height),
        None => (w, h),
    }
}

pub open spec fn hints_of(attributes: WindowAttributes) -> GeometryHints {
    GeometryHints {
        min_width: size_or(attributes.min_surface_size, -1i32, -1i32).0,
        min_height: size_or(attributes.min_surface_size, -1i32, -1i32).1,
        max_width: size_or(attributes.max_surface_size, -1i32, -1i32).0,
        max_height: size_or(attributes.max_surface_size, -1i32, -1i32).1,
        width_inc: size_or(attributes.surface_resize_increments, 0, 0).0,
        height_inc: size_or(attributes.surface_resize_increments, 0, 0).1,
        use_min_size: attributes.min_surface_size is Some,
        use_max_size: attributes.max_surface_size is Some,
        use_resize_inc: attributes.surface_resize_increments is Some,
    }
}

pub open spec fn fullscreen_plan_of(f: Option<Fullscreen>) -> FullscreenPlan {
    match f {
        Some(Fullscreen::Borderless(Some(m))) => FullscreenPlan::OnMonitor(m),
        Some(_) => FullscreenPlan::Current,
        None => FullscreenPlan::Windowed,
    }
}

pub open spec fn plan_of(attributes: WindowAttributes, platform: WindowAttributesGtk) -> WindowPlan {
    WindowPlan {
        deletable: attributes.closable,
        visible: attributes.visible,
        decorated: attributes.decorations,
        accept_focus: attributes.active,
        skip_taskbar: platform.skip_taskbar,
        width: size_or(attributes.surface_size, 800, 600).0,
        height: size_or(attributes.surface_size, 800, 600).1,
        hints: hints_of(attributes),
        move_to: attributes.position,
        maximize: attributes.maximized,
        resizable: attributes.resizable,
        keep_above: attributes.window_level == WindowLevel::AlwaysOnTop,
        keep_below: attributes.window_level == WindowLevel::AlwaysOnBottom,
        prefer_dark_theme: match attributes.preferred_theme {
            Some(Theme::Dark) => Some(true),
            Some(Theme::Light) => Some(false),
            None => None,
        },
        fullscreen: fullscreen_plan_of(attributes.fullscreen),
        app_paintable: platform.app_paintable || attributes.transparent,
        rgba_visual: platform.rgba_visual || attributes.transparent,
        default_vbox: platform.default_vbox,
        show: attributes.visible,
        present: attributes.visible && attributes.active,
        restore_focus_after_draw: !attributes.active,
        transparent_draw: attributes.transparent && platform.auto_transparent,
        pointer_moved: platform.cursor_moved,
        fullscreen_requested: attributes.fullscreen is Some,
    }
}

/// Decides how a window is built from its options.  Exclusive fullscreen
/// is not supported; every other combination gives a plan: an 800x600
/// surface unless a size is given, geometry hints only for the limits that
/// are set, and so on, as `plan_of` states.
#[verifier::rlimit(50)]
pub fn plan_window(attributes: &WindowAttributes, platform: &WindowAttributesGtk) -> (r: Result<
    WindowPlan,
    RequestError,
>)
    ensures
        attributes.fullscreen == Some(Fullscreen::Exclusive) <==> r is Err,
        r matches Ok(p) ==> p == plan_of(*attributes, *platform),
        r matches Err(e) ==> e is NotSupported,
{
    if let Some(Fullscreen::Exclusive) = attributes.fullscreen {
        return Err(
            RequestError::NotSupported(
                String::from_str("GTK backend does not support exclusive fullscreen modes"),
            ),
        );
    }
    let (width, height) = size_or_default(attributes.surface_size, 800, 600);
    let (min_width, min_height) = size_or_default(attributes.min_surface_size, -1i32, -1i32);
    let (max_width, max_height) = size_or_default(attributes.max_surface_size, -1i32, -1i32);
    let (width_inc, height_inc) = size_or_default(attributes.surface_resize_increments, 0, 0);
    let hints = GeometryHints {
        min_width,
        min_height,
        max_width,
        max_height,
        width_inc,
        height_inc,
        use_min_size: attributes.min_surface_size.is_some(),
        use_max_size: attributes.max_surface_size.is_some(),
        use_resize_inc: attributes.surface_resize_increments.is_some(),
    };
    let prefer_dark_theme = match attributes.preferred_theme {
        Some(Theme::Dark) => Some(true),
        Some(Theme::Light) => Some(false),
        None => None,
    };
    let fullscreen = match attributes.fullscreen {
        Some(Fullscreen::Borderless(Some(m))) => FullscreenPlan::OnMonitor(m),
        Some(_) => FullscreenPlan::Current,
        None => FullscreenPlan::Windowed,
    };
    let keep_above = match attributes.window_level {
        WindowLevel::AlwaysOnTop => true,
        _ => false,
    };
    let keep_below = match attributes.window_level {
        WindowLevel::AlwaysOnBottom => true,
        _ => false,
    };
    Ok(
        WindowPlan {
            deletable: attributes.closable,
            visible: attributes.visible,
            decorated: attributes.decorations,
            accept_focus: attributes.active,
            skip_taskbar: platform.skip_taskbar,
            width,
            height,
            hints,
            move_to: attributes.position,
            maximize: attributes.maximized,
            resizable: attributes.resizable,
            keep_above,
            keep_below,
            prefer_dark_theme,
            fullscreen,
            app_paintable: platform.app_paintable || attributes.transparent,
            rgba_visual: platform.rgba_visual || attributes.transparent,
            default_vbox: platform.default_vbox,
            show: attributes.visible,
            present: attributes.visible && attributes.active,
            restore_focus_after_draw: !attributes.active,
            transparent_draw: attributes.transparent && platform.auto_transparent,
            pointer_moved: platform.cursor_moved,
            fullscreen_requested: attributes.fullscreen.is_some(),
        },
    )
}

/// One step of maximizing a window that may not be resizable.
#[derive(Debug, Clone, Copy, PartialEq, Eq, Structural)]
pub enum MaximizeAction {
    SetResizable(bool),
    Maximize,
}

/// A non-resizable window cannot be maximized, so it is made resizable,
/// maximized, and then given back its own resizability, one idle
/// callback at a time.
#[derive(Debug, Clone, Copy, PartialEq, Eq, Structural)]
pub struct MaximizeProcess {
    pub resizable: bool,
    pub step: u8,
}

impl MaximizeProcess {
    pub fn new(resizable: bool) -> (r: Self)
        ensures
            r == (MaximizeProcess { resizable, step: 0 }),
    {
        MaximizeProcess { resizable, step: 0 }
    }

    /// The action of the current step, and whether another step follows.
    pub fn advance(&mut self) -> (r: (MaximizeAction, bool))
        ensures
            final(self).resizable == old(self).resizable,
            old(self).step == 0 ==> r == (MaximizeAction::SetResizable(true), true)
                && final(self).step == 1,
            old(self).step == 1 ==> r == (MaximizeAction::Maximize, true) && final(self).step == 2,
            old(self).step >= 2 ==> r == (MaximizeAction::SetResizable(old(self).resizable), false)
                && final(self).step == old(self).step,
    {
        if self.step == 0 {
            self.step = 1;
            (MaximizeAction::SetResizable(true), true)
        } else if self.step == 1 {
            self.step = 2;
            (MaximizeAction::Maximize, true)
        } else {
            (MaximizeAction::SetResizable(self.resizable), false)
        }
    }
}

} // verus!
