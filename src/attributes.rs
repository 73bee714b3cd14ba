use vstd::prelude::*;

use crate::event_loop::PlatformSpecificEventLoopAttributes;

verus! {

/// Window options specific to the GTK backend.
#[derive(Debug, Clone, Copy, PartialEq, Eq, Structural)]
pub struct WindowAttributesGtk {
    /// Keep the window out of the taskbar and the pager.
    pub skip_taskbar: bool,
    /// Clear the background to transparent on every draw of a transparent
    /// window.
    pub auto_transparent: bool,
    pub double_buffered: bool,
    pub app_paintable: bool,
    pub rgba_visual: bool,
    /// Report pointer motion.
    pub cursor_moved: bool,
    /// Put a vertical box into the window for embedders to fill.
    pub default_vbox: bool,
}

impl WindowAttributesGtk {
    pub fn with_skip_taskbar(self, skip_taskbar: bool) -> (r: Self)
        ensures
            r == (WindowAttributesGtk { skip_taskbar, ..self }),
    {
        let mut r = self;
        r.skip_taskbar = skip_taskbar;
        r
    }

    pub fn with_auto_transparent(self, auto_transparent: bool) -> (r: Self)
        ensures
            r == (WindowAttributesGtk { auto_transparent, ..self }),
    {
        let mut r = self;
        r.auto_transparent = auto_transparent;
        r
    }

    pub fn with_double_buffered(self, double_buffered: bool) -> (r: Self)
        ensures
            r == (WindowAttributesGtk { double_buffered, ..self }),
    {
        let mut r = self;
        r.double_buffered = double_buffered;
        r
    }

    pub fn with_app_paintable(self, app_paintable: bool) -> (r: Self)
        ensures
            r == (WindowAttributesGtk { app_paintable, ..self }),
    {
        let mut r = self;
        r.app_paintable = app_paintable;
        r
    }

    pub fn with_rgba_visual(self, rgba_visual: bool) -> (r: Self)
        ensures
            r == (WindowAttributesGtk { rgba_visual, ..self }),
    {
        let mut r = self;
        r.rgba_visual = rgba_visual;
        r
    }

    pub fn with_cursor_moved(self, cursor_moved: bool) -> (r: Self)
        ensures
            r == (WindowAttributesGtk { cursor_moved, ..self }),
    {
        let mut r = self;
        r.cursor_moved = cursor_moved;
        r
    }

    pub fn with_default_vbox(self, default_vbox: bool) -> (r: Self)
        ensures
            r == (WindowAttributesGtk { default_vbox, ..self }),
    {
        let mut r = self;
        r.default_vbox = default_vbox;
        r
    }
}

impl Default for WindowAttributesGtk {
    fn default() -> (r: Self)
        ensures
            r == (WindowAttributesGtk {
                skip_taskbar: false,
                auto_transparent: true,
                double_buffered: true,
                app_paintable: false,
                rgba_visual: false,
                cursor_moved: true,
                default_vbox: true,
            }),
    {
        WindowAttributesGtk {
            skip_taskbar: false,
            auto_transparent: true,
            double_buffered: true,
            app_paintable: false,
            rgba_visual: false,
            cursor_moved: true,
            default_vbox: true,
        }
    }
}

/// Event loop creation options specific to GTK.
pub trait EventLoopBuilderExtGtk {
    /// Allows the event loop to be created off the main thread.
    fn with_any_thread(&mut self, any_thread: bool) -> &mut Self;

    /// Sets the application id under which the toolkit registers.
    fn with_app_id(&mut self, id: String) -> &mut Self;
}

impl EventLoopBuilderExtGtk for PlatformSpecificEventLoopAttributes {
    fn with_any_thread(&mut self, any_thread: bool) -> &mut Self {
        self.any_thread = any_thread;
        self
    }

    fn with_app_id(&mut self, id: String) -> &mut Self {
        self.app_id = Some(id);
        self
    }
}

} // verus!
