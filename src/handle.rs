use vstd::prelude::*;

verus! {

/// An open Xlib connection and its default screen.
#[derive(Debug, Clone, Copy, PartialEq, Eq, Structural)]
pub struct XlibConnection {
    pub display: usize,
    pub screen: i32,
}

/// What the platform accessors returned for the display, by backend.
/// Addresses are native pointers as integers; zero is null.
#[derive(Debug, Clone, Copy, PartialEq, Eq, Structural)]
pub enum DisplayProbe {
    /// The Wayland `wl_display` of the toolkit's display.
    Wayland(usize),
    /// The result of opening an Xlib connection: `None` when the library
    /// could not be loaded, else the connection and its default screen.
    X11(Option<XlibConnection>),
    /// Any other backend.
    Other,
}

/// What the platform accessors returned for one window, by backend.
#[derive(Debug, Clone, Copy, PartialEq, Eq, Structural)]
pub enum WindowProbe {
    /// The Wayland `wl_surface` of the window.
    Wayland(usize),
    /// The X11 window id.
    X11(u64),
    /// Any other backend.
    Other,
}

/// Why a raw handle cannot be given.
#[derive(Debug, Clone, Copy, PartialEq, Eq, Structural)]
pub enum HandleError {
    Unavailable,
}

/// A raw display handle, ready to be borrowed by a renderer.
#[derive(Debug, Clone, Copy, PartialEq, Eq, Structural)]
#[allow(inconsistent_fields)]
pub enum RawDisplayHandle {
    Wayland { display: usize },
    Xlib { display: Option<usize>, screen: i32 },
}

/// A raw window handle, ready to be borrowed by a renderer.
#[derive(Debug, Clone, Copy, PartialEq, Eq, Structural)]
pub enum RawWindowHandle {
    Wayland { surface: usize },
    Xlib { window: u64 },
}

/// The process's display, tagged by backend; `Unavailable` when the
/// backend gave nothing usable.  Built once, never changed.
#[derive(Debug, Clone, Copy, PartialEq, Eq, Structural)]
pub enum OwnedDisplayHandle {
    Wayland { display: usize },
    X11 { display: usize, screen: i32 },
    Unavailable,
}

pub open spec fn display_handle_of(probe: DisplayProbe) -> OwnedDisplayHandle {
    match probe {
        DisplayProbe::Wayland(p) => if p != 0 {
            OwnedDisplayHandle::Wayland { display: p }
        } else {
            OwnedDisplayHandle::Unavailable
        },
        DisplayProbe::X11(Some(c)) => if c.display != 0 {
            OwnedDisplayHandle::X11 { display: c.display, screen: c.screen }
        } else {
            OwnedDisplayHandle::Unavailable
        },
        _ => OwnedDisplayHandle::Unavailable,
    }
}

impl OwnedDisplayHandle {
    /// Every present variant holds a non-null address.
    pub open spec fn wf(&self) -> bool {
        match *self {
            OwnedDisplayHandle::Wayland { display } => display != 0,
            OwnedDisplayHandle::X11 { display, .. } => display != 0,
            OwnedDisplayHandle::Unavailable => true,
        }
    }

    /// Wraps a non-null Wayland display or a non-null X11 connection; any
    /// null pointer, a failed Xlib load or another backend is `Unavailable`.
    pub fn new(probe: DisplayProbe) -> (r: Self)
        ensures
            r == display_handle_of(probe),
            r.wf(),
    {
        match probe {
            DisplayProbe::Wayland(p) => if p != 0 {
                OwnedDisplayHandle::Wayland { display: p }
            } else {
                OwnedDisplayHandle::Unavailable
            },
            DisplayProbe::X11(Some(c)) => if c.display != 0 {
                OwnedDisplayHandle::X11 { display: c.display, screen: c.screen }
            } else {
                OwnedDisplayHandle::Unavailable
            },
            _ => OwnedDisplayHandle::Unavailable,
        }
    }

    /// The raw handle, or `Unavailable` for that variant.
    pub fn display_handle(&self) -> (r: Result<RawDisplayHandle, HandleError>)
        ensures
            match *self {
                OwnedDisplayHandle::Wayland { display } => r == Ok::<RawDisplayHandle, HandleError>(
                    RawDisplayHandle::Wayland { display },
                ),
                OwnedDisplayHandle::X11 { display, screen } => r == Ok::<
                    RawDisplayHandle,
                    HandleError,
                >(RawDisplayHandle::Xlib { display: Some(display), screen }),
                OwnedDisplayHandle::Unavailable => r == Err::<RawDisplayHandle, HandleError>(
                    HandleError::Unavailable,
                ),
            },
    {
        match *self {
            OwnedDisplayHandle::Wayland { display } => Ok(RawDisplayHandle::Wayland { display }),
            OwnedDisplayHandle::X11 { display, screen } => Ok(
                RawDisplayHandle::Xlib { display: Some(display), screen },
            ),
            OwnedDisplayHandle::Unavailable => Err(HandleError::Unavailable),
        }
    }
}

/// One window's native surface, tagged by backend.
#[derive(Debug, Clone, Copy, PartialEq, Eq, Structural)]
pub enum OwnedWindowHandle {
    Wayland { surface: usize },
    X11 { xid: u64 },
    Unavailable,
}

pub open spec fn window_handle_of(probe: WindowProbe) -> OwnedWindowHandle {
    match probe {
        WindowProbe::Wayland(p) => if p != 0 {
            OwnedWindowHandle::Wayland { surface: p }
        } else {
            OwnedWindowHandle::Unavailable
        },
        WindowProbe::X11(xid) => if xid != 0 {
            OwnedWindowHandle::X11 { xid }
        } else {
            OwnedWindowHandle::Unavailable
        },
        WindowProbe::Other => OwnedWindowHandle::Unavailable,
    }
}

impl OwnedWindowHandle {
    pub open spec fn wf(&self) -> bool {
        match *self {
            OwnedWindowHandle::Wayland { surface } => surface != 0,
            OwnedWindowHandle::X11 { xid } => xid != 0,
            OwnedWindowHandle::Unavailable => true,
        }
    }

    /// Wraps a non-null Wayland surface or a non-zero X11 window id; anything
    /// else is `Unavailable`.
    pub fn new(probe: WindowProbe) -> (r: Self)
        ensures
            r == window_handle_of(probe),
            r.wf(),
    {
        match probe {
            WindowProbe::Wayland(p) => if p != 0 {
                OwnedWindowHandle::Wayland { surface: p }
            } else {
                OwnedWindowHandle::Unavailable
            },
            WindowProbe::X11(xid) => if xid != 0 {
                OwnedWindowHandle::X11 { xid }
            } else {
                OwnedWindowHandle::Unavailable
            },
            WindowProbe::Other => OwnedWindowHandle::Unavailable,
        }
    }

    pub fn window_handle(&self) -> (r: Result<RawWindowHandle, HandleError>)
        ensures
            match *self {
                OwnedWindowHandle::Wayland { surface } => r == Ok::<RawWindowHandle, HandleError>(
                    RawWindowHandle::Wayland { surface },
                ),
                OwnedWindowHandle::X11 { xid } => r == Ok::<RawWindowHandle, HandleError>(
                    RawWindowHandle::Xlib { window: xid },
                ),
                OwnedWindowHandle::Unavailable => r == Err::<RawWindowHandle, HandleError>(
                    HandleError::Unavailable,
                ),
            },
    {
        match *self {
            OwnedWindowHandle::Wayland { surface } => Ok(RawWindowHandle::Wayland { surface }),
            OwnedWindowHandle::X11 { xid } => Ok(RawWindowHandle::Xlib { window: xid }),
            OwnedWindowHandle::Unavailable => Err(HandleError::Unavailable),
        }
    }
}

} // verus!
