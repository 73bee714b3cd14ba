use winit_gtk::{
    DisplayProbe, HandleError, OwnedDisplayHandle, OwnedWindowHandle, RawDisplayHandle,
    RawWindowHandle, WindowProbe, XlibConnection,
};

#[test]
fn wayland_display_handle() {
    let h = OwnedDisplayHandle::new(DisplayProbe::Wayland(0x1000));
    assert_eq!(h, OwnedDisplayHandle::Wayland { display: 0x1000 });
    assert_eq!(h.display_handle(), Ok(RawDisplayHandle::Wayland { display: 0x1000 }));
}

#[test]
fn null_wayland_display_is_unavailable() {
    let h = OwnedDisplayHandle::new(DisplayProbe::Wayland(0));
    assert_eq!(h, OwnedDisplayHandle::Unavailable);
    assert_eq!(h.display_handle(), Err(HandleError::Unavailable));
}

#[test]
fn x11_display_handle() {
    let h = OwnedDisplayHandle::new(DisplayProbe::X11(Some(XlibConnection { display: 0x20, screen: 1 })));
    assert_eq!(h.display_handle(), Ok(RawDisplayHandle::Xlib { display: Some(0x20), screen: 1 }));
    let failed = OwnedDisplayHandle::new(DisplayProbe::X11(None));
    assert_eq!(failed, OwnedDisplayHandle::Unavailable);
    let null = OwnedDisplayHandle::new(DisplayProbe::X11(Some(XlibConnection { display: 0, screen: 0 })));
    assert_eq!(null, OwnedDisplayHandle::Unavailable);
    assert_eq!(OwnedDisplayHandle::new(DisplayProbe::Other), OwnedDisplayHandle::Unavailable);
}

#[test]
fn window_handles() {
    let h = OwnedWindowHandle::new(WindowProbe::Wayland(0x30));
    assert_eq!(h.window_handle(), Ok(RawWindowHandle::Wayland { surface: 0x30 }));
    let h = OwnedWindowHandle::new(WindowProbe::X11(77));
    assert_eq!(h.window_handle(), Ok(RawWindowHandle::Xlib { window: 77 }));
    let h = OwnedWindowHandle::new(WindowProbe::X11(0));
    assert_eq!(h.window_handle(), Err(HandleError::Unavailable));
    let h = OwnedWindowHandle::new(WindowProbe::Other);
    assert_eq!(h.window_handle(), Err(HandleError::Unavailable));
}
