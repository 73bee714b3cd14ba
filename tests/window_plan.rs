use winit_gtk::{
    light_theme_name, plan_window, EventLoopBuilderExtGtk, Fullscreen, FullscreenPlan,
    LogicalPosition, LogicalSize, MaximizeAction, MaximizeProcess,
    PlatformSpecificEventLoopAttributes, RequestError, Theme, WindowAttributes,
    WindowAttributesGtk, WindowLevel,
};

fn attributes() -> WindowAttributes {
    WindowAttributes {
        title: "w".to_string(),
        visible: true,
        decorations: true,
        active: true,
        resizable: true,
        maximized: false,
        transparent: false,
        closable: true,
        surface_size: None,
        min_surface_size: None,
        max_surface_size: None,
        surface_resize_increments: None,
        position: None,
        window_level: WindowLevel::Normal,
        preferred_theme: None,
        fullscreen: None,
    }
}

#[test]
fn default_gtk_attributes() {
    let a = WindowAttributesGtk::default();
    assert!(!a.skip_taskbar);
    assert!(a.auto_transparent);
    assert!(a.double_buffered);
    assert!(!a.app_paintable);
    assert!(!a.rgba_visual);
    assert!(a.cursor_moved);
    assert!(a.default_vbox);
}

#[test]
fn gtk_attribute_builders() {
    let a = WindowAttributesGtk::default()
        .with_skip_taskbar(true)
        .with_auto_transparent(false)
        .with_double_buffered(false)
        .with_app_paintable(true)
        .with_rgba_visual(true)
        .with_cursor_moved(false)
        .with_default_vbox(false);
    assert!(a.skip_taskbar && a.app_paintable && a.rgba_visual);
    assert!(!a.auto_transparent && !a.double_buffered && !a.cursor_moved && !a.default_vbox);
}

#[test]
fn event_loop_builder_extension() {
    let mut a = PlatformSpecificEventLoopAttributes::default();
    a.with_any_thread(true).with_app_id("org.example.App".to_string());
    assert!(a.any_thread);
    assert_eq!(a.app_id.as_deref(), Some("org.example.App"));
}

#[test]
fn plan_defaults() {
    let p = plan_window(&attributes(), &WindowAttributesGtk::default()).unwrap();
    assert_eq!((p.width, p.height), (800, 600));
    assert_eq!((p.hints.min_width, p.hints.max_height, p.hints.width_inc), (-1, -1, 0));
    assert!(!p.hints.use_min_size && !p.hints.use_max_size && !p.hints.use_resize_inc);
    assert_eq!(p.fullscreen, FullscreenPlan::Windowed);
    assert!(p.show && p.present && !p.restore_focus_after_draw);
    assert!(!p.app_paintable && !p.rgba_visual && p.default_vbox);
    assert!(!p.transparent_draw && p.pointer_moved);
}

#[test]
fn plan_with_options() {
    let mut a = attributes();
    a.surface_size = Some(LogicalSize { width: 300, height: 200 });
    a.min_surface_size = Some(LogicalSize { width: 100, height: 50 });
    a.surface_resize_increments = Some(LogicalSize { width: 8, height: 16 });
    a.position = Some(LogicalPosition { x: 5, y: 6 });
    a.window_level = WindowLevel::AlwaysOnTop;
    a.preferred_theme = Some(Theme::Light);
    a.fullscreen = Some(Fullscreen::Borderless(Some(12)));
    a.transparent = true;
    a.active = false;
    let p = plan_window(&a, &WindowAttributesGtk::default()).unwrap();
    assert_eq!((p.width, p.height), (300, 200));
    assert_eq!((p.hints.min_width, p.hints.min_height), (100, 50));
    assert_eq!((p.hints.width_inc, p.hints.height_inc), (8, 16));
    assert!(p.hints.use_min_size && !p.hints.use_max_size && p.hints.use_resize_inc);
    assert_eq!(p.move_to, Some(LogicalPosition { x: 5, y: 6 }));
    assert!(p.keep_above && !p.keep_below);
    assert_eq!(p.prefer_dark_theme, Some(false));
    assert_eq!(p.fullscreen, FullscreenPlan::OnMonitor(12));
    assert!(p.fullscreen_requested);
    assert!(p.app_paintable && p.rgba_visual && p.transparent_draw);
    assert!(!p.present && p.restore_focus_after_draw && !p.accept_focus);
}

#[test]
fn exclusive_fullscreen_not_supported() {
    let mut a = attributes();
    a.fullscreen = Some(Fullscreen::Exclusive);
    assert!(matches!(plan_window(&a, &WindowAttributesGtk::default()), Err(RequestError::NotSupported(_))));
}

#[test]
fn maximize_in_three_steps() {
    let mut m = MaximizeProcess::new(false);
    assert_eq!(m.advance(), (MaximizeAction::SetResizable(true), true));
    assert_eq!(m.advance(), (MaximizeAction::Maximize, true));
    assert_eq!(m.advance(), (MaximizeAction::SetResizable(false), false));
}

#[test]
fn light_theme_names() {
    assert_eq!(light_theme_name("Adwaita-dark"), Some("Adwaita"));
    assert_eq!(light_theme_name("Arc-Dark"), Some("Arc"));
    assert_eq!(light_theme_name("Yaru-Darker"), Some("Yaru"));
    assert_eq!(light_theme_name("Adwaita"), None);
    assert_eq!(light_theme_name("dark"), None);
    assert_eq!(light_theme_name("-dark"), Some(""));
}
