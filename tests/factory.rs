use region_capture::errors::{handle_error, throw_error, ExpectedError};
use region_capture::geometry::{Point, SelectionRect};
use region_capture::target::{
    after_device_attempt, first_driver, selection_target_size, window_target_size, DeviceDecision, DriverKind,
    Size, TargetError, DXGI_ERROR_UNSUPPORTED,
};
use region_capture::window::{
    Cursor, OpaqueWindowFactory, TransparentWindowFactory, VirtualScreen, Window, WindowBuilder, WindowOp,
    WindowType, OVERLAY_ALPHA, OVERLAY_COLOR_KEY,
};

#[test]
fn unsupported_hardware_falls_back_to_software() {
    let driver = first_driver();
    assert_eq!(driver, DriverKind::Hardware);
    let next = after_device_attempt(driver, Some(DXGI_ERROR_UNSUPPORTED));
    assert_eq!(next, DeviceDecision::Retry(DriverKind::Software));
    assert_eq!(after_device_attempt(DriverKind::Software, None), DeviceDecision::Use(DriverKind::Software));
    assert_eq!(DXGI_ERROR_UNSUPPORTED, 0x887A0004u32 as i32);
}

#[test]
fn other_device_failures_are_final() {
    assert_eq!(after_device_attempt(DriverKind::Hardware, None), DeviceDecision::Use(DriverKind::Hardware));
    assert_eq!(
        after_device_attempt(DriverKind::Hardware, Some(-1)),
        DeviceDecision::Fail(TargetError::Device { driver: DriverKind::Hardware, code: -1 })
    );
    assert_eq!(
        after_device_attempt(DriverKind::Software, Some(DXGI_ERROR_UNSUPPORTED)),
        DeviceDecision::Fail(TargetError::Device { driver: DriverKind::Software, code: DXGI_ERROR_UNSUPPORTED })
    );
}

#[test]
fn target_sizes() {
    let client = SelectionRect { left: 0, top: 0, right: 1920, bottom: 1080 };
    assert_eq!(window_target_size(None, client), Size { width: 1920, height: 1080 });
    let asked = Size { width: 3, height: 4 };
    assert_eq!(window_target_size(Some(asked), client), asked);
    let inverted = SelectionRect { left: 10, top: 10, right: 5, bottom: 20 };
    assert_eq!(window_target_size(None, inverted), Size { width: 0, height: 10 });
    assert_eq!(
        selection_target_size(Point { x: 100, y: 100 }, Point { x: 50, y: 70 }),
        Size { width: 50, height: 30 }
    );
}

#[test]
fn builder_picks_props_by_role() {
    let screen = VirtualScreen { x: -1920, y: 0, width: 3840, height: 1080 };
    let overlay = WindowBuilder::new().set_window_type(WindowType::Transparent).build(screen).ok().unwrap();
    assert_eq!(overlay.class_name, "TransparentWindowClass");
    assert!(overlay.layered && overlay.composited && overlay.popup && overlay.black_background);
    assert_eq!((overlay.x, overlay.y, overlay.width, overlay.height), (-1920, 0, 3840, 1080));
    assert_eq!(overlay.cursor, Cursor::Cross);
    assert_eq!(overlay.alpha, Some(OVERLAY_ALPHA));
    assert_eq!(overlay.color_key, Some(0x000000));
    assert_eq!(OVERLAY_COLOR_KEY, 0);
    assert_eq!(OVERLAY_ALPHA, (0.55f64 * 255.0) as u8);
    let display = WindowBuilder::new().set_window_type(WindowType::Opaque).build(screen).ok().unwrap();
    assert_eq!(display.window_name, "OpaqueWindow");
    assert!(!display.layered && display.composited);
    assert_eq!(display.cursor, Cursor::Arrow);
    assert_eq!(display.alpha, None);
    assert_eq!(display.color_key, None);
    assert_eq!(TransparentWindowFactory.window_props(screen).window_name, "TransparentWindow");
    assert_eq!(OpaqueWindowFactory.window_props(screen).class_name, "OpaqueWindowClass");
}

#[test]
fn builder_refuses_main_and_unset() {
    let screen = VirtualScreen { x: 0, y: 0, width: 10, height: 10 };
    let main = WindowBuilder::new().set_window_type(WindowType::Main).build(screen).err().unwrap();
    assert_eq!(main.message, "Main window not implemented");
    let unset = WindowBuilder::new().build(screen).err().unwrap();
    assert_eq!(unset.message, "No window type set");
    assert_eq!(unset.os_code, None);
}

#[test]
fn error_helpers() {
    let e = throw_error::<u8>("Invalid window type").err().unwrap();
    assert_eq!(e.message, "Invalid window type");
    assert_eq!(e.os_code, None);
    assert!(handle_error("x", ExpectedError::Win32, false, 5).is_ok());
    let w = handle_error("Window creation failed", ExpectedError::Win32, true, 1400).err().unwrap();
    assert_eq!((w.message, w.os_code), ("Window creation failed", Some(1400)));
    let o = handle_error("No window procedure set", ExpectedError::Other, true, 1400).err().unwrap();
    assert_eq!(o.os_code, None);
}

#[test]
fn window_reload_hides_then_shows() {
    let w = Window { hwnd: 42, window_type: WindowType::Opaque };
    assert_eq!(w.get_hwnd(), 42);
    assert_eq!(w.reload(), vec![WindowOp::Hide, WindowOp::Show]);
}
