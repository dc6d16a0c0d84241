use wx_rs::{DisplayHandle, Platform, Point, Size, Window, WindowHandle};

#[test]
fn window_handles_take_the_shape_of_the_platform() {
    let window = Window::new();
    assert_eq!(
        window.raw_window_handle(Platform::Windows, 0x1000, 0x2000),
        WindowHandle::Win32 { hwnd: 0x1000, hinstance: 0x2000 }
    );
    assert_eq!(
        window.raw_window_handle(Platform::MacOs, 0x3000, 0),
        WindowHandle::AppKit { ns_window: 0x3000, ns_view: 0 }
    );
}

#[test]
fn display_handles_take_the_shape_of_the_platform() {
    let window = Window::new();
    assert_eq!(window.raw_display_handle(Platform::Windows), DisplayHandle::Windows);
    assert_eq!(window.raw_display_handle(Platform::MacOs), DisplayHandle::AppKit);
}

#[test]
fn sizes_and_points_hold_what_they_are_given() {
    let size = Size { width: 400, height: 300 };
    assert_eq!((size.width, size.height), (400, 300));
    let point = Point { x: -5, y: 7 };
    assert_eq!((point.x, point.y), (-5, 7));
    assert_eq!(Window::new(), Window {});
}
