//! The application window and the native handles that stand for it.

use vstd::prelude::*;

verus! {

/// The platforms whose native window handles have a known shape.
#[derive(Debug, Clone, Copy, PartialEq, Eq, Structural)]
pub enum Platform {
    Windows,
    MacOs,
    Other,
}

/// The native handles of a window. The two values of a shape are addresses
/// that only the platform can interpret; nothing here looks at them.
#[derive(Debug, Clone, Copy, PartialEq, Eq, Structural)]
pub enum WindowHandle {
    Win32 { hwnd: usize, hinstance: usize },
    AppKit { ns_window: usize, ns_view: usize },
}

/// The native handle of the display that a window is on.
#[derive(Debug, Clone, Copy, PartialEq, Eq, Structural)]
pub enum DisplayHandle {
    Windows,
    AppKit,
}

/// The one window of the application.
#[derive(Debug, Clone, Copy, PartialEq, Eq, Structural)]
pub struct Window {}

impl Window {
    /// The window of the application.
    pub fn new() -> (window: Window)
        ensures
            window == (Window {  }),
    {
        Window {  }
    }

    /// The window's native handles in the shape of the platform, from the
    /// pair of addresses that the toolkit gave. A platform without a known
    /// shape has no handle to ask for.
    pub fn raw_window_handle(&self, platform: Platform, first: usize, second: usize) -> (handle:
        WindowHandle)
        requires
            platform != Platform::Other,
        ensures
            platform == Platform::Windows ==> handle == (WindowHandle::Win32 {
                hwnd: first,
                hinstance: second,
            }),
            platform == Platform::MacOs ==> handle == (WindowHandle::AppKit {
                ns_window: first,
                ns_view: second,
            }),
    {
        match platform {
            Platform::Windows => WindowHandle::Win32 { hwnd: first, hinstance: second },
            _ => WindowHandle::AppKit { ns_window: first, ns_view: second },
        }
    }

    /// The native display handle in the shape of the platform.
    pub fn raw_display_handle(&self, platform: Platform) -> (handle: DisplayHandle)
        requires
            platform != Platform::Other,
        ensures
            platform == Platform::Windows ==> handle == DisplayHandle::Windows,
            platform == Platform::MacOs ==> handle == DisplayHandle::AppKit,
    {
        match platform {
            Platform::Windows => DisplayHandle::Windows,
            _ => DisplayHandle::AppKit,
        }
    }
}

} // verus!
