//! A typed bridge between an application and a native GUI toolkit.
//!
//! The toolkit hands out untyped values: event discriminants, raw key codes,
//! modifier bits, opaque handles. This crate turns them into typed values and
//! keeps the menu tree and the clipboard protocol that the toolkit mirrors.
//! It never calls the toolkit itself: every operation that the toolkit has to
//! carry out is returned as a [`native::NativeCall`], and what the toolkit
//! answered is passed back in as a plain value.
//!
//! - [`event`], [`modifiers`], [`text`]: the kinds of event, the questions
//!   that an event of a kind answers, and the text that a key press gives.
//! - [`menu`], [`menu_bar`]: the menu tree and the menu bar; [`menu_view`]
//!   holds what they are modelled by, [`menu_laws`] what holds of every tree,
//!   and [`mirror`] what the calls do to the native side.
//! - [`clipboard`]: putting to and fetching from the clipboard.
//! - [`window`], [`geometry`]: native window handles, sizes and positions.

pub mod clipboard;
pub mod event;
pub mod geometry;
pub mod menu;
pub mod menu_bar;
pub mod menu_laws;
pub mod menu_view;
pub mod mirror;
pub mod modifiers;
pub mod native;
pub mod text;
pub mod window;

pub use crate::clipboard::{
    get_from_clipboard, put_on_clipboard, ClipboardEvent, ClipboardStep, Data,
};
pub use crate::event::{
    get_event_type, get_mouse_wheel_axis, Accessor, CursorType, Event, EventType, WheelAxis,
};
pub use crate::geometry::{Point, Size};
pub use crate::menu::{Menu, MenuEntry, MenuItem};
pub use crate::menu_bar::MenuBar;
pub use crate::modifiers::Modifiers;
pub use crate::native::NativeCall;
pub use crate::text::get_event_string;
pub use crate::window::{DisplayHandle, Platform, Window, WindowHandle};
