//! The operations that the toolkit is asked to carry out.
//!
//! Nothing in this crate reaches the toolkit. A function that needs the
//! toolkit to act returns the operation as a value, with every argument
//! filled in, and its caller performs it. Handles are the addresses that the
//! toolkit gave out for its menus and menu bars; they are passed back as they
//! came.

use vstd::prelude::*;
use vstd::utf8::encode_utf8;

verus! {

/// One operation for the toolkit to carry out.
#[derive(Debug, PartialEq, Eq)]
pub enum NativeCall {
    /// Insert an entry into a menu at a position. The toolkit answers with
    /// the number by which it will name the entry in menu events.
    InsertToMenu { menu: usize, index: usize, name: String, help: Option<String> },
    /// Insert a menu into another menu as a submenu.
    InsertSubmenu { menu: usize, index: usize, submenu: usize, name: String, help: Option<String> },
    /// Insert a separator into a menu.
    InsertSeparatorToMenu { menu: usize, index: usize },
    /// Remove the item at a position of a menu.
    RemoveFromMenu { menu: usize, index: usize },
    /// Enable or disable the item at a position of a menu.
    EnableMenuItem { menu: usize, index: usize, enable: bool },
    /// Show a menu as the transient status menu.
    SetStatusMenu { menu: usize },
    /// Destroy a menu.
    DeleteMenu { menu: usize },
    /// Insert a menu into a menu bar under a title.
    InsertToMenuBar { bar: usize, menu: usize, index: usize, name: String },
    /// Remove the menu at a position of a menu bar.
    RemoveFromMenuBar { bar: usize, index: usize },
    /// Make a menu bar the menu bar of the application.
    SetMenuBar { bar: usize },
    /// Destroy a menu bar.
    DeleteMenuBar { bar: usize },
    /// Put a text on the clipboard.
    PutStringOnClipboard { text: String },
    /// Put a buffer of bytes on the clipboard.
    PutBufferOnClipboard { bytes: Vec<u8> },
}

/// What a `NativeCall` says, with texts and buffers as sequences.
pub enum NativeCallView {
    InsertToMenu { menu: usize, index: int, name: Seq<char>, help: Option<Seq<char>> },
    InsertSubmenu {
        menu: usize,
        index: int,
        submenu: usize,
        name: Seq<char>,
        help: Option<Seq<char>>,
    },
    InsertSeparatorToMenu { menu: usize, index: int },
    RemoveFromMenu { menu: usize, index: int },
    EnableMenuItem { menu: usize, index: int, enable: bool },
    SetStatusMenu { menu: usize },
    DeleteMenu { menu: usize },
    InsertToMenuBar { bar: usize, menu: usize, index: int, name: Seq<char> },
    RemoveFromMenuBar { bar: usize, index: int },
    SetMenuBar { bar: usize },
    DeleteMenuBar { bar: usize },
    PutStringOnClipboard { text: Seq<char> },
    PutBufferOnClipboard { bytes: Seq<u8> },
}

/// The characters of an optional text.
pub open spec fn text_view(text: Option<String>) -> Option<Seq<char>> {
    match text {
        Some(s) => Some(s@),
        None => None,
    }
}

impl View for NativeCall {
    type V = NativeCallView;

    open spec fn view(&self) -> NativeCallView {
        match *self {
            NativeCall::InsertToMenu { menu, index, name, help } => NativeCallView::InsertToMenu {
                menu,
                index: index as int,
                name: name@,
                help: text_view(help),
            },
            NativeCall::InsertSubmenu {
                menu,
                index,
                submenu,
                name,
                help,
            } => NativeCallView::InsertSubmenu {
                menu,
                index: index as int,
                submenu,
                name: name@,
                help: text_view(help),
            },
            NativeCall::InsertSeparatorToMenu {
                menu,
                index,
            } => NativeCallView::InsertSeparatorToMenu { menu, index: index as int },
            NativeCall::RemoveFromMenu { menu, index } => NativeCallView::RemoveFromMenu {
                menu,
                index: index as int,
            },
            NativeCall::EnableMenuItem { menu, index, enable } => NativeCallView::EnableMenuItem {
                menu,
                index: index as int,
                enable,
            },
            NativeCall::SetStatusMenu { menu } => NativeCallView::SetStatusMenu { menu },
            NativeCall::DeleteMenu { menu } => NativeCallView::DeleteMenu { menu },
            NativeCall::InsertToMenuBar { bar, menu, index, name } => NativeCallView::InsertToMenuBar {
                bar,
                menu,
                index: index as int,
                name: name@,
            },
            NativeCall::RemoveFromMenuBar { bar, index } => NativeCallView::RemoveFromMenuBar {
                bar,
                index: index as int,
            },
            NativeCall::SetMenuBar { bar } => NativeCallView::SetMenuBar { bar },
            NativeCall::DeleteMenuBar { bar } => NativeCallView::DeleteMenuBar { bar },
            NativeCall::PutStringOnClipboard { text } => NativeCallView::PutStringOnClipboard {
                text: text@,
            },
            NativeCall::PutBufferOnClipboard { bytes } => NativeCallView::PutBufferOnClipboard {
                bytes: bytes@,
            },
        }
    }
}

/// What an optional call says.
pub open spec fn optional_call_view(call: Option<NativeCall>) -> Option<NativeCallView> {
    match call {
        Some(call) => Some(call@),
        None => None,
    }
}

/// What a list of calls says, call by call.
pub open spec fn calls_view(calls: Seq<NativeCall>) -> Seq<NativeCallView> {
    Seq::new(calls.len(), |k: int| calls[k]@)
}

/// The bytes that stand for a text on the toolkit's side: its UTF-8 bytes
/// and a closing NUL. A text that holds a NUL itself has no such form.
pub open spec fn c_string_bytes(text: Seq<char>) -> Option<Seq<u8>> {
    if encode_utf8(text).contains(0u8) {
        None
    } else {
        Some(encode_utf8(text).push(0u8))
    }
}

/// The NUL-terminated bytes to hand to the toolkit for a text, if the text
/// holds no NUL.
pub fn c_string(text: &str) -> (bytes: Option<Vec<u8>>)
    ensures
        match bytes {
            Some(bytes) => c_string_bytes(text@) == Some(bytes@),
            None => c_string_bytes(text@) is None,
        },
{
    let source = text.as_bytes();
    let mut bytes: Vec<u8> = Vec::new();
    let mut i: usize = 0;
    while i < source.len()
        invariant
            i <= source.len(),
            source@ == encode_utf8(text@),
            bytes@ == source@.take(i as int),
            !source@.take(i as int).contains(0u8),
        decreases source.len() - i,
    {
        let byte = source[i];
        if byte == 0 {
            assert(source@[i as int] == 0u8);
            return None;
        }
        bytes.push(byte);
        proof {
            let upto = source@.take(i + 1);
            assert(upto =~= source@.take(i as int).push(byte));
            assert forall|k: int| 0 <= k < upto.len() implies upto[k] != 0u8 by {
                if k < i {
                    assert(source@.take(i as int)[k] == upto[k]);
                    assert(source@.take(i as int).contains(upto[k]));
                }
            }
        }
        i += 1;
    }
    assert(source@.take(i as int) =~= source@);
    bytes.push(0);
    Some(bytes)
}

/// A copy of an optional text.
pub(crate) fn clone_text(text: &Option<String>) -> (copy: Option<String>)
    ensures
        copy == *text,
{
    match text {
        Some(s) => Some(s.clone()),
        None => None,
    }
}

} // verus!
