//! Moving a text or a buffer of bytes to and from the clipboard.
//!
//! Fetching takes two questions to the toolkit for each kind of content:
//! how long it is, and then what it is. `get_from_clipboard` decides after
//! every answer what to ask next.

use crate::native::{NativeCall, NativeCallView};
use vstd::prelude::*;
use vstd::utf8::{
    decode_utf8, encode_utf8, encode_utf8_decode_utf8, encode_utf8_first_scalar,
    encode_utf8_valid_utf8, valid_utf8,
};

verus! {

/// What the clipboard can hold for the application.
#[derive(Debug, PartialEq, Eq)]
pub enum Data {
    String(String),
    Custom(Vec<u8>),
}

/// What a `Data` holds.
pub enum DataView {
    String(Seq<char>),
    Custom(Seq<u8>),
}

impl View for Data {
    type V = DataView;

    open spec fn view(&self) -> DataView {
        match *self {
            Data::String(text) => DataView::String(text@),
            Data::Custom(bytes) => DataView::Custom(bytes@),
        }
    }
}

/// What the toolkit has answered last while the clipboard is fetched.
#[derive(Debug, PartialEq, Eq)]
pub enum ClipboardEvent {
    /// Nothing yet: the fetch begins.
    Start,
    /// The length of the custom buffer.
    BufferLen(i32),
    /// The custom buffer.
    Buffer(Vec<u8>),
    /// The length of the text.
    StringLen(i32),
    /// The bytes of the text.
    StringBytes(Vec<u8>),
}

/// What a fetch of the clipboard does next.
#[derive(Debug, PartialEq, Eq)]
pub enum ClipboardStep {
    /// Ask for the length of the custom buffer.
    QueryBufferLen,
    /// Fetch the custom buffer into a buffer of exactly this length.
    FetchBuffer(usize),
    /// Ask for the length of the text.
    QueryStringLen,
    /// Fetch the text into a buffer of exactly this length.
    FetchString(usize),
    /// The fetch is over, with this result.
    Done(Option<Data>),
}

/// What a `ClipboardEvent` holds.
pub enum ClipboardEventView {
    Start,
    BufferLen(i32),
    Buffer(Seq<u8>),
    StringLen(i32),
    StringBytes(Seq<u8>),
}

/// What a `ClipboardStep` says.
pub enum ClipboardStepView {
    QueryBufferLen,
    FetchBuffer(int),
    QueryStringLen,
    FetchString(int),
    Done(Option<DataView>),
}

impl View for ClipboardEvent {
    type V = ClipboardEventView;

    open spec fn view(&self) -> ClipboardEventView {
        match *self {
            ClipboardEvent::Start => ClipboardEventView::Start,
            ClipboardEvent::BufferLen(len) => ClipboardEventView::BufferLen(len),
            ClipboardEvent::Buffer(bytes) => ClipboardEventView::Buffer(bytes@),
            ClipboardEvent::StringLen(len) => ClipboardEventView::StringLen(len),
            ClipboardEvent::StringBytes(bytes) => ClipboardEventView::StringBytes(bytes@),
        }
    }
}

impl View for ClipboardStep {
    type V = ClipboardStepView;

    open spec fn view(&self) -> ClipboardStepView {
        match *self {
            ClipboardStep::QueryBufferLen => ClipboardStepView::QueryBufferLen,
            ClipboardStep::FetchBuffer(len) => ClipboardStepView::FetchBuffer(len as int),
            ClipboardStep::QueryStringLen => ClipboardStepView::QueryStringLen,
            ClipboardStep::FetchString(len) => ClipboardStepView::FetchString(len as int),
            ClipboardStep::Done(Some(data)) => ClipboardStepView::Done(Some(data@)),
            ClipboardStep::Done(None) => ClipboardStepView::Done(None),
        }
    }
}

/// The call that puts `data` on the clipboard.
pub open spec fn put_call(data: DataView) -> NativeCallView {
    match data {
        DataView::String(text) => NativeCallView::PutStringOnClipboard { text },
        DataView::Custom(bytes) => NativeCallView::PutBufferOnClipboard { bytes },
    }
}

/// The text that the fetched bytes stand for, if they are UTF-8.
pub open spec fn decoded_text(bytes: Seq<u8>) -> Option<DataView> {
    if valid_utf8(bytes) {
        Some(DataView::String(decode_utf8(bytes)))
    } else {
        None
    }
}

/// What a fetch does after an answer of the toolkit. The custom buffer is
/// asked for first and taken whenever it is not empty, so that bytes which an
/// application put there come back as they were and are never read as text.
pub open spec fn next_step(event: ClipboardEventView) -> ClipboardStepView {
    match event {
        ClipboardEventView::Start => ClipboardStepView::QueryBufferLen,
        ClipboardEventView::BufferLen(len) => if len > 0 {
            ClipboardStepView::FetchBuffer(len as int)
        } else {
            ClipboardStepView::QueryStringLen
        },
        ClipboardEventView::Buffer(bytes) => ClipboardStepView::Done(
            Some(DataView::Custom(bytes)),
        ),
        ClipboardEventView::StringLen(len) => if len > 0 {
            ClipboardStepView::FetchString(len as int)
        } else {
            ClipboardStepView::Done(None)
        },
        ClipboardEventView::StringBytes(bytes) => ClipboardStepView::Done(decoded_text(bytes)),
    }
}

/// What a clipboard holds, as the toolkit reports it: a custom buffer and
/// the bytes of a text, either of them empty where the clipboard has none.
pub struct ClipboardView {
    pub buffer: Seq<u8>,
    pub text: Seq<u8>,
}

/// The clipboard of a toolkit that keeps what it is given, after a call that
/// puts something on it: the one content that was put, and nothing of the
/// other kind.
pub open spec fn clipboard_after(call: NativeCallView) -> ClipboardView {
    match call {
        NativeCallView::PutBufferOnClipboard { bytes } => ClipboardView {
            buffer: bytes,
            text: Seq::empty(),
        },
        NativeCallView::PutStringOnClipboard { text } => ClipboardView {
            buffer: Seq::empty(),
            text: encode_utf8(text),
        },
        _ => ClipboardView { buffer: Seq::empty(), text: Seq::empty() },
    }
}

/// What the toolkit answers to a step of a fetch, for a clipboard with the
/// given content.
pub open spec fn answer(clipboard: ClipboardView, step: ClipboardStepView) -> ClipboardEventView {
    match step {
        ClipboardStepView::QueryBufferLen => ClipboardEventView::BufferLen(
            clipboard.buffer.len() as i32,
        ),
        ClipboardStepView::FetchBuffer(_) => ClipboardEventView::Buffer(clipboard.buffer),
        ClipboardStepView::QueryStringLen => ClipboardEventView::StringLen(
            clipboard.text.len() as i32,
        ),
        ClipboardStepView::FetchString(_) => ClipboardEventView::StringBytes(clipboard.text),
        ClipboardStepView::Done(_) => ClipboardEventView::Start,
    }
}

/// The result of a fetch that goes on from `event`, each step answered from
/// the clipboard, if it is over within `rounds` further answers.
pub open spec fn fetch_from(clipboard: ClipboardView, event: ClipboardEventView, rounds: nat)
    -> Option<DataView>
    decreases rounds,
{
    match next_step(event) {
        ClipboardStepView::Done(result) => result,
        step => if rounds == 0 {
            None
        } else {
            fetch_from(clipboard, answer(clipboard, step), (rounds - 1) as nat)
        },
    }
}

/// The result of a whole fetch from a clipboard with the given content. No
/// fetch takes more than four answers.
pub open spec fn fetched(clipboard: ClipboardView) -> Option<DataView> {
    fetch_from(clipboard, ClipboardEventView::Start, 4)
}

/// `String::from_utf8` of std: the text that the bytes encode, and nothing
/// where the bytes are not UTF-8.
#[verifier::external_body]
fn string_from_utf8(bytes: Vec<u8>) -> (text: Option<String>)
    ensures
        valid_utf8(bytes@) <==> text is Some,
        text matches Some(s) ==> s@ == decode_utf8(bytes@),
{
    match String::from_utf8(bytes) {
        Ok(s) => Some(s),
        Err(_) => None,
    }
}

/// The call that puts `data` on the clipboard.
pub fn put_on_clipboard(data: &Data) -> (call: NativeCall)
    ensures
        call@ == put_call(data@),
{
    match data {
        Data::String(text) => NativeCall::PutStringOnClipboard { text: text.clone() },
        Data::Custom(bytes) => NativeCall::PutBufferOnClipboard { bytes: bytes.clone() },
    }
}

/// What to do next while fetching the clipboard, after the toolkit's last
/// answer. The fetch begins with `ClipboardEvent::Start` and is over when
/// the step is `Done`.
pub fn get_from_clipboard(event: ClipboardEvent) -> (step: ClipboardStep)
    ensures
        step@ == next_step(event@),
{
    match event {
        ClipboardEvent::Start => ClipboardStep::QueryBufferLen,
        ClipboardEvent::BufferLen(len) => {
            if len > 0 {
                ClipboardStep::FetchBuffer(len as usize)
            } else {
                ClipboardStep::QueryStringLen
            }
        },
        ClipboardEvent::Buffer(bytes) => ClipboardStep::Done(Some(Data::Custom(bytes))),
        ClipboardEvent::StringLen(len) => {
            if len > 0 {
                ClipboardStep::FetchString(len as usize)
            } else {
                ClipboardStep::Done(None)
            }
        },
        ClipboardEvent::StringBytes(bytes) => {
            match string_from_utf8(bytes) {
                Some(text) => ClipboardStep::Done(Some(Data::String(text))),
                None => ClipboardStep::Done(None),
            }
        },
    }
}

/// A fetch gives the custom buffer where the clipboard has one, else the
/// text where it has one that is UTF-8, else nothing.
pub proof fn lemma_fetch_prefers_buffer(clipboard: ClipboardView)
    requires
        clipboard.buffer.len() <= i32::MAX,
        clipboard.text.len() <= i32::MAX,
    ensures
        fetched(clipboard) == (if clipboard.buffer.len() > 0 {
            Some(DataView::Custom(clipboard.buffer))
        } else if clipboard.text.len() > 0 {
            decoded_text(clipboard.text)
        } else {
            None
        }),
{
    reveal_with_fuel(fetch_from, 5);
}

/// Bytes that were put on the clipboard come back exactly as they were,
/// whether or not they are UTF-8. An empty buffer counts as none, and the
/// toolkit cannot report a length above the largest `i32`.
pub proof fn lemma_custom_round_trip(bytes: Seq<u8>)
    requires
        0 < bytes.len() <= i32::MAX,
    ensures
        fetched(clipboard_after(put_call(DataView::Custom(bytes)))) == Some(
            DataView::Custom(bytes),
        ),
{
    lemma_fetch_prefers_buffer(clipboard_after(put_call(DataView::Custom(bytes))));
}

/// A text that was put on the clipboard comes back as it was. An empty text
/// counts as none: after it a fetch gives nothing.
pub proof fn lemma_text_round_trip(text: Seq<char>)
    requires
        encode_utf8(text).len() <= i32::MAX,
        !encode_utf8(text).contains(0u8),
    ensures
        text.len() > 0 ==> fetched(clipboard_after(put_call(DataView::String(text)))) == Some(
            DataView::String(text),
        ),
        text.len() == 0 ==> fetched(clipboard_after(put_call(DataView::String(text)))) is None,
{
    let clipboard = clipboard_after(put_call(DataView::String(text)));
    lemma_fetch_prefers_buffer(clipboard);
    encode_utf8_valid_utf8(text);
    encode_utf8_decode_utf8(text);
    if text.len() > 0 {
        encode_utf8_first_scalar(text);
    } else {
        assert(text =~= Seq::<char>::empty());
    }
}

} // verus!
