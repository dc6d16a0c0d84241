//! The kinds of event that the toolkit reports, and the small enumerations
//! that cross the boundary as numbers.

use vstd::prelude::*;

verus! {

/// What happened, as the toolkit classifies it. An event carries no payload
/// of its own: the toolkit is asked for it, by the accessor that fits the kind.
#[derive(Debug, Copy, Clone, PartialEq, Eq, Structural)]
pub enum EventType {
    Unknown,
    MouseMotion,
    MouseLeftDown,
    MouseLeftUp,
    MouseMiddleDown,
    MouseMiddleUp,
    MouseRightDown,
    MouseRightUp,
    MouseAux1Down,
    MouseAux1Up,
    MouseAux2Down,
    MouseAux2Up,
    MouseRightDclick,
    MouseLeftDclick,
    MouseMiddleDclick,
    MouseAux1Dclick,
    MouseAux2Dclick,
    MouseWheel,
    MouseEnterWindow,
    MouseLeaveWindow,
    KeyDown,
    KeyUp,
    Resize,
    WindowMove,
    Focus,
    Timer,
    Exit,
    Menu,
}

impl EventType {
    /// The number by which the toolkit names the kind.
    pub open spec fn discriminant(self) -> u32 {
        match self {
            EventType::Unknown => 0,
            EventType::MouseMotion => 1,
            EventType::MouseLeftDown => 2,
            EventType::MouseLeftUp => 3,
            EventType::MouseMiddleDown => 4,
            EventType::MouseMiddleUp => 5,
            EventType::MouseRightDown => 6,
            EventType::MouseRightUp => 7,
            EventType::MouseAux1Down => 8,
            EventType::MouseAux1Up => 9,
            EventType::MouseAux2Down => 10,
            EventType::MouseAux2Up => 11,
            EventType::MouseRightDclick => 12,
            EventType::MouseLeftDclick => 13,
            EventType::MouseMiddleDclick => 14,
            EventType::MouseAux1Dclick => 15,
            EventType::MouseAux2Dclick => 16,
            EventType::MouseWheel => 17,
            EventType::MouseEnterWindow => 18,
            EventType::MouseLeaveWindow => 19,
            EventType::KeyDown => 20,
            EventType::KeyUp => 21,
            EventType::Resize => 22,
            EventType::WindowMove => 23,
            EventType::Focus => 24,
            EventType::Timer => 25,
            EventType::Exit => 26,
            EventType::Menu => 27,
        }
    }
}

/// The shapes that the mouse cursor can take.
#[derive(Debug, Copy, Clone, PartialEq, Eq, Structural)]
pub enum CursorType {
    NoCursor,
    Arrow,
    Cross,
    Hand,
    Ibeam,
    Magnify,
    NoEntry,
    Pencil,
    Size,
    SizeNESW,
    SizeNS,
    SizeNWSE,
    SizeWE,
}

impl CursorType {
    /// The number by which the toolkit names the shape.
    pub open spec fn discriminant(self) -> u32 {
        match self {
            CursorType::NoCursor => 0,
            CursorType::Arrow => 1,
            CursorType::Cross => 2,
            CursorType::Hand => 3,
            CursorType::Ibeam => 4,
            CursorType::Magnify => 5,
            CursorType::NoEntry => 6,
            CursorType::Pencil => 7,
            CursorType::Size => 8,
            CursorType::SizeNESW => 9,
            CursorType::SizeNS => 10,
            CursorType::SizeNWSE => 11,
            CursorType::SizeWE => 12,
        }
    }

    /// The number to hand to the toolkit for this shape.
    pub fn code(self) -> (code: u32)
        ensures
            code == self.discriminant(),
    {
        match self {
            CursorType::NoCursor => 0,
            CursorType::Arrow => 1,
            CursorType::Cross => 2,
            CursorType::Hand => 3,
            CursorType::Ibeam => 4,
            CursorType::Magnify => 5,
            CursorType::NoEntry => 6,
            CursorType::Pencil => 7,
            CursorType::Size => 8,
            CursorType::SizeNESW => 9,
            CursorType::SizeNS => 10,
            CursorType::SizeNWSE => 11,
            CursorType::SizeWE => 12,
        }
    }
}

/// The axis along which the mouse wheel turned.
#[derive(Debug, Copy, Clone, PartialEq, Eq, Structural)]
pub enum WheelAxis {
    Vertical,
    Horizontal,
}

impl WheelAxis {
    /// The number by which the toolkit names the axis.
    pub open spec fn discriminant(self) -> u32 {
        match self {
            WheelAxis::Vertical => 0,
            WheelAxis::Horizontal => 1,
        }
    }
}

/// What can be asked of an event. Every question has the kinds of event that
/// it may be asked of; the toolkit does not check.
#[derive(Debug, Copy, Clone, PartialEq, Eq, Structural)]
pub enum Accessor {
    KeyCode,
    CharCode,
    Modifiers,
    ShiftDown,
    Focused,
    MenuId,
    MousePosition,
    WheelRotation,
    WheelDelta,
    WheelAxis,
}

impl EventType {
    /// The kinds that the mouse causes: motion, the buttons, the wheel, and
    /// entering and leaving the window.
    pub open spec fn is_mouse_event(self) -> bool {
        EventType::MouseMotion.discriminant() <= self.discriminant()
            <= EventType::MouseLeaveWindow.discriminant()
    }

    /// The kinds that a key causes.
    pub open spec fn is_key_event(self) -> bool {
        self == EventType::KeyDown || self == EventType::KeyUp
    }

    /// The question may be asked of an event of this kind.
    pub open spec fn spec_admits(self, accessor: Accessor) -> bool {
        match accessor {
            Accessor::KeyCode => self.is_key_event(),
            Accessor::CharCode => self.is_key_event(),
            Accessor::Modifiers => self.is_key_event(),
            Accessor::ShiftDown => self.is_key_event(),
            Accessor::Focused => self == EventType::Focus,
            Accessor::MenuId => self == EventType::Menu,
            Accessor::MousePosition => self.is_mouse_event(),
            Accessor::WheelRotation => self.is_mouse_event(),
            Accessor::WheelDelta => self.is_mouse_event(),
            Accessor::WheelAxis => self.is_mouse_event(),
        }
    }

    /// Whether the question may be asked of an event of this kind.
    pub fn admits(self, accessor: Accessor) -> (admitted: bool)
        ensures
            admitted == self.spec_admits(accessor),
    {
        let mouse = match self {
            EventType::MouseMotion
            | EventType::MouseLeftDown
            | EventType::MouseLeftUp
            | EventType::MouseMiddleDown
            | EventType::MouseMiddleUp
            | EventType::MouseRightDown
            | EventType::MouseRightUp
            | EventType::MouseAux1Down
            | EventType::MouseAux1Up
            | EventType::MouseAux2Down
            | EventType::MouseAux2Up
            | EventType::MouseRightDclick
            | EventType::MouseLeftDclick
            | EventType::MouseMiddleDclick
            | EventType::MouseAux1Dclick
            | EventType::MouseAux2Dclick
            | EventType::MouseWheel
            | EventType::MouseEnterWindow
            | EventType::MouseLeaveWindow => true,
            _ => false,
        };
        let key = match self {
            EventType::KeyDown | EventType::KeyUp => true,
            _ => false,
        };
        match accessor {
            Accessor::KeyCode | Accessor::CharCode | Accessor::Modifiers | Accessor::ShiftDown => key,
            Accessor::Focused => match self {
                EventType::Focus => true,
                _ => false,
            },
            Accessor::MenuId => match self {
                EventType::Menu => true,
                _ => false,
            },
            Accessor::MousePosition
            | Accessor::WheelRotation
            | Accessor::WheelDelta
            | Accessor::WheelAxis => mouse,
        }
    }
}

/// The kind of event that the toolkit's discriminant names. A number that
/// names no kind gives `Unknown`.
pub fn get_event_type(code: u32) -> (kind: EventType)
    ensures
        code <= 27 ==> kind.discriminant() == code,
        code > 27 ==> kind == EventType::Unknown,
{
    match code {
        1 => EventType::MouseMotion,
        2 => EventType::MouseLeftDown,
        3 => EventType::MouseLeftUp,
        4 => EventType::MouseMiddleDown,
        5 => EventType::MouseMiddleUp,
        6 => EventType::MouseRightDown,
        7 => EventType::MouseRightUp,
        8 => EventType::MouseAux1Down,
        9 => EventType::MouseAux1Up,
        10 => EventType::MouseAux2Down,
        11 => EventType::MouseAux2Up,
        12 => EventType::MouseRightDclick,
        13 => EventType::MouseLeftDclick,
        14 => EventType::MouseMiddleDclick,
        15 => EventType::MouseAux1Dclick,
        16 => EventType::MouseAux2Dclick,
        17 => EventType::MouseWheel,
        18 => EventType::MouseEnterWindow,
        19 => EventType::MouseLeaveWindow,
        20 => EventType::KeyDown,
        21 => EventType::KeyUp,
        22 => EventType::Resize,
        23 => EventType::WindowMove,
        24 => EventType::Focus,
        25 => EventType::Timer,
        26 => EventType::Exit,
        27 => EventType::Menu,
        _ => EventType::Unknown,
    }
}

/// An event as it was received: the toolkit's handle for it together with
/// the kind that the toolkit gave when it was handed over. The handle alone
/// does not tell which questions the event answers; the pair does.
#[derive(Debug, Copy, Clone, PartialEq, Eq)]
pub struct Event {
    handle: usize,
    kind: EventType,
}

/// What an `Event` holds.
pub struct EventView {
    pub handle: usize,
    pub kind: EventType,
}

impl View for Event {
    type V = EventView;

    closed spec fn view(&self) -> EventView {
        EventView { handle: self.handle, kind: self.kind }
    }
}

impl Event {
    /// The event behind `handle`, of the kind that the toolkit's discriminant
    /// names.
    pub fn new(handle: usize, code: u32) -> (event: Event)
        ensures
            event@.handle == handle,
            code <= 27 ==> event@.kind.discriminant() == code,
            code > 27 ==> event@.kind == EventType::Unknown,
    {
        Event { handle, kind: get_event_type(code) }
    }

    /// The kind of the event.
    pub fn kind(&self) -> (kind: EventType)
        ensures
            kind == self@.kind,
    {
        self.kind
    }

    /// The handle by which to ask the toolkit the question, if an event of
    /// this kind answers it.
    pub fn handle_for(&self, accessor: Accessor) -> (handle: Option<usize>)
        ensures
            handle == (if self@.kind.spec_admits(accessor) {
                Some(self@.handle)
            } else {
                None
            }),
    {
        if self.kind.admits(accessor) {
            Some(self.handle)
        } else {
            None
        }
    }
}

/// The wheel axis that the toolkit's number names, if it names one.
pub fn get_mouse_wheel_axis(code: u32) -> (axis: Option<WheelAxis>)
    ensures
        code <= 1 ==> axis is Some && axis->0.discriminant() == code,
        code > 1 ==> axis is None,
{
    match code {
        0 => Some(WheelAxis::Vertical),
        1 => Some(WheelAxis::Horizontal),
        _ => None,
    }
}

/// Classifying the number of a kind gives that kind back: no two kinds share
/// a number, and every number up to the last kind's is taken.
pub proof fn lemma_discriminant_names_one_kind(a: EventType, b: EventType)
    ensures
        a.discriminant() <= 27,
        a.discriminant() == b.discriminant() ==> a == b,
{
}

} // verus!
