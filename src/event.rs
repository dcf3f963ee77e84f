use vstd::prelude::*;

use crossterm::event::{Event, KeyCode, KeyEvent, KeyModifiers, MouseButton, MouseEvent};

verus! {

/// crossterm's input event: a key, a mouse action or a resize.
#[verifier::external_type_specification]
pub struct ExEvent(Event);

/// crossterm's key event: its key code and modifiers, both public fields.
#[verifier::external_type_specification]
pub struct ExKeyEvent(KeyEvent);

/// crossterm's key identity: a character, a function key or a named key.
#[verifier::external_type_specification]
pub struct ExKeyCode(KeyCode);

/// crossterm's mouse event: its kind, button, 0-based column and row, and modifiers.
#[verifier::external_type_specification]
pub struct ExMouseEvent(MouseEvent);

/// crossterm's mouse button.
#[verifier::external_type_specification]
pub struct ExMouseButton(MouseButton);

/// crossterm's modifier bit set; its bits are read through `modifier_bits`.
#[verifier::external_type_specification]
#[verifier::external_body]
pub struct ExKeyModifiers(KeyModifiers);

/// The modifier keys held during an event.
#[derive(Clone, Copy, Debug, PartialEq, Eq, Structural)]
pub struct Modifiers {
    pub shift: bool,
    pub control: bool,
    pub alt: bool,
}

impl Modifiers {
    /// No modifier held.
    pub open spec fn none() -> Modifiers {
        Modifiers { shift: false, control: false, alt: false }
    }

    /// The modifiers that a bit set holds: shift is bit 0, control bit 1, alt
    /// bit 2.
    pub open spec fn of_bits(bits: u8) -> Modifiers {
        Modifiers {
            shift: bits & 1 != 0,
            control: bits & 2 != 0,
            alt: bits & 4 != 0,
        }
    }

    /// The modifiers that a bit set holds: shift is bit 0, control bit 1, alt
    /// bit 2; other bits are ignored.
    pub fn from_bits(bits: u8) -> (r: Modifiers)
        ensures
            r == Modifiers::of_bits(bits),
    {
        Modifiers { shift: bits & 1 != 0, control: bits & 2 != 0, alt: bits & 4 != 0 }
    }
}

/// What a mouse action was.
#[derive(Clone, Copy, Debug, PartialEq, Eq, Structural)]
pub enum MouseKind {
    Press,
    Release,
    Drag,
    ScrollUp,
    ScrollDown,
}

/// One decoded input event. Each kind carries only the fields that apply to
/// it: a scroll has no button, a resize no modifiers.
#[derive(Clone, Copy, Debug, PartialEq, Eq)]
pub enum TerminalEvent {
    KeyPress { key: KeyCode, modifiers: Modifiers },
    MouseAction {
        kind: MouseKind,
        button: Option<MouseButton>,
        column: u16,
        row: u16,
        modifiers: Modifiers,
    },
    Resize { columns: u16, rows: u16 },
}

/// The event that `e` becomes, with `m` as the modifiers that `e` carries.
pub open spec fn decoded(e: Event, m: Modifiers) -> TerminalEvent {
    match e {
        Event::Key(k) => TerminalEvent::KeyPress { key: k.code, modifiers: m },
        Event::Mouse(MouseEvent::Down(b, x, y, _)) => TerminalEvent::MouseAction {
            kind: MouseKind::Press,
            button: Some(b),
            column: x,
            row: y,
            modifiers: m,
        },
        Event::Mouse(MouseEvent::Up(b, x, y, _)) => TerminalEvent::MouseAction {
            kind: MouseKind::Release,
            button: Some(b),
            column: x,
            row: y,
            modifiers: m,
        },
        Event::Mouse(MouseEvent::Drag(b, x, y, _)) => TerminalEvent::MouseAction {
            kind: MouseKind::Drag,
            button: Some(b),
            column: x,
            row: y,
            modifiers: m,
        },
        Event::Mouse(MouseEvent::ScrollUp(x, y, _)) => TerminalEvent::MouseAction {
            kind: MouseKind::ScrollUp,
            button: None,
            column: x,
            row: y,
            modifiers: m,
        },
        Event::Mouse(MouseEvent::ScrollDown(x, y, _)) => TerminalEvent::MouseAction {
            kind: MouseKind::ScrollDown,
            button: None,
            column: x,
            row: y,
            modifiers: m,
        },
        Event::Resize(columns, rows) => TerminalEvent::Resize { columns, rows },
    }
}

/// Relies on crossterm's `KeyModifiers::bits`, the flag set as a byte, where
/// SHIFT is `0b001`, CONTROL `0b010` and ALT `0b100`.
#[verifier::external_body]
fn modifier_bits(m: KeyModifiers) -> (r: u8) {
    m.bits()
}

/// The modifier bits that `e` carries, as crossterm reports them; a resize
/// carries none.
fn event_modifier_bits(e: &Event) -> u8 {
    match e {
        Event::Key(k) => modifier_bits(k.modifiers),
        Event::Mouse(MouseEvent::Down(_, _, _, m)) => modifier_bits(*m),
        Event::Mouse(MouseEvent::Up(_, _, _, m)) => modifier_bits(*m),
        Event::Mouse(MouseEvent::Drag(_, _, _, m)) => modifier_bits(*m),
        Event::Mouse(MouseEvent::ScrollUp(_, _, m)) => modifier_bits(*m),
        Event::Mouse(MouseEvent::ScrollDown(_, _, m)) => modifier_bits(*m),
        Event::Resize(_, _) => 0,
    }
}

/// The event that `e` becomes, with `m` as its modifiers.
pub fn decode_with(e: &Event, m: Modifiers) -> (r: TerminalEvent)
    ensures
        r == decoded(*e, m),
{
    match *e {
        Event::Key(k) => TerminalEvent::KeyPress { key: k.code, modifiers: m },
        Event::Mouse(MouseEvent::Down(b, x, y, _)) => TerminalEvent::MouseAction {
            kind: MouseKind::Press,
            button: Some(b),
            column: x,
            row: y,
            modifiers: m,
        },
        Event::Mouse(MouseEvent::Up(b, x, y, _)) => TerminalEvent::MouseAction {
            kind: MouseKind::Release,
            button: Some(b),
            column: x,
            row: y,
            modifiers: m,
        },
        Event::Mouse(MouseEvent::Drag(b, x, y, _)) => TerminalEvent::MouseAction {
            kind: MouseKind::Drag,
            button: Some(b),
            column: x,
            row: y,
            modifiers: m,
        },
        Event::Mouse(MouseEvent::ScrollUp(x, y, _)) => TerminalEvent::MouseAction {
            kind: MouseKind::ScrollUp,
            button: None,
            column: x,
            row: y,
            modifiers: m,
        },
        Event::Mouse(MouseEvent::ScrollDown(x, y, _)) => TerminalEvent::MouseAction {
            kind: MouseKind::ScrollDown,
            button: None,
            column: x,
            row: y,
            modifiers: m,
        },
        Event::Resize(columns, rows) => TerminalEvent::Resize { columns, rows },
    }
}

/// Decodes one event of the terminal driver into exactly one `TerminalEvent`
/// of the matching kind, with its key, button, position or size unchanged and
/// the modifiers that crossterm reports for it.
pub fn decode(e: &Event) -> (r: TerminalEvent)
    ensures
        exists|m: Modifiers| r == decoded(*e, m),
{
    let m = Modifiers::from_bits(event_modifier_bits(e));
    decode_with(e, m)
}

} // verus!
