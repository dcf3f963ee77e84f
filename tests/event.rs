use crossterm::event::{Event, KeyCode, KeyEvent, KeyModifiers, MouseButton, MouseEvent};
use pycrossterm::event::{decode, decode_with, Modifiers, MouseKind, TerminalEvent};

fn no_modifiers() -> Modifiers {
    Modifiers { shift: false, control: false, alt: false }
}

#[test]
fn scroll_down_decodes_without_button() {
    let e = Event::Mouse(MouseEvent::ScrollDown(5, 10, KeyModifiers::empty()));
    assert_eq!(
        decode(&e),
        TerminalEvent::MouseAction {
            kind: MouseKind::ScrollDown,
            button: None,
            column: 5,
            row: 10,
            modifiers: no_modifiers(),
        }
    );
}

#[test]
fn mouse_press_keeps_button_and_modifiers() {
    let e = Event::Mouse(MouseEvent::Down(
        MouseButton::Right,
        3,
        4,
        KeyModifiers::SHIFT | KeyModifiers::ALT,
    ));
    assert_eq!(
        decode(&e),
        TerminalEvent::MouseAction {
            kind: MouseKind::Press,
            button: Some(MouseButton::Right),
            column: 3,
            row: 4,
            modifiers: Modifiers { shift: true, control: false, alt: true },
        }
    );
}

#[test]
fn mouse_release_drag_and_scroll_up() {
    let m = KeyModifiers::CONTROL;
    let ctrl = Modifiers { shift: false, control: true, alt: false };
    assert_eq!(
        decode(&Event::Mouse(MouseEvent::Up(MouseButton::Left, 1, 2, m))),
        TerminalEvent::MouseAction {
            kind: MouseKind::Release,
            button: Some(MouseButton::Left),
            column: 1,
            row: 2,
            modifiers: ctrl,
        }
    );
    assert_eq!(
        decode(&Event::Mouse(MouseEvent::Drag(MouseButton::Middle, 0, 0, m))),
        TerminalEvent::MouseAction {
            kind: MouseKind::Drag,
            button: Some(MouseButton::Middle),
            column: 0,
            row: 0,
            modifiers: ctrl,
        }
    );
    assert_eq!(
        decode(&Event::Mouse(MouseEvent::ScrollUp(9, 8, m))),
        TerminalEvent::MouseAction {
            kind: MouseKind::ScrollUp,
            button: None,
            column: 9,
            row: 8,
            modifiers: ctrl,
        }
    );
}

#[test]
fn key_press_decodes() {
    let e = Event::Key(KeyEvent::new(KeyCode::Char('q'), KeyModifiers::CONTROL));
    assert_eq!(
        decode(&e),
        TerminalEvent::KeyPress {
            key: KeyCode::Char('q'),
            modifiers: Modifiers { shift: false, control: true, alt: false },
        }
    );
    let e = Event::Key(KeyEvent::from(KeyCode::F(5)));
    assert_eq!(decode(&e), TerminalEvent::KeyPress { key: KeyCode::F(5), modifiers: no_modifiers() });
}

#[test]
fn resize_decodes() {
    assert_eq!(decode(&Event::Resize(120, 40)), TerminalEvent::Resize { columns: 120, rows: 40 });
}

#[test]
fn decode_with_given_modifiers() {
    let all = Modifiers { shift: true, control: true, alt: true };
    let e = Event::Mouse(MouseEvent::ScrollDown(5, 10, KeyModifiers::empty()));
    assert_eq!(
        decode_with(&e, all),
        TerminalEvent::MouseAction {
            kind: MouseKind::ScrollDown,
            button: None,
            column: 5,
            row: 10,
            modifiers: all,
        }
    );
}

#[test]
fn modifier_bits_are_read() {
    assert_eq!(Modifiers::from_bits(0), no_modifiers());
    assert_eq!(Modifiers::from_bits(0b101), Modifiers { shift: true, control: false, alt: true });
    assert_eq!(Modifiers::from_bits(0b1111_1010), Modifiers { shift: false, control: true, alt: false });
}
