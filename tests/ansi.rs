use pycrossterm::ansi::{ClearType, Command};
use pycrossterm::style::{Attribute, Color};

#[test]
fn cursor_commands_encode() {
    assert_eq!(Command::MoveTo(0, 0).encode(), "\x1b[1;1H");
    assert_eq!(Command::MoveTo(4, 9).encode(), "\x1b[10;5H");
    assert_eq!(Command::MoveUp(3).encode(), "\x1b[3A");
    assert_eq!(Command::MoveDown(12).encode(), "\x1b[12B");
    assert_eq!(Command::MoveRight(1).encode(), "\x1b[1C");
    assert_eq!(Command::MoveLeft(0).encode(), "\x1b[0D");
    assert_eq!(Command::MoveToNextLine(2).encode(), "\x1b[2E");
    assert_eq!(Command::MoveToPreviousLine(7).encode(), "\x1b[7F");
    assert_eq!(Command::MoveToColumn(65535).encode(), "\x1b[65535G");
    assert_eq!(Command::SavePosition.encode(), "\x1b7");
    assert_eq!(Command::RestorePosition.encode(), "\x1b8");
    assert_eq!(Command::Hide.encode(), "\x1b[?25l");
    assert_eq!(Command::Show.encode(), "\x1b[?25h");
    assert_eq!(Command::EnableBlinking.encode(), "\x1b[?12h");
    assert_eq!(Command::DisableBlinking.encode(), "\x1b[?12l");
}

#[test]
fn clear_commands_encode() {
    assert_eq!(Command::Clear(ClearType::All).encode(), "\x1b[2J");
    assert_eq!(Command::Clear(ClearType::FromCursorDown).encode(), "\x1b[J");
    assert_eq!(Command::Clear(ClearType::FromCursorUp).encode(), "\x1b[1J");
    assert_eq!(Command::Clear(ClearType::CurrentLine).encode(), "\x1b[2K");
    assert_eq!(Command::Clear(ClearType::UntilNewLine).encode(), "\x1b[K");
}

#[test]
fn screen_commands_encode() {
    assert_eq!(Command::ScrollUp(5).encode(), "\x1b[5S");
    assert_eq!(Command::ScrollDown(6).encode(), "\x1b[6T");
    assert_eq!(Command::SetSize(80, 24).encode(), "\x1b[8;24;80t");
    assert_eq!(Command::EnterAlternateScreen.encode(), "\x1b[?1049h");
    assert_eq!(Command::LeaveAlternateScreen.encode(), "\x1b[?1049l");
    assert_eq!(
        Command::EnableMouseCapture.encode(),
        "\x1b[?1000h\x1b[?1002h\x1b[?1015h\x1b[?1006h"
    );
    assert_eq!(
        Command::DisableMouseCapture.encode(),
        "\x1b[?1006l\x1b[?1015l\x1b[?1002l\x1b[?1000l"
    );
}

#[test]
fn style_commands_encode() {
    assert_eq!(Command::SetForegroundColor(Color::Reset).encode(), "\x1b[39m");
    assert_eq!(Command::SetBackgroundColor(Color::Reset).encode(), "\x1b[49m");
    assert_eq!(Command::SetForegroundColor(Color::White).encode(), "\x1b[38;5;15m");
    assert_eq!(Command::SetBackgroundColor(Color::DarkGreen).encode(), "\x1b[48;5;2m");
    assert_eq!(
        Command::SetBackgroundColor(Color::Rgb { r: 0, g: 10, b: 200 }).encode(),
        "\x1b[48;2;0;10;200m"
    );
    assert_eq!(Command::ResetColor.encode(), "\x1b[0m");
    assert_eq!(Command::SetAttribute(Attribute::Reset).encode(), "\x1b[0m");
    assert_eq!(Command::SetAttribute(Attribute::Bold).encode(), "\x1b[1m");
    assert_eq!(Command::SetAttribute(Attribute::NoReverse).encode(), "\x1b[27m");
    assert_eq!(Command::SetAttribute(Attribute::NotOverLined).encode(), "\x1b[55m");
}

#[test]
fn every_attribute_encodes_its_sgr_code() {
    let table = [
        (Attribute::Reset, 0),
        (Attribute::Bold, 1),
        (Attribute::Dim, 2),
        (Attribute::Italic, 3),
        (Attribute::Underlined, 4),
        (Attribute::SlowBlink, 5),
        (Attribute::RapidBlink, 6),
        (Attribute::Reverse, 7),
        (Attribute::Hidden, 8),
        (Attribute::CrossedOut, 9),
        (Attribute::Fraktur, 20),
        (Attribute::NoBold, 21),
        (Attribute::NormalIntensity, 22),
        (Attribute::NoItalic, 23),
        (Attribute::NoUnderline, 24),
        (Attribute::NoBlink, 25),
        (Attribute::NoReverse, 27),
        (Attribute::NoHidden, 28),
        (Attribute::NotCrossedOut, 29),
        (Attribute::Framed, 51),
        (Attribute::Encircled, 52),
        (Attribute::OverLined, 53),
        (Attribute::NotFramedOrEncircled, 54),
        (Attribute::NotOverLined, 55),
    ];
    for (a, code) in table.iter() {
        assert_eq!(Command::SetAttribute(*a).encode(), format!("\x1b[{}m", code));
    }
}
