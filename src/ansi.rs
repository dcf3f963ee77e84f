use vstd::prelude::*;

use crossterm::Command as _;

use crate::style::{ansi_color, Attribute, Color};

verus! {

/// The control sequence introducer `ESC [` followed by `body`.
pub open spec fn csi(body: Seq<char>) -> Seq<char> {
    seq!['\x1b', '['] + body
}

/// The decimal digit for `d < 10`.
pub open spec fn digit(d: nat) -> char {
    if d == 0 { '0' }
    else if d == 1 { '1' }
    else if d == 2 { '2' }
    else if d == 3 { '3' }
    else if d == 4 { '4' }
    else if d == 5 { '5' }
    else if d == 6 { '6' }
    else if d == 7 { '7' }
    else if d == 8 { '8' }
    else { '9' }
}

/// `n` written in decimal, without leading zeros.
pub open spec fn decimal(n: nat) -> Seq<char>
    decreases n,
{
    if n < 10 {
        seq![digit(n)]
    } else {
        decimal(n / 10).push(digit(n % 10))
    }
}

/// `CSI n <letter>`: the shape of every sequence that carries one count.
pub open spec fn counted(n: u16, letter: char) -> Seq<char> {
    csi(decimal(n as nat).push(letter))
}

/// The regions that a clear command can erase.
#[derive(Clone, Copy, Debug, PartialEq, Eq, Structural)]
pub enum ClearType {
    All,
    FromCursorDown,
    FromCursorUp,
    CurrentLine,
    UntilNewLine,
}

/// A colour as the select-graphic-rendition sequence carries it: the default
/// colour, an index into the 256-colour palette, or an RGB triple.
#[derive(Clone, Copy, Debug, PartialEq, Eq, Structural)]
pub enum AnsiColor {
    Default,
    Palette(u8),
    Rgb(u8, u8, u8),
}

/// The parameters after the plane selector (`38` or `48`) for a colour that is
/// not the default one.
pub open spec fn color_parameters(c: AnsiColor) -> Seq<char> {
    match c {
        AnsiColor::Default => seq![],
        AnsiColor::Palette(n) => seq!['5', ';'] + decimal(n as nat),
        AnsiColor::Rgb(r, g, b) => seq!['2', ';'] + decimal(r as nat) + seq![';'] + decimal(
            g as nat,
        ) + seq![';'] + decimal(b as nat),
    }
}

/// The sequence that selects colour `c` as foreground (`plane` `'3'`) or
/// background (`plane` `'4'`).
pub open spec fn color_sequence(plane: char, c: AnsiColor) -> Seq<char> {
    match c {
        AnsiColor::Default => csi(seq![plane, '9', 'm']),
        _ => csi(seq![plane, '8', ';'] + color_parameters(c) + seq!['m']),
    }
}

/// Select Graphic Rendition code of each attribute.
pub open spec fn sgr(a: Attribute) -> nat {
    match a {
        Attribute::Reset => 0,
        Attribute::Bold => 1,
        Attribute::Dim => 2,
        Attribute::Italic => 3,
        Attribute::Underlined => 4,
        Attribute::SlowBlink => 5,
        Attribute::RapidBlink => 6,
        Attribute::Reverse => 7,
        Attribute::Hidden => 8,
        Attribute::CrossedOut => 9,
        Attribute::Fraktur => 20,
        Attribute::NoBold => 21,
        Attribute::NormalIntensity => 22,
        Attribute::NoItalic => 23,
        Attribute::NoUnderline => 24,
        Attribute::NoBlink => 25,
        Attribute::NoReverse => 27,
        Attribute::NoHidden => 28,
        Attribute::NotCrossedOut => 29,
        Attribute::Framed => 51,
        Attribute::Encircled => 52,
        Attribute::OverLined => 53,
        Attribute::NotFramedOrEncircled => 54,
        Attribute::NotOverLined => 55,
    }
}

/// The sequence that erases region `t`.
pub open spec fn clear_sequence(t: ClearType) -> Seq<char> {
    match t {
        ClearType::All => csi(seq!['2', 'J']),
        ClearType::FromCursorDown => csi(seq!['J']),
        ClearType::FromCursorUp => csi(seq!['1', 'J']),
        ClearType::CurrentLine => csi(seq!['2', 'K']),
        ClearType::UntilNewLine => csi(seq!['K']),
    }
}

/// `CSI ?mode <end>` for one private mode.
pub open spec fn private_mode(mode: Seq<char>, end: char) -> Seq<char> {
    csi(seq!['?'] + mode).push(end)
}

/// The four mouse reporting modes, set (`'h'`) in ascending order or reset
/// (`'l'`) in descending order.
pub open spec fn mouse_modes_sequence(end: char) -> Seq<char> {
    let m1000 = private_mode(seq!['1', '0', '0', '0'], end);
    let m1002 = private_mode(seq!['1', '0', '0', '2'], end);
    let m1015 = private_mode(seq!['1', '0', '1', '5'], end);
    let m1006 = private_mode(seq!['1', '0', '0', '6'], end);
    if end == 'h' {
        m1000 + m1002 + m1015 + m1006
    } else {
        m1006 + m1015 + m1002 + m1000
    }
}

/// Relies on crossterm's `cursor::MoveTo` ANSI code: `CSI y+1 ; x+1 H`
/// (the coordinates are 0-based, the sequence's 1-based; `+ 1` overflows at
/// `u16::MAX`).
#[verifier::external_body]
fn move_to_code(x: u16, y: u16) -> (r: String)
    requires
        x < u16::MAX,
        y < u16::MAX,
    ensures
        r@ == csi(decimal(y as nat + 1) + seq![';'] + decimal(x as nat + 1) + seq!['H']),
{
    format!("{}", crossterm::cursor::MoveTo(x, y).ansi_code())
}

/// Relies on crossterm's `cursor::MoveUp` ANSI code: `CSI n A`.
#[verifier::external_body]
fn move_up_code(n: u16) -> (r: String)
    ensures
        r@ == counted(n, 'A'),
{
    format!("{}", crossterm::cursor::MoveUp(n).ansi_code())
}

/// Relies on crossterm's `cursor::MoveDown` ANSI code: `CSI n B`.
#[verifier::external_body]
fn move_down_code(n: u16) -> (r: String)
    ensures
        r@ == counted(n, 'B'),
{
    format!("{}", crossterm::cursor::MoveDown(n).ansi_code())
}

/// Relies on crossterm's `cursor::MoveRight` ANSI code: `CSI n C`.
#[verifier::external_body]
fn move_right_code(n: u16) -> (r: String)
    ensures
        r@ == counted(n, 'C'),
{
    format!("{}", crossterm::cursor::MoveRight(n).ansi_code())
}

/// Relies on crossterm's `cursor::MoveLeft` ANSI code: `CSI n D`.
#[verifier::external_body]
fn move_left_code(n: u16) -> (r: String)
    ensures
        r@ == counted(n, 'D'),
{
    format!("{}", crossterm::cursor::MoveLeft(n).ansi_code())
}

/// Relies on crossterm's `cursor::MoveToNextLine` ANSI code: `CSI n E`.
#[verifier::external_body]
fn move_to_next_line_code(n: u16) -> (r: String)
    ensures
        r@ == counted(n, 'E'),
{
    format!("{}", crossterm::cursor::MoveToNextLine(n).ansi_code())
}

/// Relies on crossterm's `cursor::MoveToPreviousLine` ANSI code: `CSI n F`.
#[verifier::external_body]
fn move_to_previous_line_code(n: u16) -> (r: String)
    ensures
        r@ == counted(n, 'F'),
{
    format!("{}", crossterm::cursor::MoveToPreviousLine(n).ansi_code())
}

/// Relies on crossterm's `cursor::MoveToColumn` ANSI code: `CSI n G`, with
/// `n` passed through unchanged.
#[verifier::external_body]
fn move_to_column_code(n: u16) -> (r: String)
    ensures
        r@ == counted(n, 'G'),
{
    format!("{}", crossterm::cursor::MoveToColumn(n).ansi_code())
}

/// Relies on crossterm's `cursor::SavePosition` ANSI code: `ESC 7`.
#[verifier::external_body]
fn save_position_code() -> (r: String)
    ensures
        r@ == seq!['\x1b', '7'],
{
    format!("{}", crossterm::cursor::SavePosition.ansi_code())
}

/// Relies on crossterm's `cursor::RestorePosition` ANSI code: `ESC 8`.
#[verifier::external_body]
fn restore_position_code() -> (r: String)
    ensures
        r@ == seq!['\x1b', '8'],
{
    format!("{}", crossterm::cursor::RestorePosition.ansi_code())
}

/// Relies on crossterm's `cursor::Hide` ANSI code: `CSI ?25l`.
#[verifier::external_body]
fn hide_code() -> (r: String)
    ensures
        r@ == csi(seq!['?', '2', '5', 'l']),
{
    format!("{}", crossterm::cursor::Hide.ansi_code())
}

/// Relies on crossterm's `cursor::Show` ANSI code: `CSI ?25h`.
#[verifier::external_body]
fn show_code() -> (r: String)
    ensures
        r@ == csi(seq!['?', '2', '5', 'h']),
{
    format!("{}", crossterm::cursor::Show.ansi_code())
}

/// Relies on crossterm's `cursor::EnableBlinking` ANSI code: `CSI ?12h`.
#[verifier::external_body]
fn enable_blinking_code() -> (r: String)
    ensures
        r@ == csi(seq!['?', '1', '2', 'h']),
{
    format!("{}", crossterm::cursor::EnableBlinking.ansi_code())
}

/// Relies on crossterm's `cursor::DisableBlinking` ANSI code: `CSI ?12l`.
#[verifier::external_body]
fn disable_blinking_code() -> (r: String)
    ensures
        r@ == csi(seq!['?', '1', '2', 'l']),
{
    format!("{}", crossterm::cursor::DisableBlinking.ansi_code())
}

/// Relies on crossterm's `terminal::Clear` ANSI code: `CSI 2J`, `CSI J`,
/// `CSI 1J`, `CSI 2K` and `CSI K` for the five regions.
#[verifier::external_body]
fn clear_code(t: ClearType) -> (r: String)
    ensures
        r@ == clear_sequence(t),
{
    let t = match t {
        ClearType::All => crossterm::terminal::ClearType::All,
        ClearType::FromCursorDown => crossterm::terminal::ClearType::FromCursorDown,
        ClearType::FromCursorUp => crossterm::terminal::ClearType::FromCursorUp,
        ClearType::CurrentLine => crossterm::terminal::ClearType::CurrentLine,
        ClearType::UntilNewLine => crossterm::terminal::ClearType::UntilNewLine,
    };
    format!("{}", crossterm::terminal::Clear(t).ansi_code())
}

/// Relies on crossterm's `terminal::ScrollUp` ANSI code: `CSI n S`.
#[verifier::external_body]
fn scroll_up_code(n: u16) -> (r: String)
    ensures
        r@ == counted(n, 'S'),
{
    crossterm::terminal::ScrollUp(n).ansi_code()
}

/// Relies on crossterm's `terminal::ScrollDown` ANSI code: `CSI n T`.
#[verifier::external_body]
fn scroll_down_code(n: u16) -> (r: String)
    ensures
        r@ == counted(n, 'T'),
{
    crossterm::terminal::ScrollDown(n).ansi_code()
}

/// Relies on crossterm's `terminal::SetSize` ANSI code: `CSI 8 ; rows ; columns t`.
#[verifier::external_body]
fn set_size_code(columns: u16, rows: u16) -> (r: String)
    ensures
        r@ == csi(seq!['8', ';'] + decimal(rows as nat) + seq![';'] + decimal(columns as nat)
            + seq!['t']),
{
    crossterm::terminal::SetSize(columns, rows).ansi_code()
}

/// Relies on crossterm's `terminal::EnterAlternateScreen` ANSI code: `CSI ?1049h`.
#[verifier::external_body]
fn enter_alternate_screen_code() -> (r: String)
    ensures
        r@ == csi(seq!['?', '1', '0', '4', '9', 'h']),
{
    format!("{}", crossterm::terminal::EnterAlternateScreen.ansi_code())
}

/// Relies on crossterm's `terminal::LeaveAlternateScreen` ANSI code: `CSI ?1049l`.
#[verifier::external_body]
fn leave_alternate_screen_code() -> (r: String)
    ensures
        r@ == csi(seq!['?', '1', '0', '4', '9', 'l']),
{
    format!("{}", crossterm::terminal::LeaveAlternateScreen.ansi_code())
}

/// Relies on crossterm's `event::EnableMouseCapture` ANSI code, which turns on
/// the mouse reporting modes 1000, 1002, 1015 and 1006 in that order.
#[verifier::external_body]
fn enable_mouse_capture_code() -> (r: String)
    ensures
        r@ == mouse_modes_sequence('h'),
{
    format!("{}", crossterm::event::EnableMouseCapture.ansi_code())
}

/// Relies on crossterm's `event::DisableMouseCapture` ANSI code, which turns off
/// the mouse reporting modes 1006, 1015, 1002 and 1000 in that order.
#[verifier::external_body]
fn disable_mouse_capture_code() -> (r: String)
    ensures
        r@ == mouse_modes_sequence('l'),
{
    format!("{}", crossterm::event::DisableMouseCapture.ansi_code())
}

/// Relies on crossterm's `style::ResetColor` ANSI code: `CSI 0m`.
#[verifier::external_body]
fn reset_color_code() -> (r: String)
    ensures
        r@ == csi(seq!['0', 'm']),
{
    format!("{}", crossterm::style::ResetColor.ansi_code())
}

/// Relies on crossterm's `style::SetForegroundColor` ANSI code: `CSI 39m` for
/// the default colour, `CSI 38;5;n m` for palette index `n`, and
/// `CSI 38;2;r;g;b m` for an RGB triple.
#[verifier::external_body]
fn foreground_code(c: AnsiColor) -> (r: String)
    ensures
        r@ == color_sequence('3', c),
{
    let c = match c {
        AnsiColor::Default => crossterm::style::Color::Reset,
        AnsiColor::Palette(n) => crossterm::style::Color::AnsiValue(n),
        AnsiColor::Rgb(r, g, b) => crossterm::style::Color::Rgb { r, g, b },
    };
    format!("{}", crossterm::style::SetForegroundColor(c).ansi_code())
}

/// Relies on crossterm's `style::SetBackgroundColor` ANSI code: `CSI 49m` for
/// the default colour, `CSI 48;5;n m` for palette index `n`, and
/// `CSI 48;2;r;g;b m` for an RGB triple.
#[verifier::external_body]
fn background_code(c: AnsiColor) -> (r: String)
    ensures
        r@ == color_sequence('4', c),
{
    let c = match c {
        AnsiColor::Default => crossterm::style::Color::Reset,
        AnsiColor::Palette(n) => crossterm::style::Color::AnsiValue(n),
        AnsiColor::Rgb(r, g, b) => crossterm::style::Color::Rgb { r, g, b },
    };
    format!("{}", crossterm::style::SetBackgroundColor(c).ansi_code())
}

/// Relies on crossterm's `style::SetAttribute` ANSI code, `CSI code m` with the
/// attribute's SGR code, and on `style::Attribute::iterator`, which lists the
/// attributes in the order that `Attribute` declares them.
#[verifier::external_body]
fn attribute_code(a: Attribute) -> (r: String)
    ensures
        r@ == csi(decimal(sgr(a)).push('m')),
{
    let a = crossterm::style::Attribute::iterator().nth(a as usize).unwrap();
    format!("{}", crossterm::style::SetAttribute(a).ansi_code())
}

/// One primitive terminal action.
#[derive(Clone, Copy, Debug, PartialEq, Eq, Structural)]
pub enum Command {
    MoveTo(u16, u16),
    MoveUp(u16),
    MoveDown(u16),
    MoveLeft(u16),
    MoveRight(u16),
    MoveToColumn(u16),
    MoveToNextLine(u16),
    MoveToPreviousLine(u16),
    SavePosition,
    RestorePosition,
    Hide,
    Show,
    EnableBlinking,
    DisableBlinking,
    Clear(ClearType),
    ScrollUp(u16),
    ScrollDown(u16),
    SetSize(u16, u16),
    EnterAlternateScreen,
    LeaveAlternateScreen,
    EnableMouseCapture,
    DisableMouseCapture,
    SetForegroundColor(Color),
    SetBackgroundColor(Color),
    ResetColor,
    SetAttribute(Attribute),
}

impl Command {
    /// Whether the command can be encoded: absolute coordinates are sent
    /// 1-based, so they stay below `u16::MAX`.
    pub open spec fn encodable(self) -> bool {
        match self {
            Command::MoveTo(x, y) => x < u16::MAX && y < u16::MAX,
            _ => true,
        }
    }

    /// The escape sequence that performs the command.
    pub open spec fn encoding(self) -> Seq<char> {
        match self {
            Command::MoveTo(x, y) => csi(
                decimal(y as nat + 1) + seq![';'] + decimal(x as nat + 1) + seq!['H'],
            ),
            Command::MoveUp(n) => counted(n, 'A'),
            Command::MoveDown(n) => counted(n, 'B'),
            Command::MoveRight(n) => counted(n, 'C'),
            Command::MoveLeft(n) => counted(n, 'D'),
            Command::MoveToNextLine(n) => counted(n, 'E'),
            Command::MoveToPreviousLine(n) => counted(n, 'F'),
            Command::MoveToColumn(n) => counted(n, 'G'),
            Command::SavePosition => seq!['\x1b', '7'],
            Command::RestorePosition => seq!['\x1b', '8'],
            Command::Hide => csi(seq!['?', '2', '5', 'l']),
            Command::Show => csi(seq!['?', '2', '5', 'h']),
            Command::EnableBlinking => csi(seq!['?', '1', '2', 'h']),
            Command::DisableBlinking => csi(seq!['?', '1', '2', 'l']),
            Command::Clear(t) => clear_sequence(t),
            Command::ScrollUp(n) => counted(n, 'S'),
            Command::ScrollDown(n) => counted(n, 'T'),
            Command::SetSize(columns, rows) => csi(
                seq!['8', ';'] + decimal(rows as nat) + seq![';'] + decimal(columns as nat)
                    + seq!['t'],
            ),
            Command::EnterAlternateScreen => csi(seq!['?', '1', '0', '4', '9', 'h']),
            Command::LeaveAlternateScreen => csi(seq!['?', '1', '0', '4', '9', 'l']),
            Command::EnableMouseCapture => mouse_modes_sequence('h'),
            Command::DisableMouseCapture => mouse_modes_sequence('l'),
            Command::SetForegroundColor(c) => color_sequence('3', ansi_color(c)),
            Command::SetBackgroundColor(c) => color_sequence('4', ansi_color(c)),
            Command::ResetColor => csi(seq!['0', 'm']),
            Command::SetAttribute(a) => csi(decimal(sgr(a)).push('m')),
        }
    }

    /// The escape sequence that performs the command.
    pub fn encode(&self) -> (r: String)
        requires
            self.encodable(),
        ensures
            r@ == self.encoding(),
    {
        match *self {
            Command::MoveTo(x, y) => move_to_code(x, y),
            Command::MoveUp(n) => move_up_code(n),
            Command::MoveDown(n) => move_down_code(n),
            Command::MoveRight(n) => move_right_code(n),
            Command::MoveLeft(n) => move_left_code(n),
            Command::MoveToNextLine(n) => move_to_next_line_code(n),
            Command::MoveToPreviousLine(n) => move_to_previous_line_code(n),
            Command::MoveToColumn(n) => move_to_column_code(n),
            Command::SavePosition => save_position_code(),
            Command::RestorePosition => restore_position_code(),
            Command::Hide => hide_code(),
            Command::Show => show_code(),
            Command::EnableBlinking => enable_blinking_code(),
            Command::DisableBlinking => disable_blinking_code(),
            Command::Clear(t) => clear_code(t),
            Command::ScrollUp(n) => scroll_up_code(n),
            Command::ScrollDown(n) => scroll_down_code(n),
            Command::SetSize(columns, rows) => set_size_code(columns, rows),
            Command::EnterAlternateScreen => enter_alternate_screen_code(),
            Command::LeaveAlternateScreen => leave_alternate_screen_code(),
            Command::EnableMouseCapture => enable_mouse_capture_code(),
            Command::DisableMouseCapture => disable_mouse_capture_code(),
            Command::SetForegroundColor(c) => foreground_code(c.to_ansi()),
            Command::SetBackgroundColor(c) => background_code(c.to_ansi()),
            Command::ResetColor => reset_color_code(),
            Command::SetAttribute(a) => attribute_code(a),
        }
    }
}

} // verus!
