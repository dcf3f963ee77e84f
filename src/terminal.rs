use vstd::prelude::*;
use vstd::string::*;

use crate::ansi::{ClearType, Command};
use crate::event::TerminalEvent;
use crate::style::{
    attribute_from_string, attribute_named, attributes_encoding, holds_attribute, rendering,
    Attribute, Color, StyledContent,
};

verus! {

/// The terminal's three independent mode axes.
#[derive(Clone, Copy, Debug, PartialEq, Eq, Structural)]
pub struct Modes {
    pub raw: bool,
    pub alternate_screen: bool,
    pub mouse_capture: bool,
}

impl Modes {
    /// Cooked input, the normal screen, no mouse capture.
    pub open spec fn initial() -> Modes {
        Modes { raw: false, alternate_screen: false, mouse_capture: false }
    }

    /// The modes after raw mode is switched on (`enable`) or off. Switching to
    /// the mode that already holds changes nothing.
    pub open spec fn with_raw(self, enable: bool) -> Modes {
        Modes { raw: enable, ..self }
    }
}

/// What the library knows of the terminal: its size, the cursor position when
/// it is known, the position saved by the last save command, colours and
/// attributes in effect, modes, cursor visibility, and the output that is
/// queued and not yet flushed.
pub struct TerminalState {
    pub columns: u16,
    pub rows: u16,
    pub cursor: Option<(u16, u16)>,
    pub saved: Option<(u16, u16)>,
    pub foreground: Color,
    pub background: Color,
    pub attributes: Seq<Attribute>,
    pub modes: Modes,
    pub cursor_visible: bool,
    pub output: Seq<char>,
}

/// `n` brought into `0 .. size` (into `0 ..= 0` for an empty axis): the
/// terminal stops the cursor at the edges.
pub open spec fn limit(n: int, size: u16) -> u16 {
    if n <= 0 || size == 0 {
        0
    } else if n >= size {
        (size - 1) as u16
    } else {
        n as u16
    }
}

/// A count of zero in a cursor movement counts as one.
pub open spec fn steps(n: u16) -> int {
    if n == 0 {
        1
    } else {
        n as int
    }
}

/// The cursor position after `c`, from `p`, on a `columns` by `rows` screen.
pub open spec fn moved(p: (u16, u16), c: Command, columns: u16, rows: u16) -> (u16, u16) {
    let (x, y) = p;
    match c {
        Command::MoveUp(n) => (x, limit(y - steps(n), rows)),
        Command::MoveDown(n) => (x, limit(y + steps(n), rows)),
        Command::MoveLeft(n) => (limit(x - steps(n), columns), y),
        Command::MoveRight(n) => (limit(x + steps(n), columns), y),
        Command::MoveToColumn(n) => (limit(steps(n) - 1, columns), y),
        Command::MoveToNextLine(n) => (0, limit(y + steps(n), rows)),
        Command::MoveToPreviousLine(n) => (0, limit(y - steps(n), rows)),
        _ => p,
    }
}

/// The attributes in effect after `a` is applied to `set`: `Reset` clears
/// them all, an attribute already in effect changes nothing, another one is
/// added last.
pub open spec fn applied(set: Seq<Attribute>, a: Attribute) -> Seq<Attribute> {
    if a == Attribute::Reset {
        seq![]
    } else if set.contains(a) {
        set
    } else {
        set.push(a)
    }
}

/// The attributes in effect after each of `attrs` is applied to `set` in turn.
pub open spec fn applied_all(set: Seq<Attribute>, attrs: Seq<Attribute>) -> Seq<Attribute>
    decreases attrs.len(),
{
    if attrs.len() == 0 {
        set
    } else {
        applied(applied_all(set, attrs.drop_last()), attrs.last())
    }
}

impl TerminalState {
    /// The state after `c` is queued. Entering a mode that holds already, or
    /// leaving one that does not, changes nothing and emits nothing.
    pub open spec fn after(self, c: Command) -> TerminalState {
        let s = TerminalState { output: self.output + c.encoding(), ..self };
        match c {
            Command::MoveTo(x, y) => TerminalState {
                cursor: Some((limit(x as int, self.columns), limit(y as int, self.rows))),
                ..s
            },
            Command::MoveUp(_) | Command::MoveDown(_) | Command::MoveLeft(_) | Command::MoveRight(_)
            | Command::MoveToColumn(_) | Command::MoveToNextLine(_) | Command::MoveToPreviousLine(
                _,
            ) => TerminalState {
                cursor: match self.cursor {
                    Some(p) => Some(moved(p, c, self.columns, self.rows)),
                    None => None,
                },
                ..s
            },
            Command::SavePosition => TerminalState { saved: self.cursor, ..s },
            Command::RestorePosition => TerminalState { cursor: self.saved, ..s },
            Command::Hide => TerminalState { cursor_visible: false, ..s },
            Command::Show => TerminalState { cursor_visible: true, ..s },
            Command::SetSize(_, _) => TerminalState { cursor: None, ..s },
            Command::EnterAlternateScreen => if self.modes.alternate_screen {
                self
            } else {
                TerminalState {
                    cursor: None,
                    modes: Modes { alternate_screen: true, ..self.modes },
                    ..s
                }
            },
            Command::LeaveAlternateScreen => if !self.modes.alternate_screen {
                self
            } else {
                TerminalState {
                    cursor: None,
                    modes: Modes { alternate_screen: false, ..self.modes },
                    ..s
                }
            },
            Command::EnableMouseCapture => if self.modes.mouse_capture {
                self
            } else {
                TerminalState { modes: Modes { mouse_capture: true, ..self.modes }, ..s }
            },
            Command::DisableMouseCapture => if !self.modes.mouse_capture {
                self
            } else {
                TerminalState { modes: Modes { mouse_capture: false, ..self.modes }, ..s }
            },
            Command::SetForegroundColor(color) => TerminalState { foreground: color, ..s },
            Command::SetBackgroundColor(color) => TerminalState { background: color, ..s },
            Command::ResetColor => TerminalState {
                foreground: Color::Reset,
                background: Color::Reset,
                ..s
            },
            Command::SetAttribute(a) => TerminalState { attributes: applied(self.attributes, a), ..s },
            _ => s,
        }
    }
}

/// A handle on one terminal: it encodes commands into a queue of output that the
/// caller flushes, and tracks what the commands do to the terminal's state.
pub struct Terminal {
    columns: u16,
    rows: u16,
    cursor: Option<(u16, u16)>,
    saved: Option<(u16, u16)>,
    foreground: Color,
    background: Color,
    attributes: Vec<Attribute>,
    modes: Modes,
    cursor_visible: bool,
    output: String,
}

impl View for Terminal {
    type V = TerminalState;

    closed spec fn view(&self) -> TerminalState {
        TerminalState {
            columns: self.columns,
            rows: self.rows,
            cursor: self.cursor,
            saved: self.saved,
            foreground: self.foreground,
            background: self.background,
            attributes: self.attributes@,
            modes: self.modes,
            cursor_visible: self.cursor_visible,
            output: self.output@,
        }
    }
}

/// `n` brought into `0 .. size` (into `0 ..= 0` for an empty axis).
fn limit_to(n: u16, size: u16) -> (r: u16)
    ensures
        r == limit(n as int, size),
{
    if size == 0 {
        0
    } else if n >= size {
        size - 1
    } else {
        n
    }
}

/// `n` less `d` steps (a zero count counts as one), brought into `0 .. size`.
fn back(n: u16, d: u16, size: u16) -> (r: u16)
    ensures
        r == limit(n - steps(d), size),
{
    let d = if d == 0 { 1 } else { d };
    if n <= d {
        0
    } else {
        limit_to(n - d, size)
    }
}

/// `n` plus `d` steps (a zero count counts as one), brought into `0 .. size`.
fn forward(n: u16, d: u16, size: u16) -> (r: u16)
    ensures
        r == limit(n + steps(d), size),
{
    let d = if d == 0 { 1 } else { d };
    if size == 0 {
        0
    } else if n >= size - 1 || d >= size - 1 - n {
        size - 1
    } else {
        n + d
    }
}

impl Terminal {
    /// A terminal of the given size, in its initial modes, with the cursor
    /// position not yet known and nothing queued.
    pub fn new(columns: u16, rows: u16) -> (r: Self)
        ensures
            r@ == (TerminalState {
                columns,
                rows,
                cursor: None,
                saved: None,
                foreground: Color::Reset,
                background: Color::Reset,
                attributes: seq![],
                modes: Modes::initial(),
                cursor_visible: true,
                output: seq![],
            }),
    {
        Terminal {
            columns,
            rows,
            cursor: None,
            saved: None,
            foreground: Color::Reset,
            background: Color::Reset,
            attributes: Vec::new(),
            modes: Modes { raw: false, alternate_screen: false, mouse_capture: false },
            cursor_visible: true,
            output: String::new(),
        }
    }

    /// The cursor position, where it is known.
    pub fn position(&self) -> (r: Option<(u16, u16)>)
        ensures
            r == self@.cursor,
    {
        self.cursor
    }

    /// The size as `(columns, rows)`.
    pub fn size(&self) -> (r: (u16, u16))
        ensures
            r == (self@.columns, self@.rows),
    {
        (self.columns, self.rows)
    }

    /// The modes in effect.
    pub fn modes(&self) -> (r: Modes)
        ensures
            r == self@.modes,
    {
        self.modes
    }

    /// The attributes in effect, in the order in which they were applied.
    pub fn attributes(&self) -> (r: &Vec<Attribute>)
        ensures
            r@ == self@.attributes,
    {
        &self.attributes
    }

    /// Queues `c`: appends its escape sequence to the output and records its
    /// effect. Nothing is flushed.
    pub fn queue(&mut self, c: Command)
        requires
            c.encodable(),
        ensures
            final(self)@ == old(self)@.after(c),
    {
        match c {
            Command::EnterAlternateScreen => {
                if self.modes.alternate_screen {
                    return;
                }
                self.cursor = None;
                self.modes.alternate_screen = true;
            },
            Command::LeaveAlternateScreen => {
                if !self.modes.alternate_screen {
                    return;
                }
                self.cursor = None;
                self.modes.alternate_screen = false;
            },
            Command::EnableMouseCapture => {
                if self.modes.mouse_capture {
                    return;
                }
                self.modes.mouse_capture = true;
            },
            Command::DisableMouseCapture => {
                if !self.modes.mouse_capture {
                    return;
                }
                self.modes.mouse_capture = false;
            },
            Command::MoveTo(x, y) => {
                self.cursor = Some((limit_to(x, self.columns), limit_to(y, self.rows)));
            },
            Command::MoveUp(n) => {
                if let Some((x, y)) = self.cursor {
                    self.cursor = Some((x, back(y, n, self.rows)));
                }
            },
            Command::MoveDown(n) => {
                if let Some((x, y)) = self.cursor {
                    self.cursor = Some((x, forward(y, n, self.rows)));
                }
            },
            Command::MoveLeft(n) => {
                if let Some((x, y)) = self.cursor {
                    self.cursor = Some((back(x, n, self.columns), y));
                }
            },
            Command::MoveRight(n) => {
                if let Some((x, y)) = self.cursor {
                    self.cursor = Some((forward(x, n, self.columns), y));
                }
            },
            Command::MoveToColumn(n) => {
                if let Some((_, y)) = self.cursor {
                    let column = if n == 0 { 0 } else { n - 1 };
                    self.cursor = Some((limit_to(column, self.columns), y));
                }
            },
            Command::MoveToNextLine(n) => {
                if let Some((_, y)) = self.cursor {
                    self.cursor = Some((0, forward(y, n, self.rows)));
                }
            },
            Command::MoveToPreviousLine(n) => {
                if let Some((_, y)) = self.cursor {
                    self.cursor = Some((0, back(y, n, self.rows)));
                }
            },
            Command::SavePosition => {
                self.saved = self.cursor;
            },
            Command::RestorePosition => {
                self.cursor = self.saved;
            },
            Command::Hide => {
                self.cursor_visible = false;
            },
            Command::Show => {
                self.cursor_visible = true;
            },
            Command::SetSize(_, _) => {
                self.cursor = None;
            },
            Command::SetForegroundColor(color) => {
                self.foreground = color;
            },
            Command::SetBackgroundColor(color) => {
                self.background = color;
            },
            Command::ResetColor => {
                self.foreground = Color::Reset;
                self.background = Color::Reset;
            },
            Command::SetAttribute(a) => {
                if a == Attribute::Reset {
                    self.attributes = Vec::new();
                } else if !holds_attribute(&self.attributes, a) {
                    self.attributes.push(a);
                }
            },
            _ => {},
        }
        let code = c.encode();
        self.output.append(code.as_str());
    }
}

impl Terminal {
    /// Queues `text` as it stands. Where the cursor ends up depends on the
    /// text's width and wrapping, so its position is no longer known.
    pub fn print(&mut self, text: &str)
        ensures
            final(self)@ == (TerminalState {
                output: old(self)@.output + text@,
                cursor: None,
                ..old(self)@
            }),
    {
        self.output.append(text);
        self.cursor = None;
    }

    /// Applies the attribute that `name` denotes. A name that denotes no
    /// attribute is accepted and changes nothing.
    pub fn set_attribute(&mut self, name: &str)
        ensures
            final(self)@ == match attribute_named(name@) {
                Some(a) => old(self)@.after(Command::SetAttribute(a)),
                None => old(self)@,
            },
    {
        if let Some(a) = attribute_from_string(name) {
            self.queue(Command::SetAttribute(a));
        }
    }

    /// Hands over the queued output for the caller to write and flush, and
    /// empties the queue.
    pub fn take_output(&mut self) -> (r: String)
        ensures
            r@ == old(self)@.output,
            final(self)@ == (TerminalState { output: seq![], ..old(self)@ }),
    {
        let mut r = String::new();
        std::mem::swap(&mut r, &mut self.output);
        r
    }

    /// Records the cursor position that the terminal reported.
    pub fn cursor_reported(&mut self, column: u16, row: u16)
        ensures
            final(self)@ == (TerminalState { cursor: Some((column, row)), ..old(self)@ }),
    {
        self.cursor = Some((column, row));
    }

    /// Records a new size; a known cursor position is kept within it.
    pub fn resized(&mut self, columns: u16, rows: u16)
        ensures
            final(self)@ == (TerminalState {
                columns,
                rows,
                cursor: match old(self)@.cursor {
                    Some((x, y)) => Some((limit(x as int, columns), limit(y as int, rows))),
                    None => None,
                },
                ..old(self)@
            }),
    {
        self.columns = columns;
        self.rows = rows;
        if let Some((x, y)) = self.cursor {
            self.cursor = Some((limit_to(x, columns), limit_to(y, rows)));
        }
    }

    /// Records what a decoded event tells of the terminal: a resize gives the
    /// new size; other events change nothing.
    pub fn observe(&mut self, e: &TerminalEvent)
        ensures
            final(self)@ == match *e {
                TerminalEvent::Resize { columns, rows } => TerminalState {
                    columns,
                    rows,
                    cursor: match old(self)@.cursor {
                        Some((x, y)) => Some((limit(x as int, columns), limit(y as int, rows))),
                        None => None,
                    },
                    ..old(self)@
                },
                _ => old(self)@,
            },
    {
        if let TerminalEvent::Resize { columns, rows } = *e {
            self.resized(columns, rows);
        }
    }

    /// Whether switching raw mode to `enable` needs the terminal driver: it
    /// does not when that mode already holds.
    pub fn raw_mode_needs_change(&self, enable: bool) -> (r: bool)
        ensures
            r == (self@.modes.raw != enable),
    {
        self.modes.raw != enable
    }

    /// Records the outcome of asking the driver to switch raw mode to
    /// `enable`: on failure the state is left as it was.
    pub fn raw_mode_switched(&mut self, enable: bool, succeeded: bool)
        ensures
            final(self)@ == if succeeded {
                TerminalState { modes: old(self)@.modes.with_raw(enable), ..old(self)@ }
            } else {
                old(self)@
            },
    {
        if succeeded {
            self.modes.raw = enable;
        }
    }
}

impl StyledContent {
    /// Queues the styled text on `terminal` followed by a line break: its
    /// colours, its attributes in order, then the text. Nothing is reset
    /// afterwards, so the colours and attributes stay in effect.
    pub fn print(&self, terminal: &mut Terminal)
        ensures
            final(terminal)@ == (TerminalState {
                output: old(terminal)@.output + rendering(self@) + seq!['\n'],
                cursor: None,
                foreground: self@.foreground,
                background: self@.background,
                attributes: applied_all(old(terminal)@.attributes, self@.attributes),
                ..old(terminal)@
            }),
    {
        let ghost t0 = terminal@;
        let attributes = self.attributes();
        terminal.queue(Command::SetForegroundColor(self.foreground()));
        terminal.queue(Command::SetBackgroundColor(self.background()));
        let ghost head = t0.output + Command::SetForegroundColor(self@.foreground).encoding()
            + Command::SetBackgroundColor(self@.background).encoding();
        let mut i: usize = 0;
        while i < attributes.len()
            invariant
                i <= attributes@.len(),
                attributes@ == self@.attributes,
                terminal@ == (TerminalState {
                    output: head + attributes_encoding(attributes@.subrange(0, i as int)),
                    foreground: self@.foreground,
                    background: self@.background,
                    attributes: applied_all(t0.attributes, attributes@.subrange(0, i as int)),
                    ..t0
                }),
            decreases attributes.len() - i,
        {
            terminal.queue(Command::SetAttribute(attributes[i]));
            proof {
                let next = attributes@.subrange(0, i + 1);
                assert(next.drop_last() =~= attributes@.subrange(0, i as int));
                assert(next.last() == attributes@[i as int]);
                assert(terminal@.output =~= head + attributes_encoding(next));
                assert(terminal@.attributes == applied_all(t0.attributes, next));
            }
            i += 1;
        }
        proof {
            assert(attributes@.subrange(0, i as int) =~= attributes@);
        }
        let text = self.content();
        terminal.print(text.as_str());
        terminal.print("\n");
        proof {
            reveal_strlit("\n");
            assert(terminal@.output =~= t0.output + rendering(self@) + seq!['\n']);
        }
    }
}

/// Clearing any region leaves the cursor where it was.
pub proof fn clear_keeps_cursor(s: TerminalState, t: ClearType)
    ensures
        s.after(Command::Clear(t)).cursor == s.cursor,
{
}

/// Moving the cursor to a position within the screen puts it exactly there.
pub proof fn move_to_then_position(s: TerminalState, x: u16, y: u16)
    requires
        x < s.columns,
        y < s.rows,
    ensures
        s.after(Command::MoveTo(x, y)).cursor == Some((x, y)),
{
}

/// Switching raw mode on and then off restores the prior modes when raw mode
/// was off; switching to the same mode twice is switching once.
pub proof fn raw_mode_round_trip(m: Modes, enable: bool)
    ensures
        !m.raw ==> m.with_raw(true).with_raw(false) == m,
        m.with_raw(enable).with_raw(enable) == m.with_raw(enable),
{
}

/// Once a mode holds, asking for it again changes nothing: entering the
/// alternate screen or enabling mouse capture twice is doing so once, and so is
/// leaving or disabling twice.
pub proof fn mode_commands_idempotent(s: TerminalState)
    ensures
        s.after(Command::EnterAlternateScreen).after(Command::EnterAlternateScreen) == s.after(
            Command::EnterAlternateScreen,
        ),
        s.after(Command::LeaveAlternateScreen).after(Command::LeaveAlternateScreen) == s.after(
            Command::LeaveAlternateScreen,
        ),
        s.after(Command::EnableMouseCapture).after(Command::EnableMouseCapture) == s.after(
            Command::EnableMouseCapture,
        ),
        s.after(Command::DisableMouseCapture).after(Command::DisableMouseCapture) == s.after(
            Command::DisableMouseCapture,
        ),
{
}

} // verus!
