use vstd::prelude::*;
use vstd::string::*;

use crate::ansi::{csi, decimal, AnsiColor, Command};
use crate::text::same_text;

verus! {

/// A text rendering modifier, in the order in which the terminal library
/// enumerates them.
#[derive(Clone, Copy, Debug, PartialEq, Eq, Structural)]
pub enum Attribute {
    Reset,
    Bold,
    Dim,
    Italic,
    Underlined,
    SlowBlink,
    RapidBlink,
    Reverse,
    Hidden,
    CrossedOut,
    Fraktur,
    NoBold,
    NormalIntensity,
    NoItalic,
    NoUnderline,
    NoBlink,
    NoReverse,
    NoHidden,
    NotCrossedOut,
    Framed,
    Encircled,
    OverLined,
    NotFramedOrEncircled,
    NotOverLined,
}

/// The attribute that a name denotes, if the name is one of the known ones.
pub open spec fn attribute_named(s: Seq<char>) -> Option<Attribute> {
    if s == "Reset"@ { Some(Attribute::Reset) }
    else if s == "Bold"@ { Some(Attribute::Bold) }
    else if s == "Dim"@ { Some(Attribute::Dim) }
    else if s == "Italic"@ { Some(Attribute::Italic) }
    else if s == "Underlined"@ { Some(Attribute::Underlined) }
    else if s == "SlowBlink"@ { Some(Attribute::SlowBlink) }
    else if s == "RapidBlink"@ { Some(Attribute::RapidBlink) }
    else if s == "Reverse"@ { Some(Attribute::Reverse) }
    else if s == "Hidden"@ { Some(Attribute::Hidden) }
    else if s == "CrossedOut"@ { Some(Attribute::CrossedOut) }
    else if s == "Fraktur"@ { Some(Attribute::Fraktur) }
    else if s == "NoBold"@ { Some(Attribute::NoBold) }
    else if s == "NormalIntensity"@ { Some(Attribute::NormalIntensity) }
    else if s == "NoItalic"@ { Some(Attribute::NoItalic) }
    else if s == "NoUnderline"@ { Some(Attribute::NoUnderline) }
    else if s == "NoBlink"@ { Some(Attribute::NoBlink) }
    else if s == "NoReverse"@ { Some(Attribute::NoReverse) }
    else if s == "NoHidden"@ { Some(Attribute::NoHidden) }
    else if s == "NotCrossedOut"@ { Some(Attribute::NotCrossedOut) }
    else if s == "Framed"@ { Some(Attribute::Framed) }
    else if s == "Encircled"@ { Some(Attribute::Encircled) }
    else if s == "OverLined"@ { Some(Attribute::OverLined) }
    else if s == "NotFramedOrEncircled"@ { Some(Attribute::NotFramedOrEncircled) }
    else if s == "NotOverLined"@ { Some(Attribute::NotOverLined) }
    else { None }
}

/// Reads an attribute name; `None` for a name that denotes no attribute.
pub fn attribute_from_string(s: &str) -> (r: Option<Attribute>)
    ensures
        r == attribute_named(s@),
{
    if same_text(s, "Reset") { Some(Attribute::Reset) }
    else if same_text(s, "Bold") { Some(Attribute::Bold) }
    else if same_text(s, "Dim") { Some(Attribute::Dim) }
    else if same_text(s, "Italic") { Some(Attribute::Italic) }
    else if same_text(s, "Underlined") { Some(Attribute::Underlined) }
    else if same_text(s, "SlowBlink") { Some(Attribute::SlowBlink) }
    else if same_text(s, "RapidBlink") { Some(Attribute::RapidBlink) }
    else if same_text(s, "Reverse") { Some(Attribute::Reverse) }
    else if same_text(s, "Hidden") { Some(Attribute::Hidden) }
    else if same_text(s, "CrossedOut") { Some(Attribute::CrossedOut) }
    else if same_text(s, "Fraktur") { Some(Attribute::Fraktur) }
    else if same_text(s, "NoBold") { Some(Attribute::NoBold) }
    else if same_text(s, "NormalIntensity") { Some(Attribute::NormalIntensity) }
    else if same_text(s, "NoItalic") { Some(Attribute::NoItalic) }
    else if same_text(s, "NoUnderline") { Some(Attribute::NoUnderline) }
    else if same_text(s, "NoBlink") { Some(Attribute::NoBlink) }
    else if same_text(s, "NoReverse") { Some(Attribute::NoReverse) }
    else if same_text(s, "NoHidden") { Some(Attribute::NoHidden) }
    else if same_text(s, "NotCrossedOut") { Some(Attribute::NotCrossedOut) }
    else if same_text(s, "Framed") { Some(Attribute::Framed) }
    else if same_text(s, "Encircled") { Some(Attribute::Encircled) }
    else if same_text(s, "OverLined") { Some(Attribute::OverLined) }
    else if same_text(s, "NotFramedOrEncircled") { Some(Attribute::NotFramedOrEncircled) }
    else if same_text(s, "NotOverLined") { Some(Attribute::NotOverLined) }
    else { None }
}


/// A terminal colour: the default colour, one of the sixteen named palette
/// colours, or a 24-bit RGB triple. Exactly one form is held at a time.
#[derive(Clone, Copy, Debug, PartialEq, Eq, Structural)]
pub enum Color {
    Reset,
    Black,
    DarkGrey,
    Red,
    DarkRed,
    Green,
    DarkGreen,
    Yellow,
    DarkYellow,
    Blue,
    DarkBlue,
    Magenta,
    DarkMagenta,
    Cyan,
    DarkCyan,
    White,
    Grey,
    Rgb { r: u8, g: u8, b: u8 },
}

/// A colour name that denotes no colour.
#[derive(Clone, Copy, Debug, PartialEq, Eq, Structural)]
pub struct ParseError;

/// The colour that a name denotes, if the name is one of the known ones.
pub open spec fn color_named(s: Seq<char>) -> Option<Color> {
    if s == "Reset"@ { Some(Color::Reset) }
    else if s == "Black"@ { Some(Color::Black) }
    else if s == "DarkGrey"@ { Some(Color::DarkGrey) }
    else if s == "Red"@ { Some(Color::Red) }
    else if s == "DarkRed"@ { Some(Color::DarkRed) }
    else if s == "Green"@ { Some(Color::Green) }
    else if s == "DarkGreen"@ { Some(Color::DarkGreen) }
    else if s == "Yellow"@ { Some(Color::Yellow) }
    else if s == "DarkYellow"@ { Some(Color::DarkYellow) }
    else if s == "Blue"@ { Some(Color::Blue) }
    else if s == "DarkBlue"@ { Some(Color::DarkBlue) }
    else if s == "Magenta"@ { Some(Color::Magenta) }
    else if s == "DarkMagenta"@ { Some(Color::DarkMagenta) }
    else if s == "Cyan"@ { Some(Color::Cyan) }
    else if s == "DarkCyan"@ { Some(Color::DarkCyan) }
    else if s == "White"@ { Some(Color::White) }
    else if s == "Grey"@ { Some(Color::Grey) }
    else { None }
}

/// Reads a colour name; an unknown name is an error, never a substitute colour.
pub fn color_from_string(s: &str) -> (r: Result<Color, ParseError>)
    ensures
        r == (match color_named(s@) {
            Some(c) => Ok(c),
            None => Err(ParseError),
        }),
{
    if same_text(s, "Reset") { Ok(Color::Reset) }
    else if same_text(s, "Black") { Ok(Color::Black) }
    else if same_text(s, "DarkGrey") { Ok(Color::DarkGrey) }
    else if same_text(s, "Red") { Ok(Color::Red) }
    else if same_text(s, "DarkRed") { Ok(Color::DarkRed) }
    else if same_text(s, "Green") { Ok(Color::Green) }
    else if same_text(s, "DarkGreen") { Ok(Color::DarkGreen) }
    else if same_text(s, "Yellow") { Ok(Color::Yellow) }
    else if same_text(s, "DarkYellow") { Ok(Color::DarkYellow) }
    else if same_text(s, "Blue") { Ok(Color::Blue) }
    else if same_text(s, "DarkBlue") { Ok(Color::DarkBlue) }
    else if same_text(s, "Magenta") { Ok(Color::Magenta) }
    else if same_text(s, "DarkMagenta") { Ok(Color::DarkMagenta) }
    else if same_text(s, "Cyan") { Ok(Color::Cyan) }
    else if same_text(s, "DarkCyan") { Ok(Color::DarkCyan) }
    else if same_text(s, "White") { Ok(Color::White) }
    else if same_text(s, "Grey") { Ok(Color::Grey) }
    else { Err(ParseError) }
}

/// A colour given as three 8-bit channels.
pub fn rgb(r: u8, g: u8, b: u8) -> (c: Color)
    ensures
        c == (Color::Rgb { r, g, b }),
{
    Color::Rgb { r, g, b }
}

/// How a colour is carried in a select-graphic-rendition sequence: a named
/// colour is its index in the standard sixteen-colour palette.
pub open spec fn ansi_color(c: Color) -> AnsiColor {
    match c {
        Color::Reset => AnsiColor::Default,
        Color::Black => AnsiColor::Palette(0),
        Color::DarkGrey => AnsiColor::Palette(8),
        Color::Red => AnsiColor::Palette(9),
        Color::DarkRed => AnsiColor::Palette(1),
        Color::Green => AnsiColor::Palette(10),
        Color::DarkGreen => AnsiColor::Palette(2),
        Color::Yellow => AnsiColor::Palette(11),
        Color::DarkYellow => AnsiColor::Palette(3),
        Color::Blue => AnsiColor::Palette(12),
        Color::DarkBlue => AnsiColor::Palette(4),
        Color::Magenta => AnsiColor::Palette(13),
        Color::DarkMagenta => AnsiColor::Palette(5),
        Color::Cyan => AnsiColor::Palette(14),
        Color::DarkCyan => AnsiColor::Palette(6),
        Color::White => AnsiColor::Palette(15),
        Color::Grey => AnsiColor::Palette(7),
        Color::Rgb { r, g, b } => AnsiColor::Rgb(r, g, b),
    }
}

impl Color {
    /// This colour as a select-graphic-rendition sequence carries it.
    pub fn to_ansi(&self) -> (r: AnsiColor)
        ensures
            r == ansi_color(*self),
    {
        match *self {
            Color::Reset => AnsiColor::Default,
            Color::Black => AnsiColor::Palette(0),
            Color::DarkGrey => AnsiColor::Palette(8),
            Color::Red => AnsiColor::Palette(9),
            Color::DarkRed => AnsiColor::Palette(1),
            Color::Green => AnsiColor::Palette(10),
            Color::DarkGreen => AnsiColor::Palette(2),
            Color::Yellow => AnsiColor::Palette(11),
            Color::DarkYellow => AnsiColor::Palette(3),
            Color::Blue => AnsiColor::Palette(12),
            Color::DarkBlue => AnsiColor::Palette(4),
            Color::Magenta => AnsiColor::Palette(13),
            Color::DarkMagenta => AnsiColor::Palette(5),
            Color::Cyan => AnsiColor::Palette(14),
            Color::DarkCyan => AnsiColor::Palette(6),
            Color::White => AnsiColor::Palette(15),
            Color::Grey => AnsiColor::Palette(7),
            Color::Rgb { r, g, b } => AnsiColor::Rgb(r, g, b),
        }
    }
}

/// What a styled text is: its characters, its two colours, and its attributes
/// in the order in which they were first applied.
pub struct StyledView {
    pub text: Seq<char>,
    pub foreground: Color,
    pub background: Color,
    pub attributes: Seq<Attribute>,
}

/// The sequence for each attribute of `attributes`, in order.
pub open spec fn attributes_encoding(attributes: Seq<Attribute>) -> Seq<char>
    decreases attributes.len(),
{
    if attributes.len() == 0 {
        seq![]
    } else {
        attributes_encoding(attributes.drop_last()) + Command::SetAttribute(
            attributes.last(),
        ).encoding()
    }
}

/// What rendering a styled text emits: the foreground colour, the background
/// colour, each attribute in order, then the text; nothing is reset afterwards.
pub open spec fn rendering(v: StyledView) -> Seq<char> {
    Command::SetForegroundColor(v.foreground).encoding() + Command::SetBackgroundColor(
        v.background,
    ).encoding() + attributes_encoding(v.attributes) + v.text
}

/// A string together with a foreground colour, a background colour and a set of
/// attributes.
pub struct StyledContent {
    string: String,
    foreground_color: Color,
    background_color: Color,
    attributes: Vec<Attribute>,
}

impl View for StyledContent {
    type V = StyledView;

    closed spec fn view(&self) -> StyledView {
        StyledView {
            text: self.string@,
            foreground: self.foreground_color,
            background: self.background_color,
            attributes: self.attributes@,
        }
    }
}

/// Whether `a` occurs in `v`.
pub(crate) fn holds_attribute(v: &Vec<Attribute>, a: Attribute) -> (r: bool)
    ensures
        r == v@.contains(a),
{
    let mut i: usize = 0;
    while i < v.len()
        invariant
            i <= v@.len(),
            forall|j: int| 0 <= j < i ==> v@[j] != a,
        decreases v.len() - i,
    {
        if v[i] == a {
            return true;
        }
        i += 1;
    }
    false
}

impl StyledContent {
    /// A styled text in the default foreground colour on black, with no
    /// attributes.
    pub fn new(string: String) -> (r: Self)
        ensures
            r@ == (StyledView {
                text: string@,
                foreground: Color::Reset,
                background: Color::Black,
                attributes: seq![],
            }),
    {
        StyledContent {
            string,
            foreground_color: Color::Reset,
            background_color: Color::Black,
            attributes: Vec::new(),
        }
    }

    /// Sets the foreground colour.
    pub fn color(&mut self, color: Color)
        ensures
            final(self)@ == (StyledView { foreground: color, ..old(self)@ }),
    {
        self.foreground_color = color;
    }

    /// Sets the background colour.
    pub fn on(&mut self, color: Color)
        ensures
            final(self)@ == (StyledView { background: color, ..old(self)@ }),
    {
        self.background_color = color;
    }

    /// The text.
    pub fn content(&self) -> (r: String)
        ensures
            r@ == self@.text,
    {
        self.string.clone()
    }

    /// Replaces the text.
    pub fn set_string(&mut self, string: String)
        ensures
            final(self)@ == (StyledView { text: string@, ..old(self)@ }),
    {
        self.string = string;
    }

    /// The foreground colour.
    pub fn foreground(&self) -> (r: Color)
        ensures
            r == self@.foreground,
    {
        self.foreground_color
    }

    /// The background colour.
    pub fn background(&self) -> (r: Color)
        ensures
            r == self@.background,
    {
        self.background_color
    }

    /// The attributes, in the order in which they were first applied.
    pub fn attributes(&self) -> (r: &Vec<Attribute>)
        ensures
            r@ == self@.attributes,
    {
        &self.attributes
    }

    /// Applies the attribute that `attrib` names. An attribute that is already
    /// applied, or a name that denotes no attribute, leaves the text as it was.
    pub fn attribute(&mut self, attrib: &str)
        ensures
            final(self)@ == match attribute_named(attrib@) {
                Some(a) => if old(self)@.attributes.contains(a) {
                    old(self)@
                } else {
                    StyledView { attributes: old(self)@.attributes.push(a), ..old(self)@ }
                },
                None => old(self)@,
            },
    {
        match attribute_from_string(attrib) {
            Some(a) => {
                if !holds_attribute(&self.attributes, a) {
                    self.attributes.push(a);
                }
            },
            None => {},
        }
    }

    /// An independent copy.
    pub fn duplicate(&self) -> (r: Self)
        ensures
            r@ == self@,
    {
        let mut attributes: Vec<Attribute> = Vec::new();
        let mut i: usize = 0;
        while i < self.attributes.len()
            invariant
                i <= self.attributes@.len(),
                attributes@ == self.attributes@.subrange(0, i as int),
            decreases self.attributes.len() - i,
        {
            attributes.push(self.attributes[i]);
            i += 1;
            proof {
                assert(attributes@ =~= self.attributes@.subrange(0, i as int));
            }
        }
        proof {
            assert(attributes@ =~= self.attributes@);
        }
        StyledContent {
            string: self.string.clone(),
            foreground_color: self.foreground_color,
            background_color: self.background_color,
            attributes,
        }
    }

    /// The escape sequences and text that display this styled text.
    pub fn render(&self) -> (r: String)
        ensures
            r@ == rendering(self@),
    {
        let mut out = Command::SetForegroundColor(self.foreground_color).encode();
        let background = Command::SetBackgroundColor(self.background_color).encode();
        out.append(background.as_str());
        let mut i: usize = 0;
        while i < self.attributes.len()
            invariant
                i <= self.attributes@.len(),
                out@ == Command::SetForegroundColor(self.foreground_color).encoding()
                    + Command::SetBackgroundColor(self.background_color).encoding()
                    + attributes_encoding(self.attributes@.subrange(0, i as int)),
            decreases self.attributes.len() - i,
        {
            let code = Command::SetAttribute(self.attributes[i]).encode();
            out.append(code.as_str());
            proof {
                let next = self.attributes@.subrange(0, i + 1);
                assert(next.drop_last() =~= self.attributes@.subrange(0, i as int));
            }
            i += 1;
        }
        proof {
            assert(self.attributes@.subrange(0, i as int) =~= self.attributes@);
        }
        out.append(self.string.as_str());
        out
    }
}

/// The SGR sequence that selects an RGB foreground colour.
pub open spec fn rgb_foreground_sequence(r: u8, g: u8, b: u8) -> Seq<char> {
    csi(
        seq!['3', '8', ';', '2', ';'] + decimal(r as nat) + seq![';'] + decimal(g as nat) + seq![
            ';',
        ] + decimal(b as nat) + seq!['m'],
    )
}

/// Rendering a styled text whose foreground is the RGB triple `(r, g, b)`
/// begins with `CSI 38;2;r;g;b m`, each channel written out in decimal.
pub proof fn rendering_carries_rgb_foreground(v: StyledView, r: u8, g: u8, b: u8)
    requires
        v.foreground == (Color::Rgb { r, g, b }),
    ensures
        rendering(v).subrange(0, rgb_foreground_sequence(r, g, b).len() as int)
            == rgb_foreground_sequence(r, g, b),
{
    let p = rgb_foreground_sequence(r, g, b);
    assert(Command::SetForegroundColor(v.foreground).encoding() =~= p);
    assert(rendering(v).subrange(0, p.len() as int) =~= p);
}

} // verus!
