use pycrossterm::ansi::AnsiColor;
use pycrossterm::style::{
    attribute_from_string, color_from_string, rgb, Attribute, Color, ParseError, StyledContent,
};

#[test]
fn attribute_names_are_read() {
    assert_eq!(attribute_from_string("Bold"), Some(Attribute::Bold));
    assert_eq!(attribute_from_string("NotOverLined"), Some(Attribute::NotOverLined));
    assert_eq!(attribute_from_string("Reset"), Some(Attribute::Reset));
}

#[test]
fn unknown_attribute_name_is_none() {
    assert_eq!(attribute_from_string("Sparkle"), None);
    assert_eq!(attribute_from_string("bold"), None);
    assert_eq!(attribute_from_string(""), None);
}

#[test]
fn color_names_are_read() {
    assert_eq!(color_from_string("DarkGrey"), Ok(Color::DarkGrey));
    assert_eq!(color_from_string("Reset"), Ok(Color::Reset));
    assert_eq!(color_from_string("Grey"), Ok(Color::Grey));
}

#[test]
fn unknown_color_name_is_an_error() {
    assert_eq!(color_from_string("dark_grey"), Err(ParseError));
    assert_eq!(color_from_string("Purple"), Err(ParseError));
    assert_eq!(color_from_string(""), Err(ParseError));
}

#[test]
fn named_colors_take_their_palette_index() {
    assert_eq!(Color::Reset.to_ansi(), AnsiColor::Default);
    assert_eq!(Color::Black.to_ansi(), AnsiColor::Palette(0));
    assert_eq!(Color::Red.to_ansi(), AnsiColor::Palette(9));
    assert_eq!(Color::DarkRed.to_ansi(), AnsiColor::Palette(1));
    assert_eq!(Color::Grey.to_ansi(), AnsiColor::Palette(7));
    assert_eq!(rgb(1, 2, 3).to_ansi(), AnsiColor::Rgb(1, 2, 3));
}

#[test]
fn new_styled_content_defaults() {
    let s = StyledContent::new(String::from("hi"));
    assert_eq!(s.content(), "hi");
    assert_eq!(s.foreground(), Color::Reset);
    assert_eq!(s.background(), Color::Black);
    assert!(s.attributes().is_empty());
}

#[test]
fn builder_setters() {
    let mut s = StyledContent::new(String::from("hi"));
    s.color(Color::Red);
    s.on(rgb(4, 5, 6));
    s.set_string(String::from("there"));
    assert_eq!(s.foreground(), Color::Red);
    assert_eq!(s.background(), Color::Rgb { r: 4, g: 5, b: 6 });
    assert_eq!(s.content(), "there");
}

#[test]
fn attribute_is_idempotent_and_ignores_unknown_names() {
    let mut s = StyledContent::new(String::from("x"));
    s.attribute("Bold");
    s.attribute("Italic");
    s.attribute("Bold");
    s.attribute("Sparkle");
    assert_eq!(s.attributes(), &vec![Attribute::Bold, Attribute::Italic]);
}

#[test]
fn duplicate_is_an_equal_independent_copy() {
    let mut s = StyledContent::new(String::from("x"));
    s.attribute("Dim");
    s.color(Color::Cyan);
    let mut d = s.duplicate();
    assert_eq!(d.render(), s.render());
    d.attribute("Bold");
    assert_eq!(s.attributes(), &vec![Attribute::Dim]);
    assert_eq!(d.attributes(), &vec![Attribute::Dim, Attribute::Bold]);
}

#[test]
fn render_default_styled_content() {
    let s = StyledContent::new(String::from("hello"));
    assert_eq!(s.render(), "\x1b[39m\x1b[48;5;0mhello");
}

#[test]
fn render_rgb_foreground_carries_the_triple() {
    let mut s = StyledContent::new(String::from("text"));
    s.color(rgb(255, 0, 128));
    let out = s.render();
    assert!(out.starts_with("\x1b[38;2;255;0;128m"));
    assert_eq!(out, "\x1b[38;2;255;0;128m\x1b[48;5;0mtext");
    assert_eq!(s.render(), out);
}

#[test]
fn render_applies_attributes_in_insertion_order() {
    let mut s = StyledContent::new(String::from("ab"));
    s.color(Color::Blue);
    s.on(Color::Reset);
    s.attribute("Underlined");
    s.attribute("Fraktur");
    s.attribute("Bold");
    assert_eq!(s.render(), "\x1b[38;5;12m\x1b[49m\x1b[4m\x1b[20m\x1b[1mab");
}
