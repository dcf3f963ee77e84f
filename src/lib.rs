//! Terminal-control core: colours and text attributes, the escape sequences
//! that drive a terminal, a model of the terminal's state, and the decoding of
//! input events into a tagged union.
pub mod ansi;
pub mod event;
pub mod style;
pub mod terminal;
pub mod text;
