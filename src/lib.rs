//! Terminal cell rendering: styles, a cell buffer, widgets, and the encoder that
//! turns a stream of changed cells into the terminal's control text.
pub mod buffer;
pub mod encoder;
pub mod layout;
pub mod style;
pub mod widgets;
pub mod zui;
