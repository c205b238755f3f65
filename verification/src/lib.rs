//! Verified core of a pair of ANSI terminal colour tools: a text formatter
//! that wraps text in SGR escape sequences, and a colour-swatch generator
//! that renders sampled colours as escape-coded grid cells.

pub mod color;
pub mod format;
pub mod grid;
pub mod text;
