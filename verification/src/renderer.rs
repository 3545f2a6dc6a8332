//! The screen model and the protocol interpreter that drives it.

pub mod colors;
pub mod grid;
pub mod laws;
pub mod machine;
pub mod model;
pub mod parser;
pub mod screen;

pub use crate::error::RenderError;
pub use colors::TerminalColor;
pub use grid::{Cell, CellAttributes, Region, TextGrid};
pub use parser::TerminalParser;
