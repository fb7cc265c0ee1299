//! Styled text and the grid renderer built on it.
pub mod grid;
pub mod layout;
pub mod render;
pub mod styled;

pub use grid::Grid;
pub use layout::GridModel;
pub use styled::{ColoredChar, ColoredString};
pub use termcolor::Color;
