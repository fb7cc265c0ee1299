//! Box-drawn text grids for the terminal, with optional axis labels and
//! per-character foreground colors.
pub mod grid_print;
