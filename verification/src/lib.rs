//! Terminal ASCII-art camera viewer, verified core.
//!
//! The library holds the capture-to-text pipeline and the interactive state
//! machine: a cursor-addressed device menu with wraparound navigation, a
//! luminance normalizer, a brightness-to-glyph mapper, a frame renderer that
//! turns a raw color frame into a block of text, and the menu/viewing state
//! machine that drives them. Device access and terminal drawing live outside
//! the library and talk to it through plain values.

pub mod glyph;
pub mod grid;
pub mod list;
pub mod machine;
pub mod render;
