//! Input and rendering primitives for a full-screen terminal application:
//! a decoder from raw terminal bytes to structured input events (with
//! double-click detection), a border-glyph resolver, a key-name formatter,
//! a color-theme lookup table, and the capability contracts a concrete
//! terminal backend must satisfy.

pub mod decoder;
pub mod event;
pub mod tui;
pub mod util;
