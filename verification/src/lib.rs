//! A document of nested layouts, lines, spans and characters, and a cursor
//! that walks it: it goes down to a child, sideways to a sister or a
//! cousin, up to the mother, back to where it came from, and highlights
//! whatever it stands on.
pub mod primitives;
pub mod style;
pub mod node;
pub mod navigation;
pub mod laws;
