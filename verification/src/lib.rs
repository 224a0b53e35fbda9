//! tmmpr: a terminal mind-map editor.
//!
//! The library holds the data model of a map (notes, connections, viewport),
//! the routing of connection lines, the text editing of notes, the settings
//! and start screens, and the keyboard handling of every screen.

pub mod app;
pub mod color;
pub mod fs;
pub mod graph;
pub mod input;
pub mod states;
pub mod text;
