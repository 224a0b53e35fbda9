//! Core data structures and algorithms of the node graph.

pub mod connection;
pub mod geometry;
pub mod node;

pub use connection::{Connection, Side};
pub use geometry::{calculate_path, can_route, get_offset_point, HPlacement, Point, SignedRect, VPlacement};
pub use node::{Node, NodeLayout};
