use vstd::prelude::*;

verus! {

/// Represents a directional connection between nodes of a graph, carrying data `T`.
///
/// Connections can be in-progress (only `from` specified) or complete (both `from` and `to`).
/// This allows drawing connections interactively before the user selects a target node.
#[derive(Copy, Clone, PartialEq, Debug)]
pub struct Connection<T> {
    pub from_id: usize,
    pub from_side: Side,
    /// None for in-progress connections being drawn by the user
    pub to_id: Option<usize>,
    /// None for in-progress connections being drawn by the user
    pub to_side: Option<Side>,
    pub data: T,
}

impl<T> Connection<T> {
    pub fn new(
        from_id: usize,
        from_side: Side,
        to_id: Option<usize>,
        to_side: Option<Side>,
        data: T,
    ) -> (r: Self)
        ensures
            r == (Connection { from_id, from_side, to_id, to_side, data }),
    {
        Self { from_id, from_side, to_id, to_side, data }
    }
}

/// Represents which side of a note a connection is attached to.
///
/// Used to specify the connection point on both the source and target notes.
#[derive(Clone, Copy, PartialEq, Eq, Debug, Structural)]
pub enum Side {
    Top,
    Bottom,
    Left,
    Right,
}

} // verus!
