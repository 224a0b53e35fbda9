use vstd::prelude::*;

verus! {

/// Tracks which visual mode operations are currently active.
///
/// Visual modes allow batch operations on selected notes and connections.
#[derive(PartialEq, Eq, Debug, Clone, Copy, Structural)]
pub struct VisualModeState {
    /// Whether visual move mode is active for repositioning notes
    pub visual_move: bool,
    /// Whether visual connection mode is active for managing connections
    pub visual_connection: bool,
}

impl VisualModeState {
    pub fn new() -> (r: Self)
        ensures
            !r.visual_move,
            !r.visual_connection,
    {
        Self { visual_move: false, visual_connection: false }
    }
}

} // verus!
