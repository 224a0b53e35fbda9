use vstd::prelude::*;

use crate::graph::Side;

verus! {

/// The side after `side` going clockwise: Right → Bottom → Left → Top → Right.
pub open spec fn spec_cycle_side(side: Side) -> Side {
    match side {
        Side::Right => Side::Bottom,
        Side::Bottom => Side::Left,
        Side::Left => Side::Top,
        Side::Top => Side::Right,
    }
}

/// Cycles through connection sides clockwise: Right → Bottom → Left → Top → Right
pub fn cycle_side(side: Side) -> (r: Side)
    ensures
        r == spec_cycle_side(side),
{
    match side {
        Side::Right => Side::Bottom,
        Side::Bottom => Side::Left,
        Side::Left => Side::Top,
        Side::Top => Side::Right,
    }
}

/// The name of a side as shown in the settings menu.
pub open spec fn side_name(side: Side) -> Seq<char> {
    match side {
        Side::Right => seq!['R', 'i', 'g', 'h', 't'],
        Side::Bottom => seq!['B', 'o', 't', 't', 'o', 'm'],
        Side::Left => seq!['L', 'e', 'f', 't'],
        Side::Top => seq!['T', 'o', 'p'],
    }
}

pub fn side_to_string(side: Side) -> (r: String)
    ensures
        r@ == side_name(side),
{
    let s = match side {
        Side::Right => "Right",
        Side::Bottom => "Bottom",
        Side::Left => "Left",
        Side::Top => "Top",
    };
    proof {
        reveal_strlit("Right");
        reveal_strlit("Bottom");
        reveal_strlit("Left");
        reveal_strlit("Top");
    }
    String::from_str(s)
}

/// Law: four steps of `cycle_side` come back to the side one started from,
/// and no fewer steps do.
pub proof fn lemma_cycle_side_period(side: Side)
    ensures
        spec_cycle_side(spec_cycle_side(spec_cycle_side(spec_cycle_side(side)))) == side,
        spec_cycle_side(side) != side,
        spec_cycle_side(spec_cycle_side(side)) != side,
        spec_cycle_side(spec_cycle_side(spec_cycle_side(side))) != side,
{
}

} // verus!
