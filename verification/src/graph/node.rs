use vstd::prelude::*;

use crate::graph::Side;

verus! {

/// A node in a graph with position and arbitrary data.
///
/// Coordinates are `usize`, positions in a positive coordinate space.
#[derive(PartialEq, Clone, Debug)]
pub struct Node<T> {
    pub x: usize,
    pub y: usize,
    pub data: T,
}

/// Trait for node data types that know their rendered layout dimensions.
///
/// Implement this on a data type `T` to plug it into `Node<T>`; the
/// connection points of `Node<T>` are then derived from `dimensions()`.
pub trait NodeLayout {
    /// The rendered (width, height) of the data, border padding included.
    spec fn spec_dimensions(&self) -> (u16, u16);

    /// Returns the rendered (width, height) of this node, including any border padding.
    fn dimensions(&self) -> (r: (u16, u16))
        ensures
            r == self.spec_dimensions(),
    ;
}

/// The point of a node of top-left corner (x, y) and size (w, h) where a
/// connection on `side` attaches: the middle of that side's border.
pub open spec fn spec_connection_point(x: int, y: int, w: int, h: int, side: Side) -> (int, int) {
    match side {
        Side::Right => (x + w - 1, y + h / 2),
        Side::Left => (x, y + h / 2),
        Side::Top => (x + w / 2, y),
        Side::Bottom => (x + w / 2, y + h - 1),
    }
}

/// The sizes (w, h) for which `connection_point` is defined at (x, y):
/// every coordinate it computes fits in a `usize`.
pub open spec fn connection_point_fits(x: int, y: int, w: int, h: int) -> bool {
    &&& 1 <= x + w <= usize::MAX
    &&& 1 <= y + h <= usize::MAX
}

impl<T> Node<T> {
    /// Creates a new node at the specified position with the given data.
    pub fn new(x: usize, y: usize, data: T) -> (r: Self)
        ensures
            r.x == x,
            r.y == y,
            r.data == data,
    {
        Self { x, y, data }
    }

    /// Returns the position of this node as a tuple.
    pub fn position(&self) -> (r: (usize, usize))
        ensures
            r == (self.x, self.y),
    {
        (self.x, self.y)
    }

    /// The middle of the border on `side` of this node, from the dimensions of its data.
    pub open spec fn spec_connection_point(&self, side: Side) -> (int, int)
        where T: NodeLayout
    {
        let (w, h) = self.data.spec_dimensions();
        spec_connection_point(self.x as int, self.y as int, w as int, h as int, side)
    }

    /// Any `Node<T>` whose data implements `NodeLayout` gets `connection_point()` for free.
    pub fn connection_point(&self, side: Side) -> (r: (usize, usize))
        where T: NodeLayout
        requires
            connection_point_fits(
                self.x as int,
                self.y as int,
                self.data.spec_dimensions().0 as int,
                self.data.spec_dimensions().1 as int,
            ),
        ensures
            (r.0 as int, r.1 as int) == self.spec_connection_point(side),
    {
        let (w, h) = self.data.dimensions();
        match side {
            Side::Right => ((self.x + w as usize - 1), (self.y + (h / 2) as usize)),
            Side::Left => (self.x, (self.y + (h / 2) as usize)),
            Side::Top => (self.x + (w / 2) as usize, self.y),
            Side::Bottom => (self.x + (w / 2) as usize, self.y + h as usize - 1),
        }
    }
}

/// Law: a connection attaches at the middle of the side's border: on the
/// note's rightmost column for Right, leftmost for Left, top row for Top and
/// bottom row for Bottom, with as many cells of that border before it as
/// after it, or one more before it.
pub proof fn lemma_connection_point_middle_of_side(x: int, y: int, w: int, h: int, side: Side)
    requires
        w >= 1,
        h >= 1,
    ensures
        ({
            let (px, py) = spec_connection_point(x, y, w, h, side);
            &&& side == Side::Right ==> px == x + w - 1
            &&& side == Side::Left ==> px == x
            &&& side == Side::Top ==> py == y
            &&& side == Side::Bottom ==> py == y + h - 1
            &&& (side == Side::Right || side == Side::Left) ==> {
                let before = py - y;
                let after = y + h - 1 - py;
                before >= 0 && after >= 0 && (after == before || after + 1 == before)
            }
            &&& (side == Side::Top || side == Side::Bottom) ==> {
                let before = px - x;
                let after = x + w - 1 - px;
                before >= 0 && after >= 0 && (after == before || after + 1 == before)
            }
        }),
{
}

} // verus!
