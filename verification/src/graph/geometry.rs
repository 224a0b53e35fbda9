//! Geometry of the map: clipping rectangles and the routing of connection lines.

use vstd::prelude::*;

use crate::graph::node::{connection_point_fits, spec_connection_point};
use crate::graph::{Node, NodeLayout, Side};

verus! {

/// A rectangle representation that uses signed integers (`isize`) for its coordinates.
///
/// Screen-space coordinates can temporarily become negative (e.g. a note is
/// partially off-screen to the left) before being clipped to the viewport.
#[derive(Clone, Copy, PartialEq, Eq, Debug, Structural)]
pub struct SignedRect {
    pub x: isize,
    pub y: isize,
    pub width: isize,
    pub height: isize,
}

/// Every sum that `intersection` computes of a rectangle fits in an `isize`.
pub open spec fn rect_fits(r: SignedRect) -> bool {
    &&& isize::MIN <= r.x + r.width <= isize::MAX
    &&& isize::MIN <= r.y + r.height <= isize::MAX
}

/// Two rectangles share a cell (a positive area) exactly when neither lies
/// entirely on one side of the other.
pub open spec fn rects_overlap(a: SignedRect, b: SignedRect) -> bool {
    &&& a.x < b.x + b.width
    &&& b.x < a.x + a.width
    &&& a.y < b.y + b.height
    &&& b.y < a.y + a.height
}

pub open spec fn max_int(a: int, b: int) -> int {
    if a >= b { a } else { b }
}

pub open spec fn min_int(a: int, b: int) -> int {
    if a <= b { a } else { b }
}

/// The overlap of two overlapping rectangles.
pub open spec fn spec_intersection(a: SignedRect, b: SignedRect) -> SignedRect {
    let x = max_int(a.x as int, b.x as int);
    let y = max_int(a.y as int, b.y as int);
    SignedRect {
        x: x as isize,
        y: y as isize,
        width: (min_int(a.x + a.width, b.x + b.width) - x) as isize,
        height: (min_int(a.y + a.height, b.y + b.height) - y) as isize,
    }
}

impl SignedRect {
    /// Core clipping logic for determining the visible portion of a rectangle (typically
    /// a note) within the viewport bounds.
    ///
    /// Returns `None` when the two rectangles share no cell (touching edges
    /// share none), and otherwise their overlap.
    pub fn intersection(&self, view: &SignedRect) -> (r: Option<SignedRect>)
        requires
            rect_fits(*self),
            rect_fits(*view),
        ensures
            r is None <==> !rects_overlap(*self, *view),
            r matches Some(i) ==> i == spec_intersection(*self, *view),
    {
        if self.x >= view.x + view.width || self.x + self.width <= view.x || self.y >= view.y
            + view.height || self.y + self.height <= view.y {
            None
        } else {
            let x_start = if self.x >= view.x { self.x } else { view.x };
            let x_end = if self.x + self.width <= view.x + view.width {
                self.x + self.width
            } else {
                view.x + view.width
            };
            let x_width = x_end - x_start;

            let y_start = if self.y >= view.y { self.y } else { view.y };
            let y_end = if self.y + self.height <= view.y + view.height {
                self.y + self.height
            } else {
                view.y + view.height
            };
            let y_height = y_end - y_start;

            Some(SignedRect { x: x_start, y: y_start, width: x_width, height: y_height })
        }
    }
}

/// A 2D point in the coordinate space.
///
/// X increases rightward and Y increases downward.
#[derive(Clone, Copy, PartialEq, Eq, Debug, Structural)]
pub struct Point {
    pub x: isize,
    pub y: isize,
}

/// Where the end point is, in relation to the start point horizontally
#[derive(Clone, Copy, PartialEq, Eq, Debug, Structural)]
pub enum HPlacement {
    Right,
    Left,
    Level,
}

/// Where the end point is, in relation to the start point vertically
#[derive(Clone, Copy, PartialEq, Eq, Debug, Structural)]
pub enum VPlacement {
    Above,
    Below,
    Level,
}

/// The end point is to the right when it is at least 4 cells further right,
/// to the left when at least 4 cells further left, and level otherwise
/// (twice the 2-cell clearance in either direction).
pub open spec fn spec_h_placement(dx: int) -> HPlacement {
    if dx >= 4 {
        HPlacement::Right
    } else if dx <= -4 {
        HPlacement::Left
    } else {
        HPlacement::Level
    }
}

/// The vertical counterpart of `spec_h_placement`: `Below` when at least 4
/// cells further down, `Above` when at least 4 cells further up.
pub open spec fn spec_v_placement(dy: int) -> VPlacement {
    if dy >= 4 {
        VPlacement::Below
    } else if dy <= -4 {
        VPlacement::Above
    } else {
        VPlacement::Level
    }
}

/// The clearance, in cells, between a note's border and the first bend of a line.
pub open spec fn clearance() -> int {
    2
}

/// The point 2 cells away from `p`, outward from a note side.
pub open spec fn spec_offset_point(p: Point, side: Side) -> Point {
    match side {
        Side::Right => Point { x: (p.x + 2) as isize, y: p.y },
        Side::Left => Point { x: (p.x - 2) as isize, y: p.y },
        Side::Top => Point { x: p.x, y: (p.y - 2) as isize },
        Side::Bottom => Point { x: p.x, y: (p.y + 2) as isize },
    }
}

/// `d / 2` rounded toward zero, as Rust's integer division does.
pub open spec fn half_toward_zero(d: int) -> int {
    if d >= 0 {
        d / 2
    } else {
        -((-d) / 2)
    }
}

/// The shapes a routed connection line can take.
#[derive(Clone, Copy, PartialEq, Eq, Debug, Structural)]
pub enum PathShape {
    /// Out to the left of both notes, down or up, and back.
    C,
    /// Out to the right of both notes, down or up, and back.
    ReverseC,
    /// A vertical jog halfway between the two points.
    S,
    /// A horizontal jog halfway between the two points.
    SidewaysSY,
    /// A vertical jog halfway between the two points, for sideways routing.
    SidewaysSX,
    /// A single bend at (end offset x, start offset y).
    Corner1,
    /// A single bend at (start offset x, end offset y).
    Corner2,
    /// Up above both notes and back down.
    UpsideDownU,
    /// Down below both notes and back up.
    U,
}

/// Which shape connects a line leaving `start_side` to one entering
/// `end_side`, given where the end lies in relation to the start.
/// `None` when the two points are level on both axes: no line is drawn then.
pub open spec fn route(start_side: Side, end_side: Side, h: HPlacement, v: VPlacement) -> Option<
    PathShape,
> {
    if h == HPlacement::Level && v == VPlacement::Level {
        None
    } else {
        Some(
            match (start_side, end_side) {
                (Side::Right, Side::Right) => PathShape::ReverseC,
                (Side::Right, Side::Left) => if h == HPlacement::Right {
                    PathShape::S
                } else {
                    PathShape::SidewaysSY
                },
                (Side::Right, Side::Top) => if h == HPlacement::Right {
                    if v == VPlacement::Below {
                        PathShape::Corner1
                    } else {
                        PathShape::SidewaysSX
                    }
                } else if v == VPlacement::Below {
                    PathShape::SidewaysSY
                } else {
                    PathShape::Corner2
                },
                (Side::Right, Side::Bottom) => if h == HPlacement::Right {
                    if v == VPlacement::Above {
                        PathShape::Corner1
                    } else {
                        PathShape::S
                    }
                } else {
                    PathShape::Corner2
                },
                (Side::Left, Side::Right) => if h == HPlacement::Left {
                    PathShape::SidewaysSX
                } else {
                    PathShape::SidewaysSY
                },
                (Side::Left, Side::Left) => PathShape::C,
                (Side::Left, Side::Top) => if h == HPlacement::Right {
                    if v == VPlacement::Below {
                        PathShape::SidewaysSY
                    } else {
                        PathShape::C
                    }
                } else if h == HPlacement::Level && v == VPlacement::Below {
                    PathShape::SidewaysSY
                } else if h == HPlacement::Left && v == VPlacement::Below {
                    PathShape::Corner1
                } else {
                    PathShape::Corner2
                },
                (Side::Left, Side::Bottom) => if h == HPlacement::Left && v == VPlacement::Above {
                    PathShape::Corner1
                } else {
                    PathShape::Corner2
                },
                (Side::Top, Side::Right) => if h == HPlacement::Left && v == VPlacement::Above {
                    PathShape::Corner2
                } else {
                    PathShape::Corner1
                },
                (Side::Top, Side::Left) => if h == HPlacement::Right && v == VPlacement::Above {
                    PathShape::Corner2
                } else {
                    PathShape::Corner1
                },
                (Side::Top, Side::Top) => PathShape::UpsideDownU,
                (Side::Top, Side::Bottom) => if v == VPlacement::Above {
                    PathShape::Corner1
                } else {
                    PathShape::S
                },
                (Side::Bottom, Side::Right) => if v == VPlacement::Below {
                    if h == HPlacement::Left {
                        PathShape::Corner2
                    } else {
                        PathShape::SidewaysSY
                    }
                } else {
                    PathShape::Corner1
                },
                (Side::Bottom, Side::Left) => if h == HPlacement::Right && v == VPlacement::Below {
                    PathShape::Corner2
                } else {
                    PathShape::Corner1
                },
                (Side::Bottom, Side::Top) => if v == VPlacement::Below {
                    PathShape::SidewaysSY
                } else {
                    PathShape::SidewaysSX
                },
                (Side::Bottom, Side::Bottom) => PathShape::U,
            },
        )
    }
}

/// The points of a line of the given shape, from `start` through its offset
/// `so`, the bends, and the end offset `eo`, to `end`.
pub open spec fn shape_points(shape: PathShape, start: Point, so: Point, end: Point, eo: Point) -> Seq<
    Point,
> {
    let mid_x = (start.x + half_toward_zero(end.x - start.x)) as isize;
    let mid_y = (start.y + half_toward_zero(end.y - start.y)) as isize;
    match shape {
        PathShape::C => {
            let fx = min_int(so.x as int, eo.x as int) as isize;
            seq![start, so, Point { x: fx, y: so.y }, Point { x: fx, y: eo.y }, eo, end]
        },
        PathShape::ReverseC => {
            let fx = max_int(so.x as int, eo.x as int) as isize;
            seq![start, so, Point { x: fx, y: so.y }, Point { x: fx, y: eo.y }, eo, end]
        },
        PathShape::S | PathShape::SidewaysSX => seq![
            start,
            so,
            Point { x: mid_x, y: so.y },
            Point { x: mid_x, y: eo.y },
            eo,
            end,
        ],
        PathShape::SidewaysSY => seq![
            start,
            so,
            Point { x: so.x, y: mid_y },
            Point { x: eo.x, y: mid_y },
            eo,
            end,
        ],
        PathShape::Corner1 => seq![start, so, Point { x: eo.x, y: so.y }, eo, end],
        PathShape::Corner2 => seq![start, so, Point { x: so.x, y: eo.y }, eo, end],
        PathShape::UpsideDownU => {
            let hy = min_int(so.y as int, eo.y as int) as isize;
            seq![start, so, Point { x: so.x, y: hy }, Point { x: eo.x, y: hy }, eo, end]
        },
        PathShape::U => {
            let ly = max_int(so.y as int, eo.y as int) as isize;
            seq![start, so, Point { x: so.x, y: ly }, Point { x: eo.x, y: ly }, eo, end]
        },
    }
}

/// The line from `start` (leaving on `start_side`) to `end` (entering on `end_side`).
pub open spec fn spec_path(start: Point, start_side: Side, end: Point, end_side: Side) -> Seq<Point> {
    let so = spec_offset_point(start, start_side);
    let eo = spec_offset_point(end, end_side);
    match route(
        start_side,
        end_side,
        spec_h_placement(end.x - start.x),
        spec_v_placement(end.y - start.y),
    ) {
        Some(shape) => shape_points(shape, start, so, end, eo),
        None => Seq::empty(),
    }
}

/// Connection point coordinates: non-negative (they come from `usize`
/// positions) and at least 2 below `isize::MAX`, so that the offset points,
/// the differences between two anchors and the halfway bends all stay
/// representable.
pub open spec fn coord_in_range(c: int) -> bool {
    0 <= c <= isize::MAX - 2
}

pub open spec fn point_in_range(p: Point) -> bool {
    coord_in_range(p.x as int) && coord_in_range(p.y as int)
}

/// A point that can move 2 cells in any direction within `isize`.
pub open spec fn offset_room(p: Point) -> bool {
    &&& isize::MIN + 2 <= p.x <= isize::MAX - 2
    &&& isize::MIN + 2 <= p.y <= isize::MAX - 2
}

/// A node whose connection point on `side` is defined and in routing range.
pub open spec fn anchor_routable<T: NodeLayout>(n: Node<T>, side: Side) -> bool {
    let (w, h) = n.data.spec_dimensions();
    let (x, y) = spec_connection_point(n.x as int, n.y as int, w as int, h as int, side);
    &&& connection_point_fits(n.x as int, n.y as int, w as int, h as int)
    &&& coord_in_range(x)
    &&& coord_in_range(y)
}

/// Whether a line can be routed from or to the node on `side`: its
/// connection point there is defined and in routing range.
pub fn can_route<T: NodeLayout>(n: &Node<T>, side: Side) -> (r: bool)
    ensures
        r == anchor_routable(*n, side),
{
    let (w, h) = n.data.dimensions();
    let fits = match (n.x.checked_add(w as usize), n.y.checked_add(h as usize)) {
        (Some(xe), Some(ye)) => xe >= 1 && ye >= 1,
        _ => false,
    };
    if !fits {
        return false;
    }
    let (x, y) = n.connection_point(side);
    let limit: usize = (isize::MAX - 2) as usize;
    x <= limit && y <= limit
}

/// The connection point of a node as a `Point`.
pub open spec fn spec_anchor<T: NodeLayout>(n: Node<T>, side: Side) -> Point {
    let (w, h) = n.data.spec_dimensions();
    let (x, y) = spec_connection_point(n.x as int, n.y as int, w as int, h as int, side);
    Point { x: x as isize, y: y as isize }
}

/// Returns the point 2 cells away from `p`, outward from a note side.
pub fn get_offset_point(p: Point, side: Side) -> (r: Point)
    requires
        offset_room(p),
    ensures
        r == spec_offset_point(p, side),
{
    let offset: isize = 2;
    match side {
        Side::Right => Point { x: p.x + offset, y: p.y },
        Side::Left => Point { x: p.x - offset, y: p.y },
        Side::Top => Point { x: p.x, y: p.y - offset },
        Side::Bottom => Point { x: p.x, y: p.y + offset },
    }
}

/// `d / 2` rounded toward zero.
fn half(d: isize) -> (r: isize)
    requires
        d > isize::MIN,
    ensures
        r == half_toward_zero(d as int),
{
    if d >= 0 {
        d / 2
    } else {
        -((-d) / 2)
    }
}

/// Precondition shared by the shape builders: every point is in routing
/// range, and the offsets lie within the clearance of their anchors.
pub open spec fn shape_inputs_in_range(start: Point, so: Point, end: Point, eo: Point) -> bool {
    &&& point_in_range(start)
    &&& point_in_range(end)
    &&& -2 <= so.x - start.x <= 2
    &&& -2 <= so.y - start.y <= 2
    &&& -2 <= eo.x - end.x <= 2
    &&& -2 <= eo.y - end.y <= 2
}

fn c_shape(start: Point, start_off: Point, end: Point, end_off: Point) -> (r: Vec<Point>)
    requires
        shape_inputs_in_range(start, start_off, end, end_off),
    ensures
        r@ == shape_points(PathShape::C, start, start_off, end, end_off),
{
    // furthest point to the left
    let furthest_point_x = if start_off.x <= end_off.x { start_off.x } else { end_off.x };
    vec![
        start,
        start_off,
        Point { x: furthest_point_x, y: start_off.y },
        Point { x: furthest_point_x, y: end_off.y },
        end_off,
        end,
    ]
}

fn reverse_c_shape(start: Point, start_off: Point, end: Point, end_off: Point) -> (r: Vec<Point>)
    requires
        shape_inputs_in_range(start, start_off, end, end_off),
    ensures
        r@ == shape_points(PathShape::ReverseC, start, start_off, end, end_off),
{
    // furthest point to the right
    let furthest_point_x = if start_off.x >= end_off.x { start_off.x } else { end_off.x };
    vec![
        start,
        start_off,
        Point { x: furthest_point_x, y: start_off.y },
        Point { x: furthest_point_x, y: end_off.y },
        end_off,
        end,
    ]
}

// s shape, reverse s shape
fn s_shapes(start: Point, start_off: Point, end: Point, end_off: Point, available_space_x: isize) -> (r:
    Vec<Point>)
    requires
        shape_inputs_in_range(start, start_off, end, end_off),
        available_space_x == end.x - start.x,
    ensures
        r@ == shape_points(PathShape::S, start, start_off, end, end_off),
{
    let midway_point_x = start.x + half(available_space_x);
    vec![
        start,
        start_off,
        Point { x: midway_point_x, y: start_off.y },
        Point { x: midway_point_x, y: end_off.y },
        end_off,
        end,
    ]
}

fn sideways_s_shapes_y(
    start: Point,
    start_off: Point,
    end: Point,
    end_off: Point,
    available_space_y: isize,
) -> (r: Vec<Point>)
    requires
        shape_inputs_in_range(start, start_off, end, end_off),
        available_space_y == end.y - start.y,
    ensures
        r@ == shape_points(PathShape::SidewaysSY, start, start_off, end, end_off),
{
    let midway_point_y = start.y + half(available_space_y);
    vec![
        start,
        start_off,
        Point { x: start_off.x, y: midway_point_y },
        Point { x: end_off.x, y: midway_point_y },
        end_off,
        end,
    ]
}

fn sideways_s_shapes_x(
    start: Point,
    start_off: Point,
    end: Point,
    end_off: Point,
    available_space_x: isize,
) -> (r: Vec<Point>)
    requires
        shape_inputs_in_range(start, start_off, end, end_off),
        available_space_x == end.x - start.x,
    ensures
        r@ == shape_points(PathShape::SidewaysSX, start, start_off, end, end_off),
{
    let midway_point_x = start.x + half(available_space_x);
    vec![
        start,
        start_off,
        Point { x: midway_point_x, y: start_off.y },
        Point { x: midway_point_x, y: end_off.y },
        end_off,
        end,
    ]
}

/// midpoint:  end_off.x, start_off.y
fn corner_shapes_1(start: Point, start_off: Point, end: Point, end_off: Point) -> (r: Vec<Point>)
    requires
        shape_inputs_in_range(start, start_off, end, end_off),
    ensures
        r@ == shape_points(PathShape::Corner1, start, start_off, end, end_off),
{
    vec![start, start_off, Point { x: end_off.x, y: start_off.y }, end_off, end]
}

/// midpoint:  start_off.x, end_off.y
fn corner_shapes_2(start: Point, start_off: Point, end: Point, end_off: Point) -> (r: Vec<Point>)
    requires
        shape_inputs_in_range(start, start_off, end, end_off),
    ensures
        r@ == shape_points(PathShape::Corner2, start, start_off, end, end_off),
{
    vec![start, start_off, Point { x: start_off.x, y: end_off.y }, end_off, end]
}

fn upside_down_u_shapes(start: Point, start_off: Point, end: Point, end_off: Point) -> (r: Vec<
    Point,
>)
    requires
        shape_inputs_in_range(start, start_off, end, end_off),
    ensures
        r@ == shape_points(PathShape::UpsideDownU, start, start_off, end, end_off),
{
    let highest_y = if start_off.y <= end_off.y { start_off.y } else { end_off.y };
    vec![
        start,
        start_off,
        Point { x: start_off.x, y: highest_y },
        Point { x: end_off.x, y: highest_y },
        end_off,
        end,
    ]
}

fn u_shapes(start: Point, start_off: Point, end: Point, end_off: Point) -> (r: Vec<Point>)
    requires
        shape_inputs_in_range(start, start_off, end, end_off),
    ensures
        r@ == shape_points(PathShape::U, start, start_off, end, end_off),
{
    let lowest_y = if start_off.y >= end_off.y { start_off.y } else { end_off.y };
    vec![
        start,
        start_off,
        Point { x: start_off.x, y: lowest_y },
        Point { x: end_off.x, y: lowest_y },
        end_off,
        end,
    ]
}

/// Computes an ordered sequence of points forming a routed connection line between two nodes.
///
/// Selects a path shape (S, C, U, corner, etc.) based on the relative positions of the nodes
/// and the sides being connected, with 2-unit offsets for visual clearance from node boundaries.
/// When the two connection points are level on both axes, no line is drawn: the result is empty.
pub fn calculate_path<T: NodeLayout>(
    start_node: &Node<T>,
    start_side: Side,
    end_node: &Node<T>,
    end_side: Side,
) -> (points: Vec<Point>)
    requires
        anchor_routable(*start_node, start_side),
        anchor_routable(*end_node, end_side),
    ensures
        points@ == spec_path(
            spec_anchor(*start_node, start_side),
            start_side,
            spec_anchor(*end_node, end_side),
            end_side,
        ),
{
    let start_tuple = start_node.connection_point(start_side);
    let end_tuple = end_node.connection_point(end_side);

    let start = Point { x: start_tuple.0 as isize, y: start_tuple.1 as isize };
    let end = Point { x: end_tuple.0 as isize, y: end_tuple.1 as isize };

    // Offset points extend 2 units away from note edges for visual clearance
    let start_off = get_offset_point(start, start_side);
    let end_off = get_offset_point(end, end_side);

    let available_space_x = end.x - start.x;
    let available_space_y = end.y - start.y;

    // Where the end point lies in relation to the start point; the "Level"
    // band is twice the offset amount wide in both directions.
    let h_placement = if available_space_x >= 4 {
        HPlacement::Right
    } else if available_space_x <= -4 {
        HPlacement::Left
    } else {
        HPlacement::Level
    };
    let v_placement = if available_space_y >= 4 {
        VPlacement::Below
    } else if available_space_y <= -4 {
        VPlacement::Above
    } else {
        VPlacement::Level
    };

    let mut points: Vec<Point> = Vec::new();

    match (start_side, end_side) {
        (Side::Right, Side::Right) => {
            match (h_placement, v_placement) {
                (HPlacement::Right, VPlacement::Below) | (HPlacement::Right, VPlacement::Above) | (HPlacement::Right, VPlacement::Level) | (HPlacement::Level, VPlacement::Below) | (HPlacement::Left, VPlacement::Below) | (HPlacement::Level, VPlacement::Above) | (HPlacement::Left, VPlacement::Above) | (HPlacement::Left, VPlacement::Level) => {
                    points = reverse_c_shape(start, start_off, end, end_off);
                }
                _ => {}
            }
        },
        (Side::Right, Side::Left) => {
            match (h_placement, v_placement) {
                (HPlacement::Right, VPlacement::Below) | (HPlacement::Right, VPlacement::Above) | (HPlacement::Right, VPlacement::Level) => {
                    points = s_shapes(start, start_off, end, end_off, available_space_x);
                }
                (HPlacement::Level, VPlacement::Below) | (HPlacement::Left, VPlacement::Below) | (HPlacement::Left, VPlacement::Level) | (HPlacement::Level, VPlacement::Above) | (HPlacement::Left, VPlacement::Above) => {
                    points = sideways_s_shapes_y(start, start_off, end, end_off, available_space_y);
                }
                _ => {}
            }
        },
        (Side::Right, Side::Top) => {
            match (h_placement, v_placement) {
                (HPlacement::Right, VPlacement::Below) => {
                    points = corner_shapes_1(start, start_off, end, end_off);
                }
                (HPlacement::Right, VPlacement::Above) | (HPlacement::Right, VPlacement::Level) => {
                    points = sideways_s_shapes_x(start, start_off, end, end_off, available_space_x);
                }
                (HPlacement::Level, VPlacement::Below) | (HPlacement::Left, VPlacement::Below) => {
                    points = sideways_s_shapes_y(start, start_off, end, end_off, available_space_y);
                }
                (HPlacement::Level, VPlacement::Above) | (HPlacement::Left, VPlacement::Above) | (HPlacement::Left, VPlacement::Level) => {
                    points = corner_shapes_2(start, start_off, end, end_off);
                }
                _ => {}
            }
        },
        (Side::Right, Side::Bottom) => {
            match (h_placement, v_placement) {
                (HPlacement::Right, VPlacement::Below) | (HPlacement::Right, VPlacement::Level) => {
                    points = s_shapes(start, start_off, end, end_off, available_space_x);
                }
                (HPlacement::Right, VPlacement::Above) => {
                    points = corner_shapes_1(start, start_off, end, end_off);
                }
                (HPlacement::Level, VPlacement::Below) | (HPlacement::Left, VPlacement::Below) | (HPlacement::Level, VPlacement::Above) | (HPlacement::Left, VPlacement::Above) | (HPlacement::Left, VPlacement::Level) => {
                    points = corner_shapes_2(start, start_off, end, end_off);
                }
                _ => {}
            }
        },
        (Side::Left, Side::Right) => {
            match (h_placement, v_placement) {
                (HPlacement::Right, VPlacement::Below) | (HPlacement::Right, VPlacement::Above) | (HPlacement::Right, VPlacement::Level) | (HPlacement::Level, VPlacement::Below) | (HPlacement::Level, VPlacement::Above) => {
                    points = sideways_s_shapes_y(start, start_off, end, end_off, available_space_y);
                }
                (HPlacement::Left, VPlacement::Below) | (HPlacement::Left, VPlacement::Above) | (HPlacement::Left, VPlacement::Level) => {
                    points = sideways_s_shapes_x(start, start_off, end, end_off, available_space_x);
                }
                _ => {}
            }
        },
        (Side::Left, Side::Left) => {
            match (h_placement, v_placement) {
                (HPlacement::Right, VPlacement::Below) | (HPlacement::Right, VPlacement::Above) | (HPlacement::Right, VPlacement::Level) | (HPlacement::Level, VPlacement::Below) | (HPlacement::Left, VPlacement::Below) | (HPlacement::Level, VPlacement::Above) | (HPlacement::Left, VPlacement::Above) | (HPlacement::Left, VPlacement::Level) => {
                    points = c_shape(start, start_off, end, end_off);
                }
                _ => {}
            }
        },
        (Side::Left, Side::Top) => {
            match (h_placement, v_placement) {
                (HPlacement::Right, VPlacement::Below) | (HPlacement::Level, VPlacement::Below) => {
                    points = sideways_s_shapes_y(start, start_off, end, end_off, available_space_y);
                }
                (HPlacement::Right, VPlacement::Above) | (HPlacement::Right, VPlacement::Level) => {
                    points = c_shape(start, start_off, end, end_off);
                }
                (HPlacement::Left, VPlacement::Below) => {
                    points = corner_shapes_1(start, start_off, end, end_off);
                }
                (HPlacement::Level, VPlacement::Above) | (HPlacement::Left, VPlacement::Above) | (HPlacement::Left, VPlacement::Level) => {
                    points = corner_shapes_2(start, start_off, end, end_off);
                }
                _ => {}
            }
        },
        (Side::Left, Side::Bottom) => {
            match (h_placement, v_placement) {
                (HPlacement::Right, VPlacement::Below) | (HPlacement::Right, VPlacement::Above) | (HPlacement::Right, VPlacement::Level) | (HPlacement::Level, VPlacement::Below) | (HPlacement::Left, VPlacement::Below) | (HPlacement::Level, VPlacement::Above) | (HPlacement::Left, VPlacement::Level) => {
                    points = corner_shapes_2(start, start_off, end, end_off);
                }
                (HPlacement::Left, VPlacement::Above) => {
                    points = corner_shapes_1(start, start_off, end, end_off);
                }
                _ => {}
            }
        },
        (Side::Top, Side::Right) => {
            match (h_placement, v_placement) {
                (HPlacement::Right, VPlacement::Below) | (HPlacement::Right, VPlacement::Above) | (HPlacement::Right, VPlacement::Level) | (HPlacement::Level, VPlacement::Below) | (HPlacement::Left, VPlacement::Below) | (HPlacement::Level, VPlacement::Above) | (HPlacement::Left, VPlacement::Level) => {
                    points = corner_shapes_1(start, start_off, end, end_off);
                }
                (HPlacement::Left, VPlacement::Above) => {
                    points = corner_shapes_2(start, start_off, end, end_off);
                }
                _ => {}
            }
        },
        (Side::Top, Side::Left) => {
            match (h_placement, v_placement) {
                (HPlacement::Right, VPlacement::Below) | (HPlacement::Right, VPlacement::Level) | (HPlacement::Level, VPlacement::Below) | (HPlacement::Left, VPlacement::Below) | (HPlacement::Level, VPlacement::Above) | (HPlacement::Left, VPlacement::Above) | (HPlacement::Left, VPlacement::Level) => {
                    points = corner_shapes_1(start, start_off, end, end_off);
                }
                (HPlacement::Right, VPlacement::Above) => {
                    points = corner_shapes_2(start, start_off, end, end_off);
                }
                _ => {}
            }
        },
        (Side::Top, Side::Top) => {
            match (h_placement, v_placement) {
                (HPlacement::Right, VPlacement::Below) | (HPlacement::Right, VPlacement::Level) | (HPlacement::Right, VPlacement::Above) | (HPlacement::Level, VPlacement::Below) | (HPlacement::Left, VPlacement::Below) | (HPlacement::Level, VPlacement::Above) | (HPlacement::Left, VPlacement::Above) | (HPlacement::Left, VPlacement::Level) => {
                    points = upside_down_u_shapes(start, start_off, end, end_off);
                }
                _ => {}
            }
        },
        (Side::Top, Side::Bottom) => {
            match (h_placement, v_placement) {
                (HPlacement::Right, VPlacement::Below) | (HPlacement::Right, VPlacement::Level) | (HPlacement::Level, VPlacement::Below) | (HPlacement::Left, VPlacement::Below) | (HPlacement::Left, VPlacement::Level) => {
                    points = s_shapes(start, start_off, end, end_off, available_space_x);
                }
                (HPlacement::Right, VPlacement::Above) | (HPlacement::Level, VPlacement::Above) | (HPlacement::Left, VPlacement::Above) => {
                    points = corner_shapes_1(start, start_off, end, end_off);
                }
                _ => {}
            }
        },
        (Side::Bottom, Side::Right) => {
            match (h_placement, v_placement) {
                (HPlacement::Right, VPlacement::Below) | (HPlacement::Level, VPlacement::Below) => {
                    points = sideways_s_shapes_y(start, start_off, end, end_off, available_space_y);
                }
                (HPlacement::Right, VPlacement::Above) | (HPlacement::Right, VPlacement::Level) | (HPlacement::Level, VPlacement::Above) | (HPlacement::Left, VPlacement::Above) | (HPlacement::Left, VPlacement::Level) => {
                    points = corner_shapes_1(start, start_off, end, end_off);
                }
                (HPlacement::Left, VPlacement::Below) => {
                    points = corner_shapes_2(start, start_off, end, end_off);
                }
                _ => {}
            }
        },
        (Side::Bottom, Side::Left) => {
            match (h_placement, v_placement) {
                (HPlacement::Right, VPlacement::Below) => {
                    points = corner_shapes_2(start, start_off, end, end_off);
                }
                (HPlacement::Right, VPlacement::Above) | (HPlacement::Right, VPlacement::Level) | (HPlacement::Level, VPlacement::Below) | (HPlacement::Left, VPlacement::Below) | (HPlacement::Level, VPlacement::Above) | (HPlacement::Left, VPlacement::Above) | (HPlacement::Left, VPlacement::Level) => {
                    points = corner_shapes_1(start, start_off, end, end_off);
                }
                _ => {}
            }
        },
        (Side::Bottom, Side::Top) => {
            match (h_placement, v_placement) {
                (HPlacement::Right, VPlacement::Below) | (HPlacement::Level, VPlacement::Below) | (HPlacement::Left, VPlacement::Below) => {
                    points = sideways_s_shapes_y(start, start_off, end, end_off, available_space_y);
                }
                (HPlacement::Right, VPlacement::Above) | (HPlacement::Right, VPlacement::Level) | (HPlacement::Level, VPlacement::Above) | (HPlacement::Left, VPlacement::Above) | (HPlacement::Left, VPlacement::Level) => {
                    points = sideways_s_shapes_x(start, start_off, end, end_off, available_space_x);
                }
                _ => {}
            }
        },
        (Side::Bottom, Side::Bottom) => {
            match (h_placement, v_placement) {
                (HPlacement::Right, VPlacement::Below) | (HPlacement::Right, VPlacement::Above) | (HPlacement::Right, VPlacement::Level) | (HPlacement::Level, VPlacement::Below) | (HPlacement::Left, VPlacement::Below) | (HPlacement::Level, VPlacement::Above) | (HPlacement::Left, VPlacement::Above) | (HPlacement::Left, VPlacement::Level) => {
                    points = u_shapes(start, start_off, end, end_off);
                }
                _ => {}
            }
        },
    }

    points
}

/// Each segment of a line of any shape is horizontal or vertical, as long as
/// the offsets lie on the axis lines of their anchors.
pub open spec fn is_orthogonal(pts: Seq<Point>) -> bool {
    forall|i: int| 0 <= i < pts.len() - 1 ==> (#[trigger] pts[i]).x == pts[i + 1].x || pts[i].y
        == pts[i + 1].y
}

/// Each segment of a line of any shape is horizontal or vertical when each
/// offset shares an axis line with its anchor.
proof fn lemma_shape_orthogonal(shape: PathShape, start: Point, so: Point, end: Point, eo: Point)
    requires
        so.x == start.x || so.y == start.y,
        eo.x == end.x || eo.y == end.y,
    ensures
        is_orthogonal(shape_points(shape, start, so, end, eo)),
{
    let pts = shape_points(shape, start, so, end, eo);
    assert forall|i: int| 0 <= i < pts.len() - 1 implies (#[trigger] pts[i]).x == pts[i + 1].x
        || pts[i].y == pts[i + 1].y by {
        match shape {
            PathShape::Corner1 | PathShape::Corner2 => {
                assert(pts.len() == 5);
            },
            _ => {
                assert(pts.len() == 6);
            },
        }
    }
}

/// Law: every routed connection line is made of horizontal and vertical
/// segments only (lines are drawn with box-drawing characters).
pub proof fn lemma_path_is_orthogonal(start: Point, start_side: Side, end: Point, end_side: Side)
    ensures
        is_orthogonal(spec_path(start, start_side, end, end_side)),
{
    let so = spec_offset_point(start, start_side);
    let eo = spec_offset_point(end, end_side);
    match route(
        start_side,
        end_side,
        spec_h_placement(end.x - start.x),
        spec_v_placement(end.y - start.y),
    ) {
        Some(shape) => lemma_shape_orthogonal(shape, start, so, end, eo),
        None => {},
    }
}

/// Law: a line is drawn between two connection points exactly when they are
/// not level on both axes (at least 4 cells apart horizontally or vertically),
/// whatever the two sides.
pub proof fn lemma_path_exists_unless_level(start: Point, start_side: Side, end: Point, end_side: Side)
    ensures
        (spec_path(start, start_side, end, end_side).len() == 0) <==> (-4 < end.x - start.x < 4
            && -4 < end.y - start.y < 4),
{
}

/// Law: a routed line starts at the start anchor, leaves it through the
/// point 2 cells outward of the start side, enters the end anchor through the
/// point 2 cells outward of the end side, and ends at the end anchor.
pub proof fn lemma_path_endpoints(start: Point, start_side: Side, end: Point, end_side: Side)
    ensures
        ({
            let pts = spec_path(start, start_side, end, end_side);
            pts.len() > 0 ==> {
                &&& pts.len() >= 5
                &&& pts[0] == start
                &&& pts[1] == spec_offset_point(start, start_side)
                &&& pts[pts.len() - 2] == spec_offset_point(end, end_side)
                &&& pts[pts.len() - 1] == end
            }
        }),
{
}

/// Law: the clipped part of a non-empty rectangle lies inside both the
/// rectangle and the (non-empty) view, and has a positive area.
pub proof fn lemma_intersection_inside(a: SignedRect, b: SignedRect)
    requires
        a.width > 0 && a.height > 0,
        b.width > 0 && b.height > 0,
        rects_overlap(a, b),
        rect_fits(a),
        rect_fits(b),
    ensures
        ({
            let i = spec_intersection(a, b);
            &&& i.width > 0 && i.height > 0
            &&& a.x <= i.x && i.x + i.width <= a.x + a.width
            &&& b.x <= i.x && i.x + i.width <= b.x + b.width
            &&& a.y <= i.y && i.y + i.height <= a.y + a.height
            &&& b.y <= i.y && i.y + i.height <= b.y + b.height
        }),
{
    let x = max_int(a.x as int, b.x as int);
    let y = max_int(a.y as int, b.y as int);
    let xe = min_int(a.x + a.width, b.x + b.width);
    let ye = min_int(a.y + a.height, b.y + b.height);
    assert(x < xe && xe - x <= a.width);
    assert(y < ye && ye - y <= a.height);
    assert(isize::MIN <= x <= isize::MAX);
    assert(isize::MIN <= y <= isize::MAX);
}

/// Law: clipping is symmetric: clipping `a` to `b` gives what clipping `b` to `a` gives.
pub proof fn lemma_intersection_symmetric(a: SignedRect, b: SignedRect)
    ensures
        rects_overlap(a, b) == rects_overlap(b, a),
        spec_intersection(a, b) == spec_intersection(b, a),
{
}

/// A point moved by (`a`, `b`).
pub open spec fn translated(p: Point, a: int, b: int) -> Point {
    Point { x: (p.x + a) as isize, y: (p.y + b) as isize }
}

/// Law: moving both connection points by the same amount moves the whole
/// routed line by that amount and leaves its shape as it was.
pub proof fn lemma_path_translation(start: Point, start_side: Side, end: Point, end_side: Side, a: int, b: int)
    requires
        point_in_range(start),
        point_in_range(end),
        coord_in_range(start.x + a),
        coord_in_range(start.y + b),
        coord_in_range(end.x + a),
        coord_in_range(end.y + b),
    ensures
        spec_path(translated(start, a, b), start_side, translated(end, a, b), end_side) == spec_path(
            start,
            start_side,
            end,
            end_side,
        ).map_values(|p: Point| translated(p, a, b)),
{
    let ts = translated(start, a, b);
    let te = translated(end, a, b);
    let so = spec_offset_point(start, start_side);
    let eo = spec_offset_point(end, end_side);
    assert(spec_offset_point(ts, start_side) == translated(so, a, b));
    assert(spec_offset_point(te, end_side) == translated(eo, a, b));
    assert(te.x - ts.x == end.x - start.x);
    assert(te.y - ts.y == end.y - start.y);
    match route(start_side, end_side, spec_h_placement(end.x - start.x), spec_v_placement(end.y - start.y)) {
        Some(shape) => {
            let p = shape_points(shape, start, so, end, eo);
            let q = shape_points(shape, ts, translated(so, a, b), te, translated(eo, a, b));
            assert(q =~= p.map_values(|pt: Point| translated(pt, a, b)));
        },
        None => {
            assert(Seq::<Point>::empty().map_values(|pt: Point| translated(pt, a, b)) =~= Seq::<Point>::empty());
        },
    }
}

/// Law: a line between the Left sides of two notes goes out to the left of
/// both: its two bends lie at or left of both points 2 cells out of the
/// notes, the vertical leg running at the leftmost of them.
pub proof fn lemma_left_left_stays_left(start: Point, end: Point)
    requires
        point_in_range(start),
        point_in_range(end),
    ensures
        ({
            let pts = spec_path(start, Side::Left, end, Side::Left);
            let leftmost = if start.x <= end.x { start.x - 2 } else { end.x - 2 };
            pts.len() > 0 ==> {
                &&& pts.len() == 6
                &&& forall|i: int| 2 <= i <= 3 ==> (#[trigger] pts[i]).x <= start.x - 2 && pts[i].x
                    <= end.x - 2
                &&& pts[2].x == leftmost
                &&& pts[3].x == leftmost
                &&& pts[2].y == start.y
                &&& pts[3].y == end.y
            }
        }),
{
}

/// Law: a line between the Right sides of two notes goes out to the right
/// of both, its vertical leg at the rightmost of the two points 2 cells out.
pub proof fn lemma_right_right_stays_right(start: Point, end: Point)
    requires
        point_in_range(start),
        point_in_range(end),
    ensures
        ({
            let pts = spec_path(start, Side::Right, end, Side::Right);
            let rightmost = if start.x >= end.x { start.x + 2 } else { end.x + 2 };
            pts.len() > 0 ==> {
                &&& pts.len() == 6
                &&& forall|i: int| 2 <= i <= 3 ==> (#[trigger] pts[i]).x >= start.x + 2 && pts[i].x
                    >= end.x + 2
                &&& pts[2].x == rightmost
                &&& pts[3].x == rightmost
                &&& pts[2].y == start.y
                &&& pts[3].y == end.y
            }
        }),
{
    let so = spec_offset_point(start, Side::Right);
    let eo = spec_offset_point(end, Side::Right);
    let pts = spec_path(start, Side::Right, end, Side::Right);
    if pts.len() > 0 {
        assert(pts == shape_points(PathShape::ReverseC, start, so, end, eo));
    }
}

/// Law: a line between the Top sides of two notes goes out above both, its
/// horizontal leg at the topmost of the two points 2 cells out.
pub proof fn lemma_top_top_stays_above(start: Point, end: Point)
    requires
        point_in_range(start),
        point_in_range(end),
    ensures
        ({
            let pts = spec_path(start, Side::Top, end, Side::Top);
            let topmost = if start.y <= end.y { start.y - 2 } else { end.y - 2 };
            pts.len() > 0 ==> {
                &&& pts.len() == 6
                &&& forall|i: int| 2 <= i <= 3 ==> (#[trigger] pts[i]).y <= start.y - 2 && pts[i].y
                    <= end.y - 2
                &&& pts[2].y == topmost
                &&& pts[3].y == topmost
                &&& pts[2].x == start.x
                &&& pts[3].x == end.x
            }
        }),
{
    let so = spec_offset_point(start, Side::Top);
    let eo = spec_offset_point(end, Side::Top);
    let pts = spec_path(start, Side::Top, end, Side::Top);
    if pts.len() > 0 {
        assert(pts == shape_points(PathShape::UpsideDownU, start, so, end, eo));
    }
}

/// Law: a line between the Bottom sides of two notes goes out below both,
/// its horizontal leg at the lowest of the two points 2 cells out.
pub proof fn lemma_bottom_bottom_stays_below(start: Point, end: Point)
    requires
        point_in_range(start),
        point_in_range(end),
    ensures
        ({
            let pts = spec_path(start, Side::Bottom, end, Side::Bottom);
            let lowest = if start.y >= end.y { start.y + 2 } else { end.y + 2 };
            pts.len() > 0 ==> {
                &&& pts.len() == 6
                &&& forall|i: int| 2 <= i <= 3 ==> (#[trigger] pts[i]).y >= start.y + 2 && pts[i].y
                    >= end.y + 2
                &&& pts[2].y == lowest
                &&& pts[3].y == lowest
                &&& pts[2].x == start.x
                &&& pts[3].x == end.x
            }
        }),
{
    let so = spec_offset_point(start, Side::Bottom);
    let eo = spec_offset_point(end, Side::Bottom);
    let pts = spec_path(start, Side::Bottom, end, Side::Bottom);
    if pts.len() > 0 {
        assert(pts == shape_points(PathShape::U, start, so, end, eo));
    }
}

/// Law: a line from a Right side to a Left side further right crosses over
/// halfway: its vertical leg lies strictly between the two notes' points, at
/// the middle of them (to within one cell), and its ends run level out of the notes.
pub proof fn lemma_right_left_crosses_halfway(start: Point, end: Point)
    requires
        point_in_range(start),
        point_in_range(end),
        end.x - start.x >= 4,
    ensures
        ({
            let pts = spec_path(start, Side::Right, end, Side::Left);
            &&& pts.len() == 6
            &&& pts[2].x == pts[3].x
            &&& start.x < pts[2].x < end.x
            &&& -1 <= 2 * pts[2].x - (start.x + end.x) <= 1
            &&& pts[2].y == start.y
            &&& pts[3].y == end.y
        }),
{
    let so = spec_offset_point(start, Side::Right);
    let eo = spec_offset_point(end, Side::Left);
    assert(spec_h_placement(end.x - start.x) == HPlacement::Right);
    assert(spec_path(start, Side::Right, end, Side::Left) == shape_points(PathShape::S, start, so, end, eo));
}

/// The segments a→b and b→c run along the same axis in opposite directions:
/// the line doubles back on itself at b.
pub open spec fn doubles_back(a: Point, b: Point, c: Point) -> bool {
    ||| a.y == b.y && b.y == c.y && ((a.x < b.x && c.x < b.x) || (a.x > b.x && c.x > b.x))
    ||| a.x == b.x && b.x == c.x && ((a.y < b.y && c.y < b.y) || (a.y > b.y && c.y > b.y))
}

/// Law: a routed line never doubles back on itself: no segment is followed
/// by one running back along it, whatever the two sides and the placement
/// of the notes.
pub proof fn lemma_path_never_doubles_back(start: Point, start_side: Side, end: Point, end_side: Side)
    requires
        point_in_range(start),
        point_in_range(end),
    ensures
        ({
            let pts = spec_path(start, start_side, end, end_side);
            forall|i: int| 0 <= i < pts.len() - 2 ==> !doubles_back(#[trigger] pts[i], pts[i + 1], pts[i + 2])
        }),
{
    let so = spec_offset_point(start, start_side);
    let eo = spec_offset_point(end, end_side);
    let pts = spec_path(start, start_side, end, end_side);
    match route(start_side, end_side, spec_h_placement(end.x - start.x), spec_v_placement(end.y - start.y)) {
        Some(shape) => {
            assert(pts == shape_points(shape, start, so, end, eo));
            assert forall|i: int| 0 <= i < pts.len() - 2 implies !doubles_back(#[trigger] pts[i], pts[i + 1], pts[i + 2]) by {
            }
        },
        None => {},
    }
}

/// Law: the offset point lies 2 cells straight out of the side: two cells
/// further in the side's direction (right, left, up or down), on the same
/// row for Left and Right and the same column for Top and Bottom.
pub proof fn lemma_offset_two_cells_out(p: Point, side: Side)
    requires
        offset_room(p),
    ensures
        ({
            let o = spec_offset_point(p, side);
            &&& (side == Side::Left || side == Side::Right) ==> o.y == p.y
            &&& (side == Side::Top || side == Side::Bottom) ==> o.x == p.x
            &&& side == Side::Right ==> o.x - p.x == 2
            &&& side == Side::Left ==> p.x - o.x == 2
            &&& side == Side::Top ==> p.y - o.y == 2
            &&& side == Side::Bottom ==> o.y - p.y == 2
        }),
{
}

} // verus!
