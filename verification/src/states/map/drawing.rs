//! What the map screen draws, decided apart from the drawing itself: the
//! direction of each segment of a connection line, the glyph at each of its
//! corners, the junction glyph where a line meets a note, which part of a
//! note shows on the screen and which of its borders, the frame a note is
//! drawn with, and where the text cursor stands inside a note.

use vstd::prelude::*;
use vstd::string::*;

use crate::graph::geometry::{rect_fits, rects_overlap, spec_intersection};
use crate::graph::{Point, Side, SignedRect};
use crate::color::Color;
use crate::states::map::{Connection, Mode};

verus! {

/// Which direction a segment of a connection line goes.
#[derive(PartialEq, Eq, Debug, Clone, Copy, Structural)]
pub enum SegDir {
    Right,
    Left,
    Up,
    Down,
}

/// The direction of the segment from `a` to `b`, if they differ.
pub open spec fn seg_dir(a: Point, b: Point) -> Option<SegDir> {
    if a.x != b.x {
        if b.x > a.x {
            Some(SegDir::Right)
        } else {
            Some(SegDir::Left)
        }
    } else if a.y != b.y {
        if b.y > a.y {
            Some(SegDir::Down)
        } else {
            Some(SegDir::Up)
        }
    } else {
        None
    }
}

/// The directions of the segments of a path, from its first `n` points: a
/// segment of zero length repeats the direction before it (and is skipped
/// when there is none).
pub open spec fn segment_dirs(path: Seq<Point>, n: int) -> Seq<SegDir>
    decreases n,
{
    if n <= 1 || n > path.len() {
        Seq::empty()
    } else {
        let prev = segment_dirs(path, n - 1);
        match seg_dir(path[n - 2], path[n - 1]) {
            Some(d) => prev.push(d),
            None => if prev.len() > 0 {
                prev.push(prev.last())
            } else {
                prev
            },
        }
    }
}

/// The directions of the segments of a path (see `segment_dirs`).
pub fn segment_directions(path: &Vec<Point>) -> (r: Vec<SegDir>)
    ensures
        r@ == segment_dirs(path@, path@.len() as int),
{
    let mut r: Vec<SegDir> = Vec::new();
    let mut i: usize = 1;
    while i < path.len()
        invariant
            1 <= i <= path@.len() || path@.len() == 0,
            r@ == segment_dirs(path@, i as int),
        decreases path@.len() - i,
    {
        let a = path[i - 1];
        let b = path[i];
        if a.x != b.x {
            if b.x > a.x {
                r.push(SegDir::Right);
            } else {
                r.push(SegDir::Left);
            }
        } else if a.y != b.y {
            if b.y > a.y {
                r.push(SegDir::Down);
            } else {
                r.push(SegDir::Up);
            }
        } else if r.len() > 0 {
            let last = r[r.len() - 1];
            r.push(last);
        }
        i = i + 1;
    }
    proof {
        if path@.len() == 0 {
            assert(r@ == segment_dirs(path@, 0));
        }
    }
    r
}

/// The glyph at a corner between an incoming and an outgoing segment, as an
/// index into a line charset (horizontal, vertical, ┌, ┐, └, ┘).
pub open spec fn spec_corner_index(incoming: SegDir, outgoing: SegDir) -> usize {
    match (incoming, outgoing) {
        (SegDir::Left, SegDir::Down) | (SegDir::Up, SegDir::Right) => 2,
        (SegDir::Right, SegDir::Down) | (SegDir::Up, SegDir::Left) => 3,
        (SegDir::Down, SegDir::Right) | (SegDir::Left, SegDir::Up) => 4,
        (SegDir::Down, SegDir::Left) | (SegDir::Right, SegDir::Up) => 5,
        (SegDir::Left, _) | (SegDir::Right, _) => 0,
        (SegDir::Up, _) | (SegDir::Down, _) => 1,
    }
}

/// The corner glyph between two segments (see `spec_corner_index`).
pub fn corner_index(incoming: SegDir, outgoing: SegDir) -> (r: usize)
    ensures
        r == spec_corner_index(incoming, outgoing),
        r < 6,
{
    match (incoming, outgoing) {
        (SegDir::Left, SegDir::Down) | (SegDir::Up, SegDir::Right) => 2,
        (SegDir::Right, SegDir::Down) | (SegDir::Up, SegDir::Left) => 3,
        (SegDir::Down, SegDir::Right) | (SegDir::Left, SegDir::Up) => 4,
        (SegDir::Down, SegDir::Left) | (SegDir::Right, SegDir::Up) => 5,
        (SegDir::Left, _) | (SegDir::Right, _) => 0,
        (SegDir::Up, _) | (SegDir::Down, _) => 1,
    }
}

/// The junction glyph where a line meets a note's side, as an index into a
/// junction charset (┴, ┬, ┤, ├).
pub fn junction_index(side: Side) -> (r: usize)
    ensures
        r == (match side {
            Side::Top => 0usize,
            Side::Bottom => 1usize,
            Side::Left => 2usize,
            Side::Right => 3usize,
        }),
{
    match side {
        Side::Top => 0,
        Side::Bottom => 1,
        Side::Left => 2,
        Side::Right => 3,
    }
}

/// The number of newlines among the first `n` characters.
pub open spec fn newlines_before(t: Seq<char>, n: int) -> int
    decreases n,
{
    if n <= 0 {
        0
    } else {
        newlines_before(t, n - 1) + if t[n - 1] == '\n' {
            1int
        } else {
            0int
        }
    }
}

/// The number of characters between the last newline before `n` and `n`.
pub open spec fn column_before(t: Seq<char>, n: int) -> int
    decreases n,
{
    if n <= 0 {
        0
    } else if t[n - 1] == '\n' {
        0
    } else {
        column_before(t, n - 1) + 1
    }
}

/// Where the cursor at character `cursor` stands in a note's text, as
/// (row, column): the newlines before it, and the characters since the last one.
pub fn cursor_row_col(text: &str, cursor: usize) -> (r: (usize, usize))
    requires
        cursor <= text@.len(),
    ensures
        r.0 == newlines_before(text@, cursor as int),
        r.1 == column_before(text@, cursor as int),
{
    let mut row: usize = 0;
    let mut col: usize = 0;
    let mut i: usize = 0;
    while i < cursor
        invariant
            i <= cursor <= text@.len(),
            row == newlines_before(text@, i as int),
            col == column_before(text@, i as int),
            row <= i,
            col <= i,
        decreases cursor - i,
    {
        if text.get_char(i) == '\n' {
            row = row + 1;
            col = 0;
        } else {
            col = col + 1;
        }
        i = i + 1;
    }
    (row, col)
}


/// The part of a note that shows on the screen, and how it is drawn there.
#[derive(PartialEq, Eq, Debug, Clone, Copy, Structural)]
pub struct NoteClip {
    /// The visible part, in screen coordinates.
    pub visible: SignedRect,
    /// How many columns of the note are cut off on the left.
    pub h_scroll: isize,
    /// How many rows of the note are cut off at the top.
    pub v_scroll: isize,
    /// Which borders remain: those of the sides that are not cut off.
    pub left: bool,
    pub right: bool,
    pub top: bool,
    pub bottom: bool,
}

/// Clips a note (in screen coordinates) to the screen: `None` when no cell
/// of it shows; otherwise the visible part, the columns and rows cut off on
/// the left and at the top, and which of its borders remain.
pub fn clip_note(note: &SignedRect, screen: &SignedRect) -> (r: Option<NoteClip>)
    requires
        rect_fits(*note),
        rect_fits(*screen),
    ensures
        r is None <==> !rects_overlap(*note, *screen),
        r matches Some(c) ==> {
            &&& c.visible == spec_intersection(*note, *screen)
            &&& c.h_scroll == c.visible.x - note.x
            &&& c.v_scroll == c.visible.y - note.y
            &&& c.h_scroll >= 0 && c.v_scroll >= 0
            &&& c.left == (note.x == c.visible.x)
            &&& c.right == (note.x + note.width == c.visible.x + c.visible.width)
            &&& c.top == (note.y == c.visible.y)
            &&& c.bottom == (note.y + note.height == c.visible.y + c.visible.height)
        },
{
    match note.intersection(screen) {
        None => None,
        Some(v) => Some(NoteClip {
            visible: v,
            h_scroll: v.x - note.x,
            v_scroll: v.y - note.y,
            left: note.x == v.x,
            right: note.x + note.width == v.x + v.width,
            top: note.y == v.y,
            bottom: note.y + note.height == v.y + v.height,
        }),
    }
}

/// The frame a note is drawn with.
#[derive(PartialEq, Eq, Debug, Clone, Copy, Structural)]
pub enum NoteFrame {
    /// Not selected: a plain border in the note's own color.
    Unselected,
    /// Selected in normal mode.
    Selected,
    /// Selected for deletion.
    Deleting,
    /// Being edited.
    Editing,
    /// Selected in a visual mode.
    Visual,
}

/// The frame of a note: by the mode, where the note is selected.
pub fn note_frame(selected: bool, mode: Mode) -> (r: NoteFrame)
    ensures
        r == (if !selected {
            NoteFrame::Unselected
        } else {
            match mode {
                Mode::Normal => NoteFrame::Selected,
                Mode::Delete => NoteFrame::Deleting,
                Mode::Edit | Mode::EditNormal | Mode::EditInsert => NoteFrame::Editing,
                _ => NoteFrame::Visual,
            }
        }),
{
    if !selected {
        NoteFrame::Unselected
    } else {
        match mode {
            Mode::Normal => NoteFrame::Selected,
            Mode::Delete => NoteFrame::Deleting,
            Mode::Edit | Mode::EditNormal | Mode::EditInsert => NoteFrame::Editing,
            _ => NoteFrame::Visual,
        }
    }
}

/// The screen cell of the text cursor at (`row`, `col`) of a note's text,
/// when the note's visible part starts at (`area_x`, `area_y`), is
/// `area_height` rows high and has `h_scroll` columns and `v_scroll` rows cut
/// off: inside the border, shifted by the scroll. `None` when its row is
/// scrolled away above or lies below the visible rows (the height less the
/// two borders), or its column is scrolled away to the left.
pub fn cursor_cell(
    area_x: u16,
    area_y: u16,
    area_height: u16,
    row: usize,
    col: usize,
    h_scroll: u16,
    v_scroll: u16,
) -> (r: Option<(usize, usize)>)
    requires
        row <= usize::MAX - 65536,
        col <= usize::MAX - 65536,
    ensures
        r == (if row >= v_scroll && row + 2 <= (if area_height >= 2 { area_height as int } else { 2 })
            && area_x + 1 + col >= h_scroll {
            Some(((area_x + 1 + col - h_scroll) as usize, (area_y + 1 + row - v_scroll) as usize))
        } else {
            None
        }),
{
    let visible_rows: usize = if area_height >= 2 {
        (area_height - 2) as usize
    } else {
        0
    };
    let x_from = area_x as usize + 1 + col;
    if row >= v_scroll as usize && row <= visible_rows && x_from >= h_scroll as usize {
        Some((x_from - h_scroll as usize, area_y as usize + 1 + row - v_scroll as usize))
    } else {
        None
    }
}


/// The glyph set of the junctions where lines meet a note.
#[derive(PartialEq, Eq, Debug, Clone, Copy, Structural)]
pub enum JunctionSet {
    Plain,
    Thick,
    Double,
}

/// The junction glyphs of a note: thick in the visual modes and double in
/// the edit modes where the note is selected (or the line is being drawn),
/// plain otherwise.
pub fn junction_set(highlighted: bool, mode: Mode) -> (r: JunctionSet)
    ensures
        r == (if !highlighted {
            JunctionSet::Plain
        } else {
            match mode {
                Mode::Visual | Mode::VisualMove | Mode::VisualConnect => JunctionSet::Thick,
                Mode::Edit | Mode::EditNormal | Mode::EditInsert => JunctionSet::Double,
                _ => JunctionSet::Plain,
            }
        }),
{
    if !highlighted {
        JunctionSet::Plain
    } else {
        match mode {
            Mode::Visual | Mode::VisualMove | Mode::VisualConnect => JunctionSet::Thick,
            Mode::Edit | Mode::EditNormal | Mode::EditInsert => JunctionSet::Double,
            _ => JunctionSet::Plain,
        }
    }
}

/// The side of note `note_id` where the connection meets it: its start side
/// where it starts there, else its end side (the start side where it has none).
pub fn meeting_side(c: &Connection, note_id: usize) -> (r: Side)
    ensures
        r == (if c.from_id == note_id {
            c.from_side
        } else {
            match c.to_side {
                Some(s) => s,
                None => c.from_side,
            }
        }),
{
    if c.from_id == note_id {
        c.from_side
    } else {
        match c.to_side {
            Some(s) => s,
            None => c.from_side,
        }
    }
}

/// A point of the map shows on a screen of `width` by `height` cells whose
/// top-left corner is the map position (`vx`, `vy`).
pub open spec fn point_on_screen(p: Point, vx: usize, vy: usize, width: usize, height: usize) -> bool {
    &&& vx <= p.x < vx + width
    &&& vy <= p.y < vy + height
}

/// Whether any point of a line shows on the screen.
pub fn line_on_screen(path: &Vec<Point>, vx: usize, vy: usize, width: u16, height: u16) -> (r: bool)
    ensures
        r == exists|i: int| 0 <= i < path@.len() && point_on_screen(#[trigger] path@[i], vx, vy, width as usize, height as usize),
{
    let mut i: usize = 0;
    while i < path.len()
        invariant
            i <= path@.len(),
            forall|j: int| 0 <= j < i ==> !point_on_screen(#[trigger] path@[j], vx, vy, width as usize, height as usize),
        decreases path@.len() - i,
    {
        let p = path[i];
        let x = p.x as i128 - vx as i128;
        let y = p.y as i128 - vy as i128;
        if x >= 0 && x < width as i128 && y >= 0 && y < height as i128 {
            assert(point_on_screen(path@[i as int], vx, vy, width as usize, height as usize));
            return true;
        }
        i = i + 1;
    }
    false
}

/// The color the bottom bar shows in a visual mode: that of the connection
/// being drawn, while a note is selected; else that of the selected note.
#[derive(PartialEq, Eq, Debug, Clone, Copy, Structural)]
pub enum ShownColor {
    Connection(Color),
    Note(Color),
}

pub fn shown_color(focused: Option<Color>, selected: Option<Color>) -> (r: Option<ShownColor>)
    ensures
        r == (match (focused, selected) {
            (Some(c), Some(_)) => Some(ShownColor::Connection(c)),
            (None, Some(c)) => Some(ShownColor::Note(c)),
            _ => None,
        }),
{
    match (focused, selected) {
        (Some(c), Some(_)) => Some(ShownColor::Connection(c)),
        (None, Some(c)) => Some(ShownColor::Note(c)),
        _ => None,
    }
}

} // verus!
