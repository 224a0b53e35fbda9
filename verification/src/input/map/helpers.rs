use vstd::prelude::*;
use vstd::std_specs::iter::IteratorSpec;

use crate::color::Color;
use crate::graph::{NodeLayout, Side};
use crate::states::map::{
    moved_to_back, with_selected, without_first, MapState, Mode, Note, PersistenceState, ViewPos,
};
use crate::text::str_eq;

verus! {

broadcast use vstd::std_specs::hash::group_hash_axioms;

/// The help page after `p` (1→2→3→4→5→1).
pub open spec fn next_help_page(p: usize) -> usize {
    if p == 5 {
        1
    } else {
        (p + 1) as usize
    }
}

/// The help page before `p` (1→5→4→3→2→1).
pub open spec fn previous_help_page(p: usize) -> usize {
    if p == 1 {
        5
    } else {
        (p - 1) as usize
    }
}

/// The help screen, where shown, is on one of its five pages.
pub open spec fn help_page_valid(h: Option<usize>) -> bool {
    h matches Some(p) ==> 1 <= p <= 5
}

/// Cycles to the next help page (1→2→3→4→5→1), when the help is shown.
pub fn help_next_page(map_state: &mut MapState)
    requires
        help_page_valid(old(map_state).ui_state.help_screen),
    ensures
        *final(map_state) == (MapState {
            ui_state: crate::states::map::UIState {
                help_screen: match old(map_state).ui_state.help_screen {
                    Some(p) => Some(next_help_page(p)),
                    None => None,
                },
                ..old(map_state).ui_state
            },
            ..*old(map_state)
        }),
{
    if let Some(current_page) = map_state.ui_state.help_screen {
        map_state.ui_state.help_screen = Some(if current_page == 5 { 1 } else { current_page + 1 });
    }
}

/// Cycles to the previous help page (1→5→4→3→2→1), when the help is shown.
pub fn help_previous_page(map_state: &mut MapState)
    requires
        help_page_valid(old(map_state).ui_state.help_screen),
    ensures
        *final(map_state) == (MapState {
            ui_state: crate::states::map::UIState {
                help_screen: match old(map_state).ui_state.help_screen {
                    Some(p) => Some(previous_help_page(p)),
                    None => None,
                },
                ..old(map_state).ui_state
            },
            ..*old(map_state)
        }),
{
    if let Some(current_page) = map_state.ui_state.help_screen {
        map_state.ui_state.help_screen = Some(if current_page == 1 { 5 } else { current_page - 1 });
    }
}

/// Going a help page forward and back returns to the same page.
pub proof fn lemma_help_pages_inverse(p: usize)
    requires
        1 <= p <= 5,
    ensures
        previous_help_page(next_help_page(p)) == p,
        next_help_page(previous_help_page(p)) == p,
        1 <= next_help_page(p) <= 5,
        1 <= previous_help_page(p) <= 5,
{
}

/// `v` moved by `amount`: forward as given, backward saturating at 0.
pub open spec fn moved(v: usize, amount: isize) -> int {
    if amount > 0 {
        v + amount
    } else if v >= -amount {
        v + amount
    } else {
        0
    }
}

/// Moving `v` by `amount` stays within `usize`, and `amount` has a magnitude.
pub open spec fn move_fits(v: usize, amount: isize) -> bool {
    amount != isize::MIN && (amount > 0 ==> v + amount <= usize::MAX)
}

/// `v` moved by `amount`, saturating at 0 backward.
fn move_by(v: usize, amount: isize) -> (r: usize)
    requires
        move_fits(v, amount),
    ensures
        r as int == moved(v, amount),
{
    if amount > 0 {
        v + amount as usize
    } else {
        let back = (-amount) as usize;
        if v >= back {
            v - back
        } else {
            0
        }
    }
}

/// The axis named "x" or "y".
pub open spec fn is_x(axis: Seq<char>) -> bool {
    axis == "x"@
}

pub open spec fn is_y(axis: Seq<char>) -> bool {
    axis == "y"@
}

/// Moves the viewport by `amount` along the x or y axis (backward
/// saturating at 0); any other axis name leaves it. The map counts as
/// changed either way.
pub fn move_viewport(map_state: &mut MapState, axis: &str, amount: isize)
    requires
        is_x(axis@) ==> move_fits(old(map_state).viewport.view_pos.x, amount),
        is_y(axis@) ==> move_fits(old(map_state).viewport.view_pos.y, amount),
    ensures
        final(map_state).viewport.view_pos.x == (if is_x(axis@) {
            moved(old(map_state).viewport.view_pos.x, amount)
        } else {
            old(map_state).viewport.view_pos.x as int
        }),
        final(map_state).viewport.view_pos.y == (if is_y(axis@) {
            moved(old(map_state).viewport.view_pos.y, amount)
        } else {
            old(map_state).viewport.view_pos.y as int
        }),
        final(map_state).viewport.screen_width == old(map_state).viewport.screen_width,
        final(map_state).viewport.screen_height == old(map_state).viewport.screen_height,
        final(map_state).persistence == (PersistenceState { can_exit: false, ..old(map_state).persistence }),
        final(map_state).current_mode == old(map_state).current_mode,
        final(map_state).notes_state == old(map_state).notes_state,
        final(map_state).connections_state == old(map_state).connections_state,
        final(map_state).ui_state == old(map_state).ui_state,
        final(map_state).settings == old(map_state).settings,
        final(map_state).settings_err_msg == old(map_state).settings_err_msg,
{
    proof {
        reveal_strlit("x");
        reveal_strlit("y");
        assert("x"@[0] != "y"@[0]);
    }
    if str_eq(axis, "x") {
        map_state.viewport.view_pos.x = move_by(map_state.viewport.view_pos.x, amount);
    } else if str_eq(axis, "y") {
        map_state.viewport.view_pos.y = move_by(map_state.viewport.view_pos.y, amount);
    }
    map_state.persistence.mark_dirty();
}

/// Where the viewport follows a note moved along x to `nx` (the note is
/// `w` columns wide): forward when the note's right edge passes the
/// screen's, backward when its left edge passes the viewport's.
pub open spec fn follow_x(view_x: usize, screen_w: usize, nx: int, w: int, amount: isize) -> int {
    if amount > 0 {
        if nx + w > view_x + screen_w {
            view_x + amount
        } else {
            view_x as int
        }
    } else if nx < view_x {
        moved(view_x, amount)
    } else {
        view_x as int
    }
}

/// Where the viewport follows a note moved along y to `ny` (the note is
/// `h` rows high; the bottom 3 rows of the screen hold the info bar).
pub open spec fn follow_y(view_y: usize, screen_h: usize, ny: int, h: int, amount: isize) -> int {
    if amount > 0 {
        if ny + h > view_y + screen_h - 3 {
            view_y + amount
        } else {
            view_y as int
        }
    } else if ny < view_y {
        moved(view_y, amount)
    } else {
        view_y as int
    }
}

/// The selected note of `s` moved by `amount` along x (`on_x`) or y
/// (`on_y`) in `t`, backward saturating at 0, the viewport following it
/// where it would leave the screen; the map has unsaved changes and all
/// else is kept.
pub open spec fn note_moved(s: MapState, t: MapState, on_x: bool, on_y: bool, amount: isize) -> bool {
    let ns = s.notes_state;
    let n = ns.selected_note();
    let (w, h) = n.data.spec_dimensions();
    let v = s.viewport;
    let nx = if on_x { moved(n.x, amount) } else { n.x as int };
    let ny = if on_y { moved(n.y, amount) } else { n.y as int };
    &&& t.notes_state.spec_notes() == ns.spec_notes().insert(
        ns.spec_selected()->0,
        crate::graph::Node { x: nx as usize, y: ny as usize, ..n },
    )
    &&& t.viewport.view_pos.x == (if on_x {
        follow_x(v.view_pos.x, v.screen_width, nx, w as int, amount)
    } else {
        v.view_pos.x as int
    })
    &&& t.viewport.view_pos.y == (if on_y {
        follow_y(v.view_pos.y, v.screen_height, ny, h as int, amount)
    } else {
        v.view_pos.y as int
    })
    &&& t.viewport.screen_width == v.screen_width
    &&& t.viewport.screen_height == v.screen_height
    &&& !t.persistence.can_exit
    &&& t.persistence.file_write_path == s.persistence.file_write_path
    &&& t.notes_state.spec_selected() == ns.spec_selected()
    &&& t.notes_state.spec_render_order() == ns.spec_render_order()
    &&& t.notes_state.spec_next_id() == ns.spec_next_id()
    &&& t.notes_state.spec_cursor() == ns.spec_cursor()
    &&& t.current_mode == s.current_mode
    &&& t.connections_state == s.connections_state
    &&& t.ui_state == s.ui_state
    &&& t.settings == s.settings
    &&& t.settings_err_msg == s.settings_err_msg
}

/// Law: moving the selected note keeps it on screen: a note that lay wholly
/// within the screen's columns (or within its rows above the three-row info
/// bar) still does after being moved along that axis, by any amount, the
/// viewport following where needed; the viewport moves by at most the
/// amount, in the note's direction.
pub proof fn lemma_moved_note_stays_on_screen(s: MapState, t: MapState, on_x: bool, on_y: bool, amount: isize)
    requires
        s.notes_state.has_selected_note(),
        note_moved(s, t, on_x, on_y, amount),
        move_fits(s.notes_state.selected_note().x, amount),
        move_fits(s.notes_state.selected_note().y, amount),
    ensures
        ({
            let id = s.notes_state.spec_selected()->0;
            let n = s.notes_state.selected_note();
            let m = t.notes_state.spec_notes()[id];
            let (w, h) = n.data.spec_dimensions();
            let (v, u) = (s.viewport.view_pos, t.viewport.view_pos);
            let (sw, sh) = (s.viewport.screen_width as int, s.viewport.screen_height as int);
            &&& (on_x && v.x <= n.x && n.x + w <= v.x + sw) ==> u.x <= m.x && m.x + w <= u.x + sw
            &&& (on_y && v.y <= n.y && n.y + h <= v.y + sh - 3) ==> u.y <= m.y && m.y + h <= u.y + sh - 3
            &&& amount >= 0 ==> v.x <= u.x <= v.x + amount && v.y <= u.y <= v.y + amount
            &&& amount < 0 ==> v.x + amount <= u.x <= v.x && v.y + amount <= u.y <= v.y
        }),
{
    let id = s.notes_state.spec_selected()->0;
    let n = s.notes_state.selected_note();
    let m = t.notes_state.spec_notes()[id];
    assert(m.data == n.data);
    assert(on_x ==> m.x == moved(n.x, amount));
    assert(!on_x ==> m.x == n.x);
    assert(on_y ==> m.y == moved(n.y, amount));
    assert(!on_y ==> m.y == n.y);
}

/// Moves the selected note by `amount` along the x or y axis (backward
/// saturating at 0) and pans the viewport by the same amount where the note
/// would leave the screen. Without a selected note nothing changes.
pub fn move_note(map_state: &mut MapState, axis: &str, amount: isize)
    requires
        old(map_state).notes_state.has_selected_note() ==> {
            let n = old(map_state).notes_state.selected_note();
            let v = old(map_state).viewport.view_pos;
            &&& is_x(axis@) ==> move_fits(n.x, amount) && move_fits(v.x, amount)
            &&& is_y(axis@) ==> move_fits(n.y, amount) && move_fits(v.y, amount)
        },
    ensures
        !old(map_state).notes_state.has_selected_note() ==> *final(map_state) == *old(map_state),
        old(map_state).notes_state.has_selected_note() ==> note_moved(
            *old(map_state),
            *final(map_state),
            is_x(axis@),
            is_y(axis@),
            amount,
        ),
        old(map_state).notes_state.wf() ==> final(map_state).notes_state.wf(),
{
    let id = match map_state.notes_state.selected_note_id() {
        Some(id) => id,
        None => return,
    };
    let (nx0, ny0, w, h) = match map_state.notes_state.notes().get(&id) {
        Some(note) => {
            let (w, h) = note.data.dimensions();
            (note.x, note.y, w, h)
        },
        None => return,
    };
    proof {
        reveal_strlit("x");
        reveal_strlit("y");
        assert("x"@[0] != "y"@[0]);
    }
    let mut nx = nx0;
    let mut ny = ny0;
    if str_eq(axis, "x") {
        nx = move_by(nx0, amount);
        let vx = map_state.viewport.view_pos.x;
        if amount > 0 {
            if nx as u128 + w as u128 > vx as u128 + map_state.viewport.screen_width as u128 {
                map_state.viewport.view_pos.x = move_by(vx, amount);
            }
        } else if nx < vx {
            map_state.viewport.view_pos.x = move_by(vx, amount);
        }
    } else if str_eq(axis, "y") {
        ny = move_by(ny0, amount);
        let vy = map_state.viewport.view_pos.y;
        if amount > 0 {
            if ny as i128 + h as i128 > vy as i128 + map_state.viewport.screen_height as i128 - 3 {
                map_state.viewport.view_pos.y = move_by(vy, amount);
            }
        } else if ny < vy {
            map_state.viewport.view_pos.y = move_by(vy, amount);
        }
    }
    map_state.notes_state.set_selected_position(nx, ny);
    map_state.persistence.mark_dirty();
}

/// The distance between two coordinates.
pub open spec fn dist(a: usize, b: usize) -> int {
    if a >= b {
        a - b
    } else {
        b - a
    }
}

/// The direction a key name points to: 0 down, 1 up, 2 right, 3 left, 4 none.
pub open spec fn direction(key: Seq<char>) -> int {
    if key == "j"@ || key == "Down"@ {
        0
    } else if key == "k"@ || key == "Up"@ {
        1
    } else if key == "l"@ || key == "Right"@ {
        2
    } else if key == "h"@ || key == "Left"@ {
        3
    } else {
        4
    }
}

/// The note at (x, y) lies in the cone of `dir` seen from (sx, sy): further
/// along the direction's axis than across it.
pub open spec fn in_cone(dir: int, x: usize, y: usize, sx: usize, sy: usize) -> bool {
    let dx = dist(x, sx);
    let dy = dist(y, sy);
    if dir == 0 {
        y > sy && dy > dx
    } else if dir == 1 {
        y < sy && dy > dx
    } else if dir == 2 {
        x > sx && dx > dy
    } else if dir == 3 {
        x < sx && dx > dy
    } else {
        false
    }
}

/// Note `a` is at least as good a target as note `b` in direction `dir`:
/// nearer along the axis, then nearer across it.
pub open spec fn at_least_as_close(dir: int, a: Note, b: Note, sx: usize, sy: usize) -> bool {
    if dir == 0 {
        a.y < b.y || (a.y == b.y && dist(a.x, sx) <= dist(b.x, sx))
    } else if dir == 1 {
        a.y > b.y || (a.y == b.y && dist(a.x, sx) <= dist(b.x, sx))
    } else if dir == 2 {
        a.x < b.x || (a.x == b.x && dist(a.y, sy) <= dist(b.y, sy))
    } else {
        a.x > b.x || (a.x == b.x && dist(a.y, sy) <= dist(b.y, sy))
    }
}

/// Note `k` is a candidate to move the focus to from the selected note `sel` at (sx, sy).
pub open spec fn is_candidate(
    notes: Map<usize, Note>,
    dir: int,
    sel: usize,
    sx: usize,
    sy: usize,
    k: usize,
) -> bool {
    notes.contains_key(k) && k != sel && in_cone(dir, notes[k].x, notes[k].y, sx, sy)
}

/// The note in direction `dir` to move the focus to, if any: among the
/// candidates, one that is at least as close as every other (ties between
/// equally close notes go either way).
fn closest_in_direction(
    notes: &std::collections::HashMap<usize, Note>,
    dir: u8,
    sel: usize,
    sx: usize,
    sy: usize,
) -> (r: Option<usize>)
    ensures
        r is None <==> !(exists|k: usize| #[trigger] is_candidate(notes@, dir as int, sel, sx, sy, k)),
        r matches Some(id) ==> {
            &&& is_candidate(notes@, dir as int, sel, sx, sy, id)
            &&& forall|k: usize| #[trigger]
                is_candidate(notes@, dir as int, sel, sx, sy, k) ==> at_least_as_close(
                    dir as int,
                    notes@[id],
                    notes@[k],
                    sx,
                    sy,
                )
        },
{
    let mut best: Option<usize> = None;
    for (id, note) in it: notes.iter()
        invariant
            it.seq() == vstd::std_specs::hash::spec_hash_map_iter(notes).remaining(),
            best matches Some(b) ==> {
                &&& is_candidate(notes@, dir as int, sel, sx, sy, b)
                &&& forall|j: int|
                    0 <= j < it.index() && is_candidate(notes@, dir as int, sel, sx, sy, *(#[trigger] it.seq()[j]).0)
                        ==> at_least_as_close(dir as int, notes@[b], notes@[*it.seq()[j].0], sx, sy)
            },
            best is None ==> forall|j: int|
                0 <= j < it.index() ==> !is_candidate(notes@, dir as int, sel, sx, sy, *(#[trigger] it.seq()[j]).0),
    {
        let dx: usize = if note.x >= sx { note.x - sx } else { sx - note.x };
        let dy: usize = if note.y >= sy { note.y - sy } else { sy - note.y };
        let in_direction = if dir == 0 {
            note.y > sy && dy > dx
        } else if dir == 1 {
            note.y < sy && dy > dx
        } else if dir == 2 {
            note.x > sx && dx > dy
        } else if dir == 3 {
            note.x < sx && dx > dy
        } else {
            false
        };
        if in_direction && *id != sel {
            match best {
                None => {
                    best = Some(*id);
                },
                Some(b) => {
                    let bn = notes.get(&b).unwrap();
                    let bdx: usize = if bn.x >= sx { bn.x - sx } else { sx - bn.x };
                    let bdy: usize = if bn.y >= sy { bn.y - sy } else { sy - bn.y };
                    let better = if dir == 0 {
                        note.y < bn.y || (note.y == bn.y && dx < bdx)
                    } else if dir == 1 {
                        note.y > bn.y || (note.y == bn.y && dx < bdx)
                    } else if dir == 2 {
                        note.x < bn.x || (note.x == bn.x && dy < bdy)
                    } else {
                        note.x > bn.x || (note.x == bn.x && dy < bdy)
                    };
                    if better {
                        best = Some(*id);
                    }
                },
            }
        }
    }
    best
}

/// The key name's direction, as a number (see `direction`).
fn key_direction(key: &str) -> (r: u8)
    ensures
        r as int == direction(key@),
{
    proof {
        reveal_strlit("j");
        reveal_strlit("Down");
        reveal_strlit("k");
        reveal_strlit("Up");
        reveal_strlit("l");
        reveal_strlit("Right");
        reveal_strlit("h");
        reveal_strlit("Left");
    }
    if str_eq(key, "j") || str_eq(key, "Down") {
        0
    } else if str_eq(key, "k") || str_eq(key, "Up") {
        1
    } else if str_eq(key, "l") || str_eq(key, "Right") {
        2
    } else if str_eq(key, "h") || str_eq(key, "Left") {
        3
    } else {
        4
    }
}

/// The focus direction of a key: j/Down 0, k/Up 1, l/Right 2, h/Left 3.
pub open spec fn focus_dir_of(code: crate::input::KeyCode) -> Option<int> {
    match code {
        crate::input::KeyCode::Char('j') | crate::input::KeyCode::Down => Some(0),
        crate::input::KeyCode::Char('k') | crate::input::KeyCode::Up => Some(1),
        crate::input::KeyCode::Char('l') | crate::input::KeyCode::Right => Some(2),
        crate::input::KeyCode::Char('h') | crate::input::KeyCode::Left => Some(3),
        _ => None,
    }
}

/// The direction of each key name `switch_notes_focus` is called with.
pub(crate) proof fn lemma_focus_key_directions()
    ensures
        direction("j"@) == 0,
        direction("Down"@) == 0,
        direction("k"@) == 1,
        direction("Up"@) == 1,
        direction("l"@) == 2,
        direction("Right"@) == 2,
        direction("h"@) == 3,
        direction("Left"@) == 3,
{
    reveal_strlit("j");
    reveal_strlit("Down");
    reveal_strlit("k");
    reveal_strlit("Up");
    reveal_strlit("l");
    reveal_strlit("Right");
    reveal_strlit("h");
    reveal_strlit("Left");
    assert("Down"@.len() != "j"@.len());
    assert("k"@[0] != "j"@[0]);
    assert("k"@.len() != "Down"@.len());
    assert("Up"@.len() != "j"@.len());
    assert("Up"@.len() != "Down"@.len());
    assert("l"@[0] != "j"@[0]);
    assert("l"@.len() != "Down"@.len());
    assert("l"@[0] != "k"@[0]);
    assert("l"@.len() != "Up"@.len());
    assert("Right"@.len() != "j"@.len());
    assert("Right"@.len() != "Down"@.len());
    assert("Right"@.len() != "k"@.len());
    assert("Right"@.len() != "Up"@.len());
    assert("h"@[0] != "j"@[0]);
    assert("h"@.len() != "Down"@.len());
    assert("h"@[0] != "k"@[0]);
    assert("h"@.len() != "Up"@.len());
    assert("h"@[0] != "l"@[0]);
    assert("h"@.len() != "Right"@.len());
    assert("Left"@.len() != "j"@.len());
    assert("Left"@[0] != "Down"@[0]);
    assert("Left"@.len() != "k"@.len());
    assert("Left"@.len() != "Up"@.len());
    assert("Left"@.len() != "l"@.len());
    assert("Left"@.len() != "Right"@.len());
}

/// Note (x, y) lies in direction `dir` (0 down, 1 up, 2 right, 3 left) of
/// (sx, sy), further along that direction than across it, written out.
pub open spec fn lies_toward(dir: int, x: int, y: int, sx: int, sy: int) -> bool {
    let across_x = if x >= sx { x - sx } else { sx - x };
    let across_y = if y >= sy { y - sy } else { sy - y };
    ||| dir == 0 && y - sy > across_x
    ||| dir == 1 && sy - y > across_x
    ||| dir == 2 && x - sx > across_y
    ||| dir == 3 && sx - x > across_y
}

/// Note `k` is another note than `sel` lying in direction `dir` of it.
pub open spec fn other_note_toward(notes: Map<usize, Note>, dir: int, sel: usize, k: usize) -> bool {
    &&& notes.contains_key(k)
    &&& k != sel
    &&& lies_toward(dir, notes[k].x as int, notes[k].y as int, notes[sel].x as int, notes[sel].y as int)
}

/// Law: switching the focus in a direction picks, among the other notes
/// lying in that direction, one nearest along the direction's axis (for
/// down, no such note is above it), and among those as near, one nearest
/// across; where no note lies in that direction, nothing changes.
pub proof fn lemma_focus_goes_to_nearest(s: MapState, t: MapState, dir: int)
    requires
        0 <= dir <= 3,
        s.notes_state.has_selected_note(),
        focus_switched(s, t, dir),
    ensures
        ({
            let notes = s.notes_state.spec_notes();
            let sel = s.notes_state.spec_selected()->0;
            let (sx, sy) = (notes[sel].x, notes[sel].y);
            &&& (forall|k: usize| !#[trigger] other_note_toward(notes, dir, sel, k)) ==> t == s
            &&& (exists|k: usize| #[trigger] other_note_toward(notes, dir, sel, k)) ==> (
            t.notes_state.spec_selected() matches Some(id) && {
                &&& other_note_toward(notes, dir, sel, id)
                &&& forall|k: usize| #[trigger] other_note_toward(notes, dir, sel, k) ==> {
                    &&& dir == 0 ==> notes[id].y <= notes[k].y
                    &&& dir == 1 ==> notes[id].y >= notes[k].y
                    &&& dir == 2 ==> notes[id].x <= notes[k].x
                    &&& dir == 3 ==> notes[id].x >= notes[k].x
                    &&& (dir <= 1 && notes[id].y == notes[k].y) ==> dist(notes[id].x, sx) <= dist(notes[k].x, sx)
                    &&& (dir >= 2 && notes[id].x == notes[k].x) ==> dist(notes[id].y, sy) <= dist(notes[k].y, sy)
                }
            })
        }),
{
    let notes = s.notes_state.spec_notes();
    let sel = s.notes_state.spec_selected()->0;
    let sx = notes[sel].x;
    let sy = notes[sel].y;
    assert forall|k: usize| other_note_toward(notes, dir, sel, k) <==> #[trigger] is_candidate(
        notes,
        dir,
        sel,
        sx,
        sy,
        k,
    ) by {}
    if exists|k: usize| #[trigger] other_note_toward(notes, dir, sel, k) {
        let w = choose|k: usize| #[trigger] other_note_toward(notes, dir, sel, k);
        assert(is_candidate(notes, dir, sel, sx, sy, w));
        let id = t.notes_state.spec_selected()->0;
        assert forall|k: usize| #[trigger] other_note_toward(notes, dir, sel, k) implies {
            &&& dir == 0 ==> notes[id].y <= notes[k].y
            &&& dir == 1 ==> notes[id].y >= notes[k].y
            &&& dir == 2 ==> notes[id].x <= notes[k].x
            &&& dir == 3 ==> notes[id].x >= notes[k].x
            &&& (dir <= 1 && notes[id].y == notes[k].y) ==> dist(notes[id].x, sx) <= dist(notes[k].x, sx)
            &&& (dir >= 2 && notes[id].x == notes[k].x) ==> dist(notes[id].y, sy) <= dist(notes[k].y, sy)
        } by {
            assert(is_candidate(notes, dir, sel, sx, sy, k));
            assert(at_least_as_close(dir, notes[id], notes[k], sx, sy));
        }
    } else {
        assert forall|k: usize| !#[trigger] is_candidate(notes, dir, sel, sx, sy, k) by {
            assert(!other_note_toward(notes, dir, sel, k));
        }
    }
}

/// The focus switched from the selected note of `s` in direction `dir` in
/// `t` (see `switch_notes_focus`).
pub open spec fn focus_switched(s: MapState, t: MapState, dir: int) -> bool {
    let ns = s.notes_state;
    let notes = ns.spec_notes();
    if !ns.has_selected_note() {
        t == s
    } else {
        let sel = ns.spec_selected()->0;
        let (sx, sy) = (notes[sel].x, notes[sel].y);
        if !(exists|k: usize| #[trigger] is_candidate(notes, dir, sel, sx, sy, k)) {
            t == s
        } else {
            let fns = t.notes_state;
            &&& fns.spec_selected() matches Some(id) && {
                &&& is_candidate(notes, dir, sel, sx, sy, id)
                &&& (forall|k: usize| #[trigger]
                    is_candidate(notes, dir, sel, sx, sy, k) ==> at_least_as_close(
                        dir,
                        notes[id],
                        notes[k],
                        sx,
                        sy,
                    ))
                &&& fns.spec_notes() == notes.insert(sel, with_selected(notes[sel], false)).insert(
                    id,
                    with_selected(notes[id], true),
                )
                &&& fns.spec_render_order() == moved_to_back(ns.spec_render_order(), id)
                &&& t.viewport.view_pos == (ViewPos {
                    x: (if notes[id].x >= s.viewport.screen_width / 2 {
                        notes[id].x - s.viewport.screen_width / 2
                    } else {
                        0
                    }) as usize,
                    y: (if notes[id].y >= s.viewport.screen_height / 2 {
                        notes[id].y - s.viewport.screen_height / 2
                    } else {
                        0
                    }) as usize,
                })
                &&& if s.current_mode == Mode::VisualConnect
                    && s.connections_state.focused_connection is Some {
                    let c = s.connections_state.focused_connection->0;
                    &&& t.connections_state.focused_connection == Some(
                        if id == c.from_id {
                            crate::states::map::Connection { to_id: None, to_side: None, ..c }
                        } else {
                            crate::states::map::Connection {
                                to_id: Some(id),
                                to_side: Some(s.settings.default_end_side),
                                ..c
                            }
                        },
                    )
                    &&& !t.persistence.can_exit
                } else {
                    &&& t.connections_state == s.connections_state
                    &&& t.persistence == s.persistence
                }
            }
            &&& fns.spec_next_id() == ns.spec_next_id()
            &&& fns.spec_cursor() == ns.spec_cursor()
            &&& t.current_mode == s.current_mode
            &&& t.viewport.screen_width == s.viewport.screen_width
            &&& t.viewport.screen_height == s.viewport.screen_height
            &&& t.connections_state.manager == s.connections_state.manager
            &&& t.connections_state.editing_connection_index
                == s.connections_state.editing_connection_index
            &&& t.ui_state == s.ui_state
            &&& t.settings == s.settings
            &&& t.settings_err_msg == s.settings_err_msg
        }
    }
}

/// Switches the focus to the nearest note in the key's direction (h/j/k/l
/// or the arrows), among the notes further along that axis than across it;
/// the nearest along the axis wins, the nearest across it breaks ties. The
/// new note is selected, brought to the front and centered in the viewport.
/// While a connection is being edited, its end moves to the new note (or
/// is cleared when that is where it starts), and the map counts as changed.
/// Without a candidate, or without a selected note, nothing changes.
pub fn switch_notes_focus(map_state: &mut MapState, key: &str)
    ensures
        focus_switched(*old(map_state), *final(map_state), direction(key@)),
        old(map_state).notes_state.wf() ==> final(map_state).notes_state.wf(),
{
    let selected = match map_state.notes_state.selected_note_id() {
        Some(id) => id,
        None => return,
    };
    let (sx, sy) = match map_state.notes_state.notes().get(&selected) {
        Some(note) => (note.x, note.y),
        None => return,
    };
    let dir = key_direction(key);
    let id = match closest_in_direction(map_state.notes_state.notes(), dir, selected, sx, sy) {
        Some(id) => id,
        None => return,
    };
    map_state.notes_state.deselect();
    map_state.notes_state.select(id);
    let (nx, ny) = match map_state.notes_state.notes().get(&id) {
        Some(note) => (note.x, note.y),
        None => (0, 0),
    };
    let half_w = map_state.viewport.screen_width / 2;
    let half_h = map_state.viewport.screen_height / 2;
    map_state.viewport.view_pos.x = if nx >= half_w { nx - half_w } else { 0 };
    map_state.viewport.view_pos.y = if ny >= half_h { ny - half_h } else { 0 };
    // Update the connection endpoint while editing a connection
    if map_state.current_mode == Mode::VisualConnect {
        if let Some(focused_connection) = map_state.connections_state.focused_connection {
            let mut c = focused_connection;
            if id == c.from_id {
                c.to_id = None;
                c.to_side = None;
            } else {
                c.to_id = Some(id);
                c.to_side = Some(map_state.settings.default_end_side);
            }
            map_state.connections_state.focused_connection = Some(c);
            map_state.persistence.mark_dirty();
        }
    }
}

/// Cycles through connection sides clockwise: Right → Bottom → Left → Top → Right
pub fn cycle_side(side: Side) -> (r: Side)
    ensures
        r == crate::states::settings::helpers::spec_cycle_side(side),
{
    crate::states::settings::cycle_side(side)
}

/// The color after `color` in the cycle Red → Green → Yellow → Blue →
/// Magenta → Cyan → White → Black → Red; any other color goes to White.
pub open spec fn spec_cycle_color(color: Color) -> Color {
    match color {
        Color::Red => Color::Green,
        Color::Green => Color::Yellow,
        Color::Yellow => Color::Blue,
        Color::Blue => Color::Magenta,
        Color::Magenta => Color::Cyan,
        Color::Cyan => Color::White,
        Color::White => Color::Black,
        Color::Black => Color::Red,
        _ => Color::White,
    }
}

/// Cycles through available colors. Returns white for unrecognized colors.
pub fn cycle_color(color: Color) -> (r: Color)
    ensures
        r == spec_cycle_color(color),
{
    match color {
        Color::Red => Color::Green,
        Color::Green => Color::Yellow,
        Color::Yellow => Color::Blue,
        Color::Blue => Color::Magenta,
        Color::Magenta => Color::Cyan,
        Color::Cyan => Color::White,
        Color::White => Color::Black,
        Color::Black => Color::Red,
        _ => Color::White,
    }
}

/// Eight presses of the color key bring a note back to its color, for
/// each of the eight colors of the cycle.
pub proof fn lemma_color_cycle_period(color: Color)
    requires
        color == Color::Red || color == Color::Green || color == Color::Yellow || color == Color::Blue
            || color == Color::Magenta || color == Color::Cyan || color == Color::White || color
            == Color::Black,
    ensures
        spec_cycle_color(
            spec_cycle_color(
                spec_cycle_color(
                    spec_cycle_color(
                        spec_cycle_color(spec_cycle_color(spec_cycle_color(spec_cycle_color(color)))),
                    ),
                ),
            ),
        ) == color,
{
}


/// Law: the help pages come in order: forward from page `p` is page `p + 1`,
/// from the last page the first; each step changes the page, and five steps
/// forward visit all five pages before coming back.
pub proof fn lemma_help_pages_in_order(p: usize)
    requires
        1 <= p <= 5,
    ensures
        p < 5 ==> next_help_page(p) == p + 1,
        p == 5 ==> next_help_page(p) == 1,
        p > 1 ==> previous_help_page(p) == p - 1,
        p == 1 ==> previous_help_page(p) == 5,
        next_help_page(p) != p,
        next_help_page(next_help_page(p)) != p,
        next_help_page(next_help_page(next_help_page(p))) != p,
        next_help_page(next_help_page(next_help_page(next_help_page(p)))) != p,
        next_help_page(next_help_page(next_help_page(next_help_page(next_help_page(p))))) == p,
{
}

/// Law: the color key steps through all eight colors before coming back:
/// every press changes the color, and no fewer than eight presses return to it.
pub proof fn lemma_color_cycle_visits_all(color: Color)
    requires
        color == Color::Red || color == Color::Green || color == Color::Yellow || color == Color::Blue
            || color == Color::Magenta || color == Color::Cyan || color == Color::White || color
            == Color::Black,
    ensures
        spec_cycle_color(color) != color,
        spec_cycle_color(spec_cycle_color(color)) != color,
        spec_cycle_color(spec_cycle_color(spec_cycle_color(color))) != color,
        spec_cycle_color(spec_cycle_color(spec_cycle_color(spec_cycle_color(color)))) != color,
        spec_cycle_color(spec_cycle_color(spec_cycle_color(spec_cycle_color(spec_cycle_color(color)))))
            != color,
        spec_cycle_color(
            spec_cycle_color(spec_cycle_color(spec_cycle_color(spec_cycle_color(spec_cycle_color(color))))),
        ) != color,
        spec_cycle_color(
            spec_cycle_color(
                spec_cycle_color(spec_cycle_color(spec_cycle_color(spec_cycle_color(spec_cycle_color(color))))),
            ),
        ) != color,
{
}

} // verus!
