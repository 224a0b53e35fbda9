//! Editing the text of the selected note. The cursor is a character index
//! into the text: 0 is before the first character, the text's length after
//! the last.

use vstd::prelude::*;
use vstd::string::*;

use crate::states::map::{line_lengths, text_line_lengths, MapState, NotesState, PersistenceState};
use crate::text::push_char;

verus! {

/// The text of the selected note.
pub open spec fn sel_text(ns: NotesState) -> Seq<char> {
    ns.selected_note().data.content@
}

/// A note is selected, exists, and the cursor lies within its text.
pub open spec fn cursor_in_text(ns: NotesState) -> bool {
    &&& ns.has_selected_note()
    &&& ns.spec_cursor() <= sel_text(ns).len()
}

/// Everything but the cursor is as before, and the cursor is at `c`.
pub open spec fn cursor_moved_to(a: NotesState, b: NotesState, c: int) -> bool {
    &&& b.spec_notes() == a.spec_notes()
    &&& b.spec_render_order() == a.spec_render_order()
    &&& b.spec_next_id() == a.spec_next_id()
    &&& b.spec_selected() == a.spec_selected()
    &&& b.spec_cursor() == c
}

/// The selected note's text became `t`, the cursor moved to `c`, all else is kept.
pub open spec fn text_edited(a: NotesState, b: NotesState, t: Seq<char>, c: int) -> bool {
    &&& b.spec_selected() == a.spec_selected()
    &&& b.has_selected_note()
    &&& sel_text(b) == t
    &&& b.spec_notes().remove(a.spec_selected()->0) == a.spec_notes().remove(a.spec_selected()->0)
    &&& b.selected_note().x == a.selected_note().x
    &&& b.selected_note().y == a.selected_note().y
    &&& b.selected_note().data.color == a.selected_note().data.color
    &&& b.selected_note().data.selected == a.selected_note().data.selected
    &&& b.spec_render_order() == a.spec_render_order()
    &&& b.spec_next_id() == a.spec_next_id()
    &&& b.spec_cursor() == c
}

/// The map state around the notes is unchanged, except that the map now
/// has unsaved changes.
pub open spec fn rest_kept_dirty(a: MapState, b: MapState) -> bool {
    &&& b.current_mode == a.current_mode
    &&& b.viewport == a.viewport
    &&& b.connections_state == a.connections_state
    &&& b.ui_state == a.ui_state
    &&& b.settings == a.settings
    &&& b.settings_err_msg == a.settings_err_msg
    &&& b.persistence == (PersistenceState { can_exit: false, ..a.persistence })
}

pub open spec fn min(a: int, b: int) -> int {
    if a <= b {
        a
    } else {
        b
    }
}

/// Scans the lines for the one holding position `p`: returns the start of
/// that line and of the line before it. A line holds `p` when its end is at
/// or after `p`; every line is followed by one newline.
pub open spec fn up_scan(ls: Seq<usize>, p: int, i: int, cur: int, prev: int) -> (int, int)
    decreases ls.len() - i,
{
    if i < 0 || i >= ls.len() {
        (cur, prev)
    } else if cur + ls[i] >= p {
        (cur, prev)
    } else {
        up_scan(ls, p, i + 1, cur + ls[i] + 1, cur)
    }
}

/// Scans the lines for the one holding position `p`: returns the start of
/// that line and of the line after it.
pub open spec fn down_scan(ls: Seq<usize>, p: int, i: int, cur: int, next: int) -> (int, int)
    decreases ls.len() - i,
{
    if i < 0 || i >= ls.len() {
        (cur, next)
    } else if next + ls[i] >= p {
        (next, next + ls[i] + 1)
    } else {
        down_scan(ls, p, i + 1, next, next + ls[i] + 1)
    }
}

/// The position of the first newline in `t`, or its length.
pub open spec fn first_newline(t: Seq<char>) -> int
    decreases t.len(),
{
    if t.len() == 0 {
        0
    } else if t[0] == '\n' {
        0
    } else {
        1 + first_newline(t.drop_first())
    }
}

/// The cursor after moving up a line in text `t` from `p`: the same column
/// on the previous line, or that line's end where it is shorter; unchanged
/// on the first line.
pub open spec fn cursor_after_up(t: Seq<char>, p: int) -> int {
    let (cur, prev) = up_scan(line_lengths(t), p, 0, 0, 0);
    if cur == 0 {
        p
    } else {
        min(prev + min(p - cur, cur - 1 - prev), t.len() as int)
    }
}

/// The cursor after moving down a line in text `t` from `p`: the same
/// column on the next line, or that line's end where it is shorter;
/// unchanged on the last line.
pub open spec fn cursor_after_down(t: Seq<char>, p: int) -> int {
    let (cur, next) = down_scan(line_lengths(t), p, 0, 0, 0);
    if next > t.len() {
        p
    } else {
        min(next + min(p - cur, first_newline(t.subrange(next, t.len() as int))), t.len() as int)
    }
}

/// Moves the cursor to the start of the text.
pub fn cursor_pos_beginning(notes_state: &mut NotesState)
    requires
        old(notes_state).has_selected_note(),
    ensures
        cursor_moved_to(*old(notes_state), *final(notes_state), 0),
        cursor_in_text(*final(notes_state)),
{
    notes_state.set_cursor_pos(0);
}

/// Moves the cursor one character left, if it is not at the start.
pub fn move_cursor_left(notes_state: &mut NotesState)
    requires
        cursor_in_text(*old(notes_state)),
    ensures
        cursor_moved_to(
            *old(notes_state),
            *final(notes_state),
            if old(notes_state).spec_cursor() > 0 {
                old(notes_state).spec_cursor() - 1
            } else {
                0
            },
        ),
        cursor_in_text(*final(notes_state)),
{
    let cursor_pos = notes_state.cursor_pos();
    if cursor_pos > 0 {
        notes_state.set_cursor_pos(cursor_pos - 1);
    }
}

/// Moves the cursor one character right, if it is not at the end.
pub fn move_cursor_right(notes_state: &mut NotesState)
    requires
        cursor_in_text(*old(notes_state)),
    ensures
        cursor_moved_to(
            *old(notes_state),
            *final(notes_state),
            min(old(notes_state).spec_cursor() + 1, sel_text(*old(notes_state)).len() as int),
        ),
        cursor_in_text(*final(notes_state)),
{
    let cursor_pos = notes_state.cursor_pos();
    let len = notes_state.expect_selected_note().data.content.unicode_len();
    let new_pos = if cursor_pos < len {
        cursor_pos + 1
    } else {
        len
    };
    notes_state.set_cursor_pos(new_pos);
}

/// `t` with the characters from `a` to `b` removed.
fn without_range(t: &str, a: usize, b: usize) -> (r: String)
    requires
        a <= b <= t@.len(),
    ensures
        r@ == t@.subrange(0, a as int) + t@.subrange(b as int, t@.len() as int),
{
    let n = t.unicode_len();
    let mut r = String::from_str(t.substring_char(0, a));
    r.append(t.substring_char(b, n));
    r
}

/// `t` with `c` inserted at position `a`.
fn with_char_at(t: &str, a: usize, c: char) -> (r: String)
    requires
        a <= t@.len(),
    ensures
        r@ == t@.insert(a as int, c),
{
    let n = t.unicode_len();
    let mut r = String::from_str(t.substring_char(0, a));
    push_char(&mut r, c);
    r.append(t.substring_char(a, n));
    proof {
        assert(r@ =~= t@.insert(a as int, c));
    }
    r
}

/// `backspace_char` on the selected note.
fn backspace_char_in_note(map_state: &mut MapState)
    requires
        cursor_in_text(old(map_state).notes_state),
    ensures
        rest_kept_dirty(*old(map_state), *final(map_state)),
        ({
            let a = old(map_state).notes_state;
            let p = a.spec_cursor();
            if p > 0 {
                text_edited(a, final(map_state).notes_state, sel_text(a).remove(p - 1), p - 1)
            } else {
                final(map_state).notes_state == a
            }
        }),
        old(map_state).notes_state.wf() ==> final(map_state).notes_state.wf(),
        cursor_in_text(final(map_state).notes_state),
{
    map_state.persistence.mark_dirty();
    let cursor_pos = map_state.notes_state.cursor_pos();
    if cursor_pos > 0 {
        let new_text = without_range(
            map_state.notes_state.expect_selected_note().data.content.as_str(),
            cursor_pos - 1,
            cursor_pos,
        );
        proof {
            let t = sel_text(map_state.notes_state);
            assert(new_text@ =~= t.remove(cursor_pos - 1));
        }
        map_state.notes_state.set_selected_content(new_text);
        map_state.notes_state.set_cursor_pos(cursor_pos - 1);
        proof {
            let a = old(map_state).notes_state;
            let id = a.spec_selected()->0;
            assert(map_state.notes_state.spec_notes().remove(id) =~= a.spec_notes().remove(id));
        }
    }
}

/// Deletes the character before the cursor and moves the cursor back onto
/// its place; at the start of the text nothing is deleted. The map has
/// unsaved changes afterwards either way.
/// With no note selected, only the unsaved-changes mark is set.
pub fn backspace_char(map_state: &mut MapState)
    requires
        old(map_state).notes_state.has_selected_note() ==> cursor_in_text(old(map_state).notes_state),
    ensures
        !old(map_state).notes_state.has_selected_note() ==> rest_kept_dirty(*old(map_state), *final(map_state))
            && final(map_state).notes_state == old(map_state).notes_state,
        old(map_state).notes_state.has_selected_note() ==> {
            &&& rest_kept_dirty(*old(map_state), *final(map_state))
            &&& ({
                let a = old(map_state).notes_state;
                let p = a.spec_cursor();
                if p > 0 {
                    text_edited(a, final(map_state).notes_state, sel_text(a).remove(p - 1), p - 1)
                } else {
                    final(map_state).notes_state == a
                }
            })
            &&& old(map_state).notes_state.wf() ==> final(map_state).notes_state.wf()
            &&& cursor_in_text(final(map_state).notes_state)
        },
{
    if map_state.notes_state.has_selected() {
        backspace_char_in_note(map_state);
    } else {
        map_state.persistence.mark_dirty();
    }
}

/// `insert_char` on the selected note.
fn insert_char_in_note(map_state: &mut MapState, c: char)
    requires
        cursor_in_text(old(map_state).notes_state),
    ensures
        rest_kept_dirty(*old(map_state), *final(map_state)),
        ({
            let a = old(map_state).notes_state;
            let p = a.spec_cursor();
            text_edited(a, final(map_state).notes_state, sel_text(a).insert(p as int, c), p + 1)
        }),
        old(map_state).notes_state.wf() ==> final(map_state).notes_state.wf(),
        cursor_in_text(final(map_state).notes_state),
{
    map_state.persistence.mark_dirty();
    let cursor_pos = map_state.notes_state.cursor_pos();
    let new_text = with_char_at(
        map_state.notes_state.expect_selected_note().data.content.as_str(),
        cursor_pos,
        c,
    );
    map_state.notes_state.set_selected_content(new_text);
    move_cursor_right(&mut map_state.notes_state);
    proof {
        let a = old(map_state).notes_state;
        let id = a.spec_selected()->0;
        assert(map_state.notes_state.spec_notes().remove(id) =~= a.spec_notes().remove(id));
    }
}

/// Inserts a character at the cursor and moves the cursor past it. The
/// map has unsaved changes afterwards.
/// With no note selected, only the unsaved-changes mark is set.
pub fn insert_char(map_state: &mut MapState, c: char)
    requires
        old(map_state).notes_state.has_selected_note() ==> cursor_in_text(old(map_state).notes_state),
    ensures
        !old(map_state).notes_state.has_selected_note() ==> rest_kept_dirty(*old(map_state), *final(map_state))
            && final(map_state).notes_state == old(map_state).notes_state,
        old(map_state).notes_state.has_selected_note() ==> {
            &&& rest_kept_dirty(*old(map_state), *final(map_state))
            &&& ({
                let a = old(map_state).notes_state;
                let p = a.spec_cursor();
                text_edited(a, final(map_state).notes_state, sel_text(a).insert(p as int, c), p + 1)
            })
            &&& old(map_state).notes_state.wf() ==> final(map_state).notes_state.wf()
            &&& cursor_in_text(final(map_state).notes_state)
        },
{
    if map_state.notes_state.has_selected() {
        insert_char_in_note(map_state, c);
    } else {
        map_state.persistence.mark_dirty();
    }
}

/// `move_cursor_up` on the selected note.
fn move_cursor_up_in_note(notes_state: &mut NotesState)
    requires
        cursor_in_text(*old(notes_state)),
    ensures
        cursor_moved_to(
            *old(notes_state),
            *final(notes_state),
            cursor_after_up(sel_text(*old(notes_state)), old(notes_state).spec_cursor() as int),
        ),
        cursor_in_text(*final(notes_state)),
{
    let cursor_pos = notes_state.cursor_pos();
    let ls = text_line_lengths(notes_state.expect_selected_note().data.content.as_str());
    let mut current_line_start: usize = 0;
    let mut previous_line_start: usize = 0;
    let mut i: usize = 0;
    while i < ls.len()
        invariant_except_break
            up_scan(ls@, cursor_pos as int, i as int, current_line_start as int, previous_line_start as int)
                == up_scan(ls@, cursor_pos as int, 0, 0, 0),
        invariant
            i <= ls@.len(),
            current_line_start <= cursor_pos,
            previous_line_start < current_line_start || current_line_start == 0,
        ensures
            up_scan(ls@, cursor_pos as int, 0, 0, 0) == (current_line_start as int, previous_line_start as int),
            previous_line_start < current_line_start || current_line_start == 0,
        decreases ls@.len() - i,
    {
        if ls[i] >= cursor_pos - current_line_start {
            break;
        }
        previous_line_start = current_line_start;
        current_line_start = current_line_start + ls[i] + 1;
        i = i + 1;
    }
    if current_line_start == 0 {
        return;
    }
    let col = cursor_pos - current_line_start;
    let previous_line_length = current_line_start - 1 - previous_line_start;
    let new_pos = if col < previous_line_length {
        previous_line_start + col
    } else {
        previous_line_start + previous_line_length
    };
    notes_state.set_cursor_pos(new_pos);
}

/// Moves the cursor to the same column on the previous line, or to that
/// line's end where it is shorter; on the first line nothing changes.
/// With no note selected, nothing changes.
pub fn move_cursor_up(notes_state: &mut NotesState)
    requires
        old(notes_state).has_selected_note() ==> cursor_in_text(*old(notes_state)),
    ensures
        !old(notes_state).has_selected_note() ==> *final(notes_state) == *old(notes_state),
        old(notes_state).has_selected_note() ==> {
            &&& cursor_moved_to(
                *old(notes_state),
                *final(notes_state),
                cursor_after_up(sel_text(*old(notes_state)), old(notes_state).spec_cursor() as int),
            )
            &&& cursor_in_text(*final(notes_state))
        },
{
    if notes_state.has_selected() {
        move_cursor_up_in_note(notes_state);
    }
}

/// `move_cursor_down` on the selected note.
fn move_cursor_down_in_note(notes_state: &mut NotesState)
    requires
        cursor_in_text(*old(notes_state)),
    ensures
        cursor_moved_to(
            *old(notes_state),
            *final(notes_state),
            cursor_after_down(sel_text(*old(notes_state)), old(notes_state).spec_cursor() as int),
        ),
        cursor_in_text(*final(notes_state)),
{
    let cursor_pos = notes_state.cursor_pos();
    let content = notes_state.expect_selected_note().data.content.as_str();
    let len = content.unicode_len();
    let ls = text_line_lengths(content);
    let mut current_line_start: usize = 0;
    let mut next_line_start: usize = 0;
    let mut i: usize = 0;
    let mut past_end = false;
    while i < ls.len()
        invariant_except_break
            down_scan(ls@, cursor_pos as int, i as int, current_line_start as int, next_line_start as int)
                == down_scan(ls@, cursor_pos as int, 0, 0, 0),
            !past_end,
            next_line_start <= cursor_pos,
        invariant
            i <= ls@.len(),
            cursor_pos <= len,
            current_line_start <= cursor_pos,
            len == content@.len(),
        ensures
            past_end ==> down_scan(ls@, cursor_pos as int, 0, 0, 0).1 > len,
            !past_end ==> down_scan(ls@, cursor_pos as int, 0, 0, 0) == (
                current_line_start as int,
                next_line_start as int,
            ),
            current_line_start <= cursor_pos,
            !past_end ==> next_line_start <= len,
        decreases ls@.len() - i,
    {
        if ls[i] >= cursor_pos - next_line_start {
            if ls[i] >= len - next_line_start {
                past_end = true;
            } else {
                current_line_start = next_line_start;
                next_line_start = next_line_start + ls[i] + 1;
            }
            break;
        }
        current_line_start = next_line_start;
        next_line_start = next_line_start + ls[i] + 1;
        i = i + 1;
    }
    if past_end {
        return;
    }
    let col = cursor_pos - current_line_start;
    let mut j: usize = next_line_start;
    while j < len && content.get_char(j) != '\n'
        invariant
            next_line_start <= j <= len == content@.len(),
            forall|k: int| next_line_start <= k < j ==> content@[k] != '\n',
        decreases len - j,
    {
        j = j + 1;
    }
    let next_line_length = j - next_line_start;
    proof {
        lemma_first_newline(content@.subrange(next_line_start as int, len as int), next_line_length as int);
    }
    let new_pos = if col < next_line_length {
        next_line_start + col
    } else {
        next_line_start + next_line_length
    };
    notes_state.set_cursor_pos(new_pos);
}

/// Moves the cursor to the same column on the next line, or to that line's
/// end where it is shorter; on the last line nothing changes.
/// With no note selected, nothing changes.
pub fn move_cursor_down(notes_state: &mut NotesState)
    requires
        old(notes_state).has_selected_note() ==> cursor_in_text(*old(notes_state)),
    ensures
        !old(notes_state).has_selected_note() ==> *final(notes_state) == *old(notes_state),
        old(notes_state).has_selected_note() ==> {
            &&& cursor_moved_to(
                *old(notes_state),
                *final(notes_state),
                cursor_after_down(sel_text(*old(notes_state)), old(notes_state).spec_cursor() as int),
            )
            &&& cursor_in_text(*final(notes_state))
        },
{
    if notes_state.has_selected() {
        move_cursor_down_in_note(notes_state);
    }
}

/// The first newline of `t` is at `k` when none comes before `k` and `k`
/// holds one or is the end.
proof fn lemma_first_newline(t: Seq<char>, k: int)
    requires
        0 <= k <= t.len(),
        forall|i: int| 0 <= i < k ==> t[i] != '\n',
        k < t.len() ==> t[k] == '\n',
    ensures
        first_newline(t) == k,
    decreases k,
{
    if k > 0 {
        lemma_first_newline(t.drop_first(), k - 1);
    }
}

/// Typing a character and then deleting it with backspace gives back the
/// text and the cursor that were there before, and leaves every other note,
/// the selection and the order as they were.
pub proof fn lemma_insert_then_backspace(a: NotesState, b: NotesState, d: NotesState, c: char)
    requires
        cursor_in_text(a),
        text_edited(a, b, sel_text(a).insert(a.spec_cursor() as int, c), a.spec_cursor() + 1),
        text_edited(b, d, sel_text(b).remove(b.spec_cursor() - 1), b.spec_cursor() - 1),
    ensures
        sel_text(d) == sel_text(a),
        d.spec_cursor() == a.spec_cursor(),
        d.spec_selected() == a.spec_selected(),
        d.spec_notes().remove(a.spec_selected()->0) == a.spec_notes().remove(a.spec_selected()->0),
        d.selected_note().x == a.selected_note().x,
        d.selected_note().y == a.selected_note().y,
        d.selected_note().data.color == a.selected_note().data.color,
        d.selected_note().data.selected == a.selected_note().data.selected,
        d.spec_render_order() == a.spec_render_order(),
        d.spec_next_id() == a.spec_next_id(),
{
    let p = a.spec_cursor() as int;
    assert(sel_text(a).insert(p, c).remove(p) =~= sel_text(a));
}

} // verus!
