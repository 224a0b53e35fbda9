use vstd::prelude::*;

use crate::input::map::ready::{map_ready};
use crate::input::map::text_editing::{
    backspace_char, cursor_after_down, cursor_after_up, cursor_moved_to, cursor_pos_beginning,
    insert_char, min, move_cursor_down, move_cursor_left, move_cursor_right, move_cursor_up,
    sel_text, text_edited,
};
use crate::input::map::vim::{
    append, cursor_after_back_word, cursor_after_forward_word, cursor_pos_end, jump_back_a_word,
    jump_forward_a_word, last_cluster_start, move_cursor_right_norm, next_cluster_pos, remove_char,
    switch_to_modal_insert_mode, switch_to_modal_normal_mode,
};
use crate::input::{AppAction, KeyCode, KeyEvent};
use crate::states::map::{with_selected, MapState, Mode, PersistenceState, UIState};

verus! {

/// What a key in the edit modes does to the map: `s` before, `t` after.
pub open spec fn edit_key_outcome(s: MapState, t: MapState, key: KeyEvent) -> bool {
    let a = s.notes_state;
    let b = t.notes_state;
    let txt = sel_text(a);
    let p = a.spec_cursor() as int;
    let leaving = key.code == KeyCode::Esc && (s.current_mode == Mode::Edit || s.current_mode
        == Mode::EditNormal);
    let edits = if s.current_mode == Mode::EditNormal {
        key.code == KeyCode::Char('x')
    } else {
        key.code is Char || key.code == KeyCode::Enter || key.code == KeyCode::Backspace
    };
    &&& t.ui_state == (UIState { needs_clear_and_redraw: true, ..s.ui_state })
    &&& t.viewport == s.viewport
    &&& t.connections_state == s.connections_state
    &&& t.settings == s.settings
    &&& t.settings_err_msg == s.settings_err_msg
    &&& t.persistence == (if edits {
        PersistenceState { can_exit: false, ..s.persistence }
    } else {
        s.persistence
    })
    &&& if leaving {
        &&& t.current_mode == Mode::Normal
        &&& b.spec_selected() is None
        &&& b.spec_cursor() == 0
        &&& b.spec_notes() == a.spec_notes().insert(
            a.spec_selected()->0,
            with_selected(a.spec_notes()[a.spec_selected()->0], false),
        )
        &&& b.spec_render_order() == a.spec_render_order()
        &&& b.spec_next_id() == a.spec_next_id()
    } else if s.current_mode == Mode::EditNormal {
        match key.code {
            KeyCode::Char('i') => t.current_mode == Mode::EditInsert && b == a,
            KeyCode::Char('h') => t.current_mode == Mode::EditNormal && cursor_moved_to(
                a,
                b,
                if p > 0 { p - 1 } else { 0 },
            ),
            KeyCode::Char('j') => t.current_mode == Mode::EditNormal && cursor_moved_to(
                a,
                b,
                cursor_after_down(txt, p),
            ),
            KeyCode::Char('k') => t.current_mode == Mode::EditNormal && cursor_moved_to(
                a,
                b,
                cursor_after_up(txt, p),
            ),
            KeyCode::Char('l') => t.current_mode == Mode::EditNormal && cursor_moved_to(
                a,
                b,
                min(next_cluster_pos(txt, p, p), last_cluster_start(txt)),
            ),
            KeyCode::Char('g') => t.current_mode == Mode::EditNormal && cursor_moved_to(a, b, 0),
            KeyCode::Char('G') => t.current_mode == Mode::EditNormal && cursor_moved_to(
                a,
                b,
                last_cluster_start(txt),
            ),
            KeyCode::Char('w') => t.current_mode == Mode::EditNormal && cursor_moved_to(
                a,
                b,
                min(cursor_after_forward_word(txt, p), txt.len() as int),
            ),
            KeyCode::Char('b') => t.current_mode == Mode::EditNormal && cursor_moved_to(
                a,
                b,
                cursor_after_back_word(txt, p),
            ),
            KeyCode::Char('a') => t.current_mode == Mode::EditInsert && cursor_moved_to(
                a,
                b,
                next_cluster_pos(txt, p, txt.len() as int),
            ),
            KeyCode::Char('x') => {
                &&& t.current_mode == Mode::EditNormal
                &&& !t.persistence.can_exit
                &&& if p >= txt.len() {
                    b == a
                } else {
                    let end = next_cluster_pos(txt, p, txt.len() as int);
                    let nt = txt.subrange(0, p) + txt.subrange(end, txt.len() as int);
                    text_edited(a, b, nt, if nt.len() == 0 { 0 } else { min(p, last_cluster_start(nt)) })
                }
            },
            _ => t.current_mode == Mode::EditNormal && b == a,
        }
    } else {
        match key.code {
            KeyCode::Esc => t.current_mode == Mode::EditNormal && cursor_moved_to(
                a,
                b,
                if p > 0 { p - 1 } else { 0 },
            ),
            KeyCode::Char(c) => {
                &&& t.current_mode == s.current_mode
                &&& !t.persistence.can_exit
                &&& text_edited(a, b, txt.insert(p, c), p + 1)
            },
            KeyCode::Enter => {
                &&& t.current_mode == s.current_mode
                &&& !t.persistence.can_exit
                &&& text_edited(a, b, txt.insert(p, '\n'), p + 1)
            },
            KeyCode::Backspace => {
                &&& t.current_mode == s.current_mode
                &&& !t.persistence.can_exit
                &&& if p > 0 {
                    text_edited(a, b, txt.remove(p - 1), p - 1)
                } else {
                    b == a
                }
            },
            KeyCode::Left => t.current_mode == s.current_mode && cursor_moved_to(
                a,
                b,
                if p > 0 { p - 1 } else { 0 },
            ),
            KeyCode::Right => t.current_mode == s.current_mode && cursor_moved_to(
                a,
                b,
                min(p + 1, txt.len() as int),
            ),
            KeyCode::Up => t.current_mode == s.current_mode && cursor_moved_to(
                a,
                b,
                cursor_after_up(txt, p),
            ),
            KeyCode::Down => t.current_mode == s.current_mode && cursor_moved_to(
                a,
                b,
                cursor_after_down(txt, p),
            ),
            _ => t.current_mode == s.current_mode && b == a,
        }
    }
}

/// Handles keyboard input for the edit modes.
///
/// In plain editing (and modal insert), Esc leaves editing (to Normal,
/// clearing the selection; in modal insert back to modal normal, one
/// character left), characters and Enter are inserted, Backspace deletes
/// and the arrows move the cursor. In modal normal, Esc leaves editing, `i`
/// inserts, h/j/k/l move, `g`/`G` go to the start/last cluster, `w`/`b`
/// jump words, `a` appends and `x` deletes a cluster.
pub fn map_edit_kh(map_state: &mut MapState, key: KeyEvent) -> (r: AppAction)
    requires
        old(map_state).current_mode == Mode::Edit || old(map_state).current_mode == Mode::EditNormal
            || old(map_state).current_mode == Mode::EditInsert,
        map_ready(*old(map_state)),
    ensures
        r == AppAction::Continue,
        map_ready(*final(map_state)),
        final(map_state).ui_state.needs_clear_and_redraw,
        final(map_state).connections_state == old(map_state).connections_state,
        edit_key_outcome(*old(map_state), *final(map_state), key),
{
    if map_state.current_mode == Mode::EditNormal {
        match key.code {
            KeyCode::Esc => {
                cursor_pos_beginning(&mut map_state.notes_state);
                map_state.notes_state.deselect();
                map_state.current_mode = Mode::Normal;
            },
            KeyCode::Char('i') => switch_to_modal_insert_mode(map_state),
            KeyCode::Char('h') => move_cursor_left(&mut map_state.notes_state),
            KeyCode::Char('j') => move_cursor_down(&mut map_state.notes_state),
            KeyCode::Char('k') => move_cursor_up(&mut map_state.notes_state),
            KeyCode::Char('l') => move_cursor_right_norm(&mut map_state.notes_state),
            KeyCode::Char('g') => cursor_pos_beginning(&mut map_state.notes_state),
            KeyCode::Char('G') => cursor_pos_end(&mut map_state.notes_state),
            KeyCode::Char('w') => jump_forward_a_word(&mut map_state.notes_state),
            KeyCode::Char('b') => jump_back_a_word(&mut map_state.notes_state),
            KeyCode::Char('a') => append(map_state),
            KeyCode::Char('x') => remove_char(map_state),
            _ => {},
        }
    } else {
        match key.code {
            KeyCode::Esc => {
                if map_state.current_mode == Mode::Edit {
                    cursor_pos_beginning(&mut map_state.notes_state);
                    map_state.notes_state.deselect();
                    map_state.current_mode = Mode::Normal;
                } else {
                    // Vim behavior: move cursor back one position when leaving insert mode
                    move_cursor_left(&mut map_state.notes_state);
                    switch_to_modal_normal_mode(map_state);
                }
            },
            KeyCode::Char(c) => insert_char(map_state, c),
            KeyCode::Enter => insert_char(map_state, '\n'),
            KeyCode::Backspace => backspace_char(map_state),
            KeyCode::Left => move_cursor_left(&mut map_state.notes_state),
            KeyCode::Right => move_cursor_right(&mut map_state.notes_state),
            KeyCode::Up => move_cursor_up(&mut map_state.notes_state),
            KeyCode::Down => move_cursor_down(&mut map_state.notes_state),
            _ => {},
        }
    }
    // Always redraw to reflect cursor movement and text changes
    map_state.clear_and_redraw();
    AppAction::Continue
}

} // verus!
