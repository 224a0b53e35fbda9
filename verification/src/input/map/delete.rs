use vstd::prelude::*;

use crate::input::map::ready::{map_ready, map_ready_but_selection};
use crate::input::{AppAction, KeyCode, KeyEvent};
use crate::states::map::{
    lemma_without_touching_elems, without_first, without_touching, MapState, Mode, PersistenceState, UIState,
};

verus! {

/// What a key in Delete mode does to the map: `s` before, `t` after.
pub open spec fn delete_key_outcome(s: MapState, t: MapState, key: KeyEvent) -> bool {
    let id = s.notes_state.spec_selected()->0;
    let deletes = key.code == KeyCode::Char('d') && s.notes_state.spec_selected() is Some;
    &&& t.ui_state == (UIState { needs_clear_and_redraw: true, ..s.ui_state })
    &&& t.viewport == s.viewport
    &&& t.settings == s.settings
    &&& t.settings_err_msg == s.settings_err_msg
    &&& t.persistence == (if deletes {
        PersistenceState { can_exit: false, ..s.persistence }
    } else {
        s.persistence
    })
    &&& match key.code {
        KeyCode::Char('d') if s.notes_state.spec_selected() is None => t.current_mode == Mode::Delete
            && t.notes_state == s.notes_state && t.connections_state == s.connections_state
            && t.persistence == s.persistence,
        KeyCode::Esc => t.current_mode == Mode::Visual && t.notes_state == s.notes_state
            && t.connections_state == s.connections_state,
        KeyCode::Char('d') => {
            &&& t.current_mode == Mode::Normal
            &&& !t.persistence.can_exit
            &&& t.notes_state.spec_notes() == s.notes_state.spec_notes().remove(id)
            &&& t.notes_state.spec_render_order() == without_first(s.notes_state.spec_render_order(), id)
            &&& t.notes_state.spec_selected() is None
            &&& t.notes_state.spec_next_id() == s.notes_state.spec_next_id()
            &&& t.notes_state.spec_cursor() == s.notes_state.spec_cursor()
            &&& t.connections_state.focused_connection == s.connections_state.focused_connection
            &&& t.connections_state.editing_connection_index == s.connections_state.editing_connection_index
            &&& t.connections_state.spec_connections() == without_touching(
                s.connections_state.spec_connections(),
                id,
            )
            &&& !t.connections_state.spec_index().contains_key(id)
        },
        _ => t.current_mode == Mode::Delete && t.notes_state == s.notes_state
            && t.connections_state == s.connections_state,
    }
}

/// Handles keyboard input for Delete mode: Esc goes back to Visual, `d`
/// deletes the selected note with all its connections and returns to Normal
/// (with no note selected, `d` does nothing).
pub fn map_delete_kh(map_state: &mut MapState, key: KeyEvent) -> (r: AppAction)
    requires
        old(map_state).current_mode == Mode::Delete,
        map_ready_but_selection(*old(map_state)),
    ensures
        r == AppAction::Continue,
        map_ready_but_selection(*final(map_state)),
        map_ready(*old(map_state)) ==> map_ready(*final(map_state)),
        final(map_state).ui_state.needs_clear_and_redraw,
        delete_key_outcome(*old(map_state), *final(map_state), key),
{
    match key.code {
        KeyCode::Esc => {
            map_state.current_mode = Mode::Visual;
        },
        KeyCode::Char('d') => {
            if let Some(selected_note_id) = map_state.notes_state.selected_note_id() {
                map_state.persistence.mark_dirty();
                map_state.notes_state.remove(selected_note_id);
                map_state.connections_state.remove_note(selected_note_id);
                map_state.current_mode = Mode::Normal;
                proof {
                    lemma_without_touching_elems(old(map_state).connections_state.spec_connections(), selected_note_id);
                }
            }
        },
        _ => {},
    }
    map_state.clear_and_redraw();
    AppAction::Continue
}

} // verus!
