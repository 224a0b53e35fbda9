use vstd::prelude::*;

use crate::input::map::helpers::help_page_valid;
use crate::input::map::text_editing::cursor_in_text;
use crate::states::map::{center_fits, no_self_connections, MapState, Mode};

verus! {

/// The modes that work on the selected note.
pub open spec fn needs_selection(m: Mode) -> bool {
    m != Mode::Normal
}

/// The modes that edit the selected note's text.
pub open spec fn is_edit_mode(m: Mode) -> bool {
    m == Mode::Edit || m == Mode::EditNormal || m == Mode::EditInsert
}

/// The invariant of the map screen between two keys, but for the
/// selection: the notes and the connection index are consistent; no
/// connection runs from a note to itself and every stored one has both ends
/// and sides; the connection being drawn has a target side exactly when it
/// has a target note; the help page is valid; the edit modes keep the
/// cursor within its text, the others at 0.
pub open spec fn map_ready_but_selection(ms: MapState) -> bool {
    &&& ms.notes_state.wf()
    &&& ms.connections_state.wf()
    &&& no_self_connections(ms.connections_state.spec_connections())
    &&& forall|i: int|
        0 <= i < ms.connections_state.spec_connections().len() ==> (#[trigger] ms.connections_state.spec_connections()[i]).to_id is Some
            && ms.connections_state.spec_connections()[i].to_side is Some
    &&& (ms.connections_state.focused_connection matches Some(c) ==> {
        &&& c.to_id != Some(c.from_id)
        &&& (c.to_id is Some <==> c.to_side is Some)
    })
    &&& help_page_valid(ms.ui_state.help_screen)
    &&& is_edit_mode(ms.current_mode) ==> cursor_in_text(ms.notes_state)
    &&& !is_edit_mode(ms.current_mode) ==> ms.notes_state.spec_cursor() == 0
}

/// The invariant of the map screen between two keys: `map_ready_but_selection`,
/// and every mode but Normal has an existing selected note.
pub open spec fn map_ready(ms: MapState) -> bool {
    &&& map_ready_but_selection(ms)
    &&& needs_selection(ms.current_mode) ==> ms.notes_state.has_selected_note()
}

/// The machine limits a key on the map screen stays within: the viewport
/// center, the next note ID and the number of connections fit, and the
/// viewport and the selected note can move by 5 in each direction.
pub open spec fn map_bounds(ms: MapState) -> bool {
    &&& center_fits(ms.viewport)
    &&& ms.notes_state.spec_next_id() < usize::MAX
    &&& ms.connections_state.spec_connections().len() + 1 < usize::MAX
    &&& ms.viewport.view_pos.x + 5 <= usize::MAX
    &&& ms.viewport.view_pos.y + 5 <= usize::MAX
    &&& ms.notes_state.has_selected_note() ==> {
        &&& ms.notes_state.selected_note().x + 5 <= usize::MAX
        &&& ms.notes_state.selected_note().y + 5 <= usize::MAX
    }
}

} // verus!
