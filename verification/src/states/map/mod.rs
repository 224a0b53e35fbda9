mod connections_state;
mod drawing;
mod enums;
mod persistence;
mod state;
mod ui_state;
mod viewport;
mod visual_mode;

pub use crate::graph::Side;
pub use connections_state::{
    complete_only, index_consistent, indexes_exactly, lemma_without_touching_elems, no_self_connections, shifted_list, touches,
    c_touches, lemma_without_touching_keeps_others, touching_count, without_touching, Connection, ConnectionManager, ConnectionsState,
};
pub use drawing::{
    column_before, corner_index, cursor_row_col, junction_index, newlines_before, seg_dir,
    segment_directions, segment_dirs, spec_corner_index, SegDir, clip_note, cursor_cell, note_frame, NoteClip, NoteFrame,
    junction_set, line_on_screen, meeting_side, point_on_screen, shown_color, JunctionSet, ShownColor,
};
pub use enums::{BackupResult, DiscardMenuType, Mode, Notification};
pub use state::{center_fits, edit_mode_for, error_of, loaded_states, MapState};
pub use persistence::{more_than_secs, runtime_backup_due, runtime_interval_secs, runtime_backup_interval_secs, save_due, PersistenceState};
pub use ui_state::UIState;
pub use viewport::{spec_center, ViewPos, ViewportState};
pub use visual_mode::VisualModeState;
mod note;
mod notes_state;
pub use note::{
    enforce_note_dimensions, line_lengths, newline_pieces, note_dimensions, strip_cr, text_line_lengths,
    text_lines, Note, NoteData,
};
pub use notes_state::{manhattan, moved_to_back, notes_consistent, with_selected, without_first, NotesState};
