//! Key handling of the map screen and the editing operations it triggers.

mod delete;
mod edit;
mod helpers;
mod normal;
mod ready;
mod text_editing;
mod visual;
mod vim;

pub use text_editing::{
    backspace_char, cursor_after_down, cursor_after_up, cursor_in_text, cursor_moved_to,
    cursor_pos_beginning, down_scan, first_newline, insert_char, lemma_insert_then_backspace, move_cursor_down, move_cursor_left,
    min, move_cursor_right, move_cursor_up, rest_kept_dirty, sel_text, text_edited, up_scan,
};
pub use vim::{
    append, cluster_start, current_word_start, cursor_after_back_word, cursor_after_forward_word, forward_ws_start,
    cursor_pos_end, first_non_ws, first_ws_from, is_delim, is_ws_cluster, jump_back_a_word,
    jump_forward_a_word, last_cluster_start, last_delim_before, move_cursor_right_norm,
    next_cluster_pos, previous_word_start, remove_char, switch_to_modal_insert_mode,
    switch_to_modal_normal_mode, trim_delims_before,
};
pub use helpers::{
    at_least_as_close, cycle_color, cycle_side, direction, dist, focus_dir_of, focus_switched, follow_x, follow_y, help_next_page,
    help_page_valid, help_previous_page, in_cone, is_candidate, is_x, is_y,
    lemma_color_cycle_period, lemma_help_pages_inverse, move_fits, move_note, move_viewport, moved, note_moved,
    next_help_page, previous_help_page, spec_cycle_color, switch_notes_focus,
};
pub use normal::{
    help_after_key, is_fresh_settings, map_normal_kh, map_to_start, normal_key_outcome, redrawn, to_settings,
    viewport_move_of, with_ui,
};
pub use ready::{is_edit_mode, map_bounds, map_ready, map_ready_but_selection, needs_selection};
pub use visual::{
    can_cycle, lemma_rotate_turns_only_selected_ends, left_to_normal, map_visual_kh, redrawn_from, note_move_of, rotated, stashed, visual_key_outcome,
};
pub use delete::{delete_key_outcome, map_delete_kh};
pub use edit::{edit_key_outcome, map_edit_kh};
