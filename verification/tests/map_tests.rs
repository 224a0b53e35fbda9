use std::collections::HashSet;

use tmmpr::color::Color;
use tmmpr::fs::FileSystem;
use tmmpr::graph::{get_offset_point, NodeLayout, Point, Side, SignedRect};
use tmmpr::states::map::{
    clip_note, cursor_cell, junction_set, line_on_screen, meeting_side, note_frame, shown_color, JunctionSet, NoteFrame,
    ShownColor,
};
use tmmpr::input::map::{
    append, backspace_char, cursor_pos_beginning, cursor_pos_end, cycle_color, cycle_side,
    help_next_page, help_previous_page, insert_char, jump_back_a_word, jump_forward_a_word,
    move_cursor_down, move_cursor_left, move_cursor_right, move_cursor_right_norm, move_cursor_up,
    move_note, move_viewport, remove_char, switch_notes_focus, switch_to_modal_insert_mode,
    switch_to_modal_normal_mode,
};
use tmmpr::input::{map_kh, AppAction, KeyCode, KeyEvent, KeyModifiers};
use tmmpr::states::map::{Connection, ConnectionsState, MapState, Mode, Note, NoteData, NotesState};
use tmmpr::states::settings::Settings;
use tmmpr::states::start::RecentPaths;

/// A file system held in memory: a home directory, the paths that exist,
/// and switches that make directory creation or writing fail.
struct MockFileSystem {
    home: Option<String>,
    existing: HashSet<String>,
    dir_create_fails: bool,
    write_fails: bool,
}

impl MockFileSystem {
    fn new() -> Self {
        MockFileSystem {
            home: Some("/mock/home".to_string()),
            existing: HashSet::new(),
            dir_create_fails: false,
            write_fails: false,
        }
    }

    fn with_home_dir(mut self, home: Option<&str>) -> Self {
        self.home = home.map(|h| h.to_string());
        self
    }

    fn with_dir_create_failure(mut self) -> Self {
        self.dir_create_fails = true;
        self
    }

    fn with_write_failure(mut self) -> Self {
        self.write_fails = true;
        self
    }
}

impl FileSystem for MockFileSystem {
    fn get_home_dir(&self) -> Option<String> {
        self.home.clone()
    }

    fn create_dir_all(&self, _path: &str) -> bool {
        !self.dir_create_fails
    }

    fn path_exists(&self, path: &str) -> bool {
        self.existing.contains(path)
    }

    fn test_write_to_dir(&self, _path: &str) -> bool {
        !self.write_fails
    }

    fn read_settings(&self, _path: &str) -> Option<Settings> {
        None
    }

    fn write_settings(&self, _path: &str, _settings: &Settings) -> bool {
        !self.write_fails
    }

    fn read_recent_paths(&self, _path: &str) -> Option<RecentPaths> {
        None
    }

    fn write_recent_paths(&self, _path: &str, _recent_paths: &RecentPaths) -> bool {
        !self.write_fails
    }
}

fn map_state() -> MapState {
    let mut map_state = MapState::new_with_fs("/test/path".to_string(), &MockFileSystem::new());
    map_state.settings.edit_modal = false;
    map_state.viewport.screen_width = 100;
    map_state.viewport.screen_height = 50;
    map_state.persistence.mark_clean();
    map_state
}

/// A map with one selected note holding `text`, the cursor at `cursor`.
fn editing(text: &str, cursor: usize) -> MapState {
    let mut ms = map_state();
    ms.notes_state.add(10, 10, text.to_string(), true, Color::White);
    ms.notes_state.set_cursor_pos(cursor);
    ms.current_mode = Mode::Edit;
    ms
}

fn text(ms: &MapState) -> String {
    ms.notes_state.expect_selected_note().data.content.clone()
}

fn key(code: KeyCode) -> KeyEvent {
    KeyEvent::new(code, KeyModifiers::Plain)
}

fn note(x: usize, y: usize, content: &str) -> Note {
    Note::new(x, y, NoteData::new(content.to_string(), Color::White))
}

/// Recomputes, from the connections alone, the positions that touch `id`.
fn touching(cs: &ConnectionsState, id: usize) -> Vec<usize> {
    cs.connections()
        .iter()
        .enumerate()
        .filter(|(_, c)| c.from_id == id || c.to_id == Some(id))
        .map(|(i, _)| i)
        .collect()
}

fn assert_index_consistent(cs: &ConnectionsState, ids: &[usize]) {
    for &id in ids {
        assert_eq!(cs.get_indices_for_note(id).to_vec(), touching(cs, id));
    }
}

fn conn(from: usize, to: usize) -> Connection {
    Connection {
        from_id: from,
        from_side: Side::Right,
        to_id: Some(to),
        to_side: Some(Side::Left),
        color: Color::White,
    }
}

// ---------------------------------------------------------------------------
// Notes and their dimensions
// ---------------------------------------------------------------------------

#[test]
fn test_note_creation() {
    let n = Note::new(10, 5, NoteData::new("Hello World".to_string(), Color::Red));
    assert_eq!(n.x, 10);
    assert_eq!(n.y, 5);
    assert_eq!(n.data.content, "Hello World");
    assert_eq!(n.data.color, Color::Red);
}

#[test]
fn test_get_dimensions_empty_content() {
    assert_eq!(note(0, 0, "").data.dimensions(), (21, 4));
}

#[test]
fn test_get_dimensions_single_line() {
    assert_eq!(note(0, 0, "Hello").data.dimensions(), (21, 4));
}

#[test]
fn test_get_dimensions_multiline() {
    assert_eq!(note(0, 0, "Hello\nWorld\nTest").data.dimensions(), (21, 5));
}

#[test]
fn test_get_dimensions_multiline_different_lengths() {
    assert_eq!(note(0, 0, "Hi\nThis is a looooonger line\nShort").data.dimensions(), (28, 5));
}

#[test]
fn test_get_dimensions_trailing_newline() {
    assert_eq!(note(0, 0, "Hello\nWorld\n").data.dimensions(), (21, 5));
}

#[test]
fn test_get_dimensions_wide_characters() {
    // Each CJK character takes two columns: 12 columns + 3.
    assert_eq!(note(0, 0, "世界世界世界世界世界世界").data.dimensions(), (27, 4));
}

#[test]
fn test_get_connection_point_right() {
    let n = note(10, 20, "Test\nContent");
    let (w, h) = n.data.dimensions();
    assert_eq!(n.connection_point(Side::Right), (10 + w as usize - 1, 20 + (h / 2) as usize));
}

#[test]
fn test_get_connection_point_left() {
    let n = note(10, 20, "Test\nContent");
    let (_, h) = n.data.dimensions();
    assert_eq!(n.connection_point(Side::Left), (10, 20 + (h / 2) as usize));
}

#[test]
fn test_get_connection_point_top() {
    let n = note(10, 20, "Test\nContent");
    let (w, _) = n.data.dimensions();
    assert_eq!(n.connection_point(Side::Top), (10 + (w / 2) as usize, 20));
}

#[test]
fn test_get_connection_point_bottom() {
    let n = note(10, 20, "Test\nContent");
    let (w, h) = n.data.dimensions();
    assert_eq!(n.connection_point(Side::Bottom), (10 + (w / 2) as usize, 20 + h as usize - 1));
}

#[test]
fn test_get_connection_point_minimum_size() {
    let n = note(0, 0, "Hi");
    assert_eq!(n.connection_point(Side::Right).0, 20);
}

#[test]
fn test_connection_points_all_sides() {
    let n = note(100, 200, "Large\nNote\nContent\nHere");
    let right = n.connection_point(Side::Right);
    let left = n.connection_point(Side::Left);
    let top = n.connection_point(Side::Top);
    let bottom = n.connection_point(Side::Bottom);
    assert!(right.0 > n.x);
    assert_eq!(left.0, n.x);
    assert!(top.1 == n.y);
    assert!(bottom.1 > n.y);
    assert_eq!(right.1, left.1);
    assert_eq!(top.0, bottom.0);
}

// ---------------------------------------------------------------------------
// NotesState
// ---------------------------------------------------------------------------

#[test]
fn test_notes_add_gives_fresh_ids_in_render_order() {
    let mut ns = NotesState::new();
    ns.add(1, 2, "a".to_string(), true, Color::White);
    ns.add(3, 4, "b".to_string(), true, Color::White);
    ns.add(5, 6, "c".to_string(), true, Color::White);
    assert_eq!(ns.notes().len(), 3);
    assert_eq!(ns.render_order(), &vec![0, 1, 2]);
    assert_eq!(ns.next_note_id_counter(), 3);
    assert_eq!(ns.selected_note_id(), Some(2));
}

#[test]
fn test_notes_select_brings_to_front() {
    let mut ns = NotesState::new();
    for i in 0..3 {
        ns.add(i, i, String::new(), false, Color::White);
    }
    ns.select(0);
    assert_eq!(ns.render_order(), &vec![1, 2, 0]);
    assert_eq!(ns.selected_note_id(), Some(0));
    assert!(ns.notes()[&0].data.selected);
}

#[test]
fn test_notes_remove_and_deselect() {
    let mut ns = NotesState::new();
    for i in 0..3 {
        ns.add(i, i, String::new(), false, Color::White);
    }
    ns.remove(1);
    assert_eq!(ns.render_order(), &vec![0, 2]);
    assert!(!ns.notes().contains_key(&1));
    assert_eq!(ns.selected_note_id(), None);

    ns.select(2);
    ns.deselect();
    assert_eq!(ns.selected_note_id(), None);
    assert!(!ns.notes()[&2].data.selected);
    // a removed ID is not given out again
    ns.add(9, 9, String::new(), false, Color::White);
    assert_eq!(ns.selected_note_id(), Some(3));
}

#[test]
fn test_find_closest_note() {
    let mut ns = NotesState::new();
    assert_eq!(ns.find_closest_note(0, 0), None);
    ns.add(100, 100, String::new(), false, Color::White);
    ns.add(10, 12, String::new(), false, Color::White);
    ns.add(50, 0, String::new(), false, Color::White);
    assert_eq!(ns.find_closest_note(0, 0), Some(1));
    assert_eq!(ns.find_closest_note(90, 95), Some(0));
    assert_eq!(ns.find_closest_note(50, 5), Some(2));
}

#[test]
fn test_set_cursor_pos_clamps() {
    let mut ns = NotesState::new();
    ns.add(0, 0, "héllo".to_string(), true, Color::White);
    ns.set_cursor_pos(3);
    assert_eq!(ns.cursor_pos(), 3);
    ns.set_cursor_pos(99);
    assert_eq!(ns.cursor_pos(), 5);
}

// ---------------------------------------------------------------------------
// MapState
// ---------------------------------------------------------------------------

#[test]
fn state_tests_test_add_note() {
    let mut ms = map_state();
    ms.add_note();
    assert_eq!(ms.notes_state.notes().len(), 1);
    let n = &ms.notes_state.notes()[&0];
    assert_eq!((n.x, n.y), (50, 25));
    assert_eq!(n.data.content, "");
    assert!(n.data.selected);
    assert_eq!(ms.current_mode, Mode::Edit);
    assert!(!ms.persistence.can_exit);
    assert_eq!(*ms.notes_state.render_order(), vec![0]);
    assert_eq!(ms.notes_state.selected_note_id(), Some(0));
    assert_eq!(ms.notes_state.next_note_id_counter(), 1);
}

#[test]
fn test_add_several_notes() {
    let mut ms = map_state();
    ms.add_note();
    ms.add_note();
    ms.add_note();
    assert_eq!(ms.notes_state.notes().len(), 3);
    assert_eq!(ms.notes_state.selected_note_id(), Some(2));
}

#[test]
fn test_add_note_diff_viewpos() {
    let mut ms = map_state();
    ms.viewport.view_pos.x = 100;
    ms.viewport.view_pos.y = 200;
    ms.add_note();
    let n = &ms.notes_state.notes()[&0];
    assert_eq!((n.x, n.y), (150, 225));
}

#[test]
fn test_new() {
    let ms = MapState::new_with_fs("/test/path".to_string(), &MockFileSystem::new());
    assert_eq!(ms.current_mode, Mode::Normal);
    assert_eq!(ms.viewport.view_pos.x, 0);
    assert_eq!(ms.notes_state.notes().len(), 0);
    assert_eq!(ms.connections_state.connections().len(), 0);
    assert_eq!(ms.persistence.file_write_path, "/test/path");
    assert!(ms.persistence.can_exit);
    assert_eq!(ms.settings_err_msg, None);
}

#[test]
fn test_new_settings_error_is_kept() {
    let ms = MapState::new_with_fs("/p".to_string(), &MockFileSystem::new().with_home_dir(None));
    assert_eq!(ms.settings_err_msg, Some(tmmpr::states::start::ErrMsg::DirFind));
    assert_eq!(ms.settings.save_interval, Some(20));
}

#[test]
fn test_clear_and_redraw() {
    let mut ms = map_state();
    ms.ui_state.mark_redrawn();
    ms.clear_and_redraw();
    assert!(ms.ui_state.needs_clear_and_redraw);
}

#[test]
fn test_switch_to_edit_mode_without_modal() {
    let mut ms = map_state();
    ms.switch_to_edit_mode();
    assert_eq!(ms.current_mode, Mode::Edit);
}

#[test]
fn test_switch_to_edit_mode_with_modal() {
    let mut ms = map_state();
    ms.settings.edit_modal = true;
    ms.switch_to_edit_mode();
    assert_eq!(ms.current_mode, Mode::EditNormal);
}

#[test]
fn test_select_note_empty_map() {
    let mut ms = map_state();
    ms.select_note();
    assert_eq!(ms.current_mode, Mode::Normal);
    assert_eq!(ms.notes_state.selected_note_id(), None);
}

#[test]
fn test_select_note_multiple_notes() {
    let mut ms = map_state();
    ms.notes_state.add(0, 0, String::new(), false, Color::White);
    ms.notes_state.add(48, 24, String::new(), false, Color::White);
    ms.notes_state.add(99, 49, String::new(), false, Color::White);
    ms.select_note();
    assert_eq!(ms.current_mode, Mode::Visual);
    assert_eq!(ms.notes_state.selected_note_id(), Some(1));
    assert!(ms.notes_state.notes()[&1].data.selected);
}

#[test]
fn test_auto_save_disabled() {
    let mut ms = map_state();
    ms.settings.save_interval = None;
    ms.persistence.mark_dirty();
    assert!(!ms.auto_save_if_needed());
}

#[test]
fn test_auto_save_no_unsaved_changes() {
    let mut ms = map_state();
    ms.persistence.mark_clean();
    assert!(!ms.auto_save_if_needed());
}

#[test]
fn test_auto_save_not_enough_time_passed() {
    let mut ms = map_state();
    ms.settings.save_interval = Some(20);
    ms.persistence.mark_dirty();
    assert!(!ms.auto_save_if_needed());
}

// ---------------------------------------------------------------------------
// ConnectionsState: the index always lists exactly the touching connections
// ---------------------------------------------------------------------------

#[test]
fn test_stash_connection_with_target() {
    let mut cs = ConnectionsState::new();
    cs.focused_connection = Some(conn(0, 1));
    cs.stash_connection();
    assert_eq!(cs.connections().len(), 1);
    assert_eq!(cs.focused_connection, None);
    assert_eq!(cs.get_indices_for_note(0), &[0]);
    assert_eq!(cs.get_indices_for_note(1), &[0]);
}

#[test]
fn test_stash_connection_without_target() {
    let mut cs = ConnectionsState::new();
    cs.focused_connection = Some(Connection { to_id: None, to_side: None, ..conn(0, 1) });
    cs.stash_connection();
    assert_eq!(cs.connections().len(), 0);
    assert_eq!(cs.focused_connection, None);
}

#[test]
fn test_take_out_connection() {
    let mut cs = ConnectionsState::from_connections(vec![conn(0, 1), conn(1, 2), conn(2, 0)]);
    cs.take_out_connection(1);
    assert_eq!(cs.focused_connection, Some(conn(1, 2)));
    assert_eq!(cs.connections(), &[conn(0, 1), conn(2, 0)]);
    assert_index_consistent(&cs, &[0, 1, 2]);
    assert_eq!(cs.get_indices_for_note(2), &[1]);
}

#[test]
fn test_remove_all_for_note() {
    let mut cs = ConnectionsState::from_connections(vec![
        conn(0, 1),
        conn(1, 2),
        conn(2, 0),
        conn(3, 1),
        conn(2, 3),
    ]);
    assert_eq!(cs.remove_all_for_note(1), 3);
    assert_eq!(cs.connections(), &[conn(2, 0), conn(2, 3)]);
    assert_index_consistent(&cs, &[0, 1, 2, 3]);
}

#[test]
fn test_remove_note_drops_its_entry() {
    let mut cs = ConnectionsState::from_connections(vec![conn(0, 1), conn(1, 2)]);
    cs.remove_note(1);
    assert_eq!(cs.connections().len(), 0);
    assert!(!cs.connection_index().contains_key(&1));
    assert_eq!(cs.get_indices_for_note(1), &[] as &[usize]);
}

#[test]
fn test_from_connections_drops_unfinished() {
    let unfinished = Connection { to_id: None, to_side: None, ..conn(5, 6) };
    let cs = ConnectionsState::from_connections(vec![conn(0, 1), unfinished, conn(1, 0)]);
    assert_eq!(cs.connections(), &[conn(0, 1), conn(1, 0)]);
    assert_eq!(cs.get_indices_for_note(0), &[0, 1]);
    assert_eq!(cs.get_connections_for_note(1).len(), 2);
    assert_index_consistent(&cs, &[0, 1, 5, 6]);
}

#[test]
fn test_index_stays_consistent_through_edits() {
    let mut cs = ConnectionsState::new();
    for (a, b) in [(0, 1), (1, 2), (2, 3), (3, 0), (0, 2)] {
        cs.focused_connection = Some(conn(a, b));
        cs.stash_connection();
        assert_index_consistent(&cs, &[0, 1, 2, 3]);
    }
    cs.take_out_connection(0);
    assert_index_consistent(&cs, &[0, 1, 2, 3]);
    cs.stash_connection();
    assert_index_consistent(&cs, &[0, 1, 2, 3]);
    cs.remove_all_for_note(2);
    assert_index_consistent(&cs, &[0, 1, 2, 3]);
    assert_eq!(cs.connections(), &[conn(3, 0), conn(0, 1)]);
}

// ---------------------------------------------------------------------------
// Text editing
// ---------------------------------------------------------------------------

#[test]
fn text_editing_tests_test_backspace_at_beginning() {
    let mut ms = editing("Hello", 0);
    backspace_char(&mut ms);
    assert_eq!(text(&ms), "Hello");
    assert_eq!(ms.notes_state.cursor_pos(), 0);
}

#[test]
fn test_backspace_in_middle() {
    let mut ms = editing("Hello", 3);
    backspace_char(&mut ms);
    assert_eq!(text(&ms), "Helo");
    assert_eq!(ms.notes_state.cursor_pos(), 2);
}

#[test]
fn test_backspace_at_end() {
    let mut ms = editing("Hello", 5);
    backspace_char(&mut ms);
    assert_eq!(text(&ms), "Hell");
    assert_eq!(ms.notes_state.cursor_pos(), 4);
}

#[test]
fn test_backspace_single_character() {
    let mut ms = editing("A", 1);
    backspace_char(&mut ms);
    assert_eq!(text(&ms), "");
    assert_eq!(ms.notes_state.cursor_pos(), 0);
}

#[test]
fn test_backspace_unicode() {
    let mut ms = editing("Hello 世界", 7);
    backspace_char(&mut ms);
    assert_eq!(text(&ms), "Hello 界");
    assert_eq!(ms.notes_state.cursor_pos(), 6);
}

#[test]
fn test_insert_unicode() {
    let mut ms = editing("Hello ", 6);
    insert_char(&mut ms, '世');
    assert_eq!(text(&ms), "Hello 世");
    assert_eq!(ms.notes_state.cursor_pos(), 7);
    assert!(!ms.persistence.can_exit);
}

#[test]
fn test_insert_then_backspace_restores() {
    let mut ms = editing("abc", 1);
    insert_char(&mut ms, 'X');
    assert_eq!(text(&ms), "aXbc");
    backspace_char(&mut ms);
    assert_eq!(text(&ms), "abc");
    assert_eq!(ms.notes_state.cursor_pos(), 1);
}

#[test]
fn test_insert_special_characters() {
    let mut ms = editing("Test", 4);
    insert_char(&mut ms, ' ');
    insert_char(&mut ms, '!');
    insert_char(&mut ms, '\n');
    assert_eq!(text(&ms), "Test !\n");
    assert_eq!(ms.notes_state.cursor_pos(), 7);
}

#[test]
fn test_move_cursor_left_right() {
    let mut ms = editing("ab", 0);
    move_cursor_left(&mut ms.notes_state);
    assert_eq!(ms.notes_state.cursor_pos(), 0);
    move_cursor_right(&mut ms.notes_state);
    move_cursor_right(&mut ms.notes_state);
    move_cursor_right(&mut ms.notes_state);
    assert_eq!(ms.notes_state.cursor_pos(), 2);
    move_cursor_left(&mut ms.notes_state);
    assert_eq!(ms.notes_state.cursor_pos(), 1);
    cursor_pos_beginning(&mut ms.notes_state);
    assert_eq!(ms.notes_state.cursor_pos(), 0);
}

#[test]
fn test_move_up_first_line_stays() {
    let mut ms = editing("Hello\nWorld", 3);
    move_cursor_up(&mut ms.notes_state);
    assert_eq!(ms.notes_state.cursor_pos(), 3);
}

#[test]
fn test_move_up_same_column() {
    let mut ms = editing("Hello\nWorld", 9);
    move_cursor_up(&mut ms.notes_state);
    assert_eq!(ms.notes_state.cursor_pos(), 3);
}

#[test]
fn test_move_up_snaps_to_shorter_line() {
    let mut ms = editing("Hi\nWorld", 8);
    move_cursor_up(&mut ms.notes_state);
    assert_eq!(ms.notes_state.cursor_pos(), 2);
}

#[test]
fn test_move_down_same_column() {
    let mut ms = editing("Hello\nWorld", 2);
    move_cursor_down(&mut ms.notes_state);
    assert_eq!(ms.notes_state.cursor_pos(), 8);
}

#[test]
fn test_move_down_last_line_stays() {
    let mut ms = editing("Hello\nWorld", 8);
    move_cursor_down(&mut ms.notes_state);
    assert_eq!(ms.notes_state.cursor_pos(), 8);
}

#[test]
fn test_move_down_snaps_to_shorter_line() {
    let mut ms = editing("Hello\nHi", 4);
    move_cursor_down(&mut ms.notes_state);
    assert_eq!(ms.notes_state.cursor_pos(), 8);
}

#[test]
fn test_move_down_then_up_returns() {
    let mut ms = editing("abcdef\nghijkl\nmnopqr", 3);
    move_cursor_down(&mut ms.notes_state);
    assert_eq!(ms.notes_state.cursor_pos(), 10);
    move_cursor_down(&mut ms.notes_state);
    assert_eq!(ms.notes_state.cursor_pos(), 17);
    move_cursor_up(&mut ms.notes_state);
    move_cursor_up(&mut ms.notes_state);
    assert_eq!(ms.notes_state.cursor_pos(), 3);
}

#[test]
fn test_move_down_with_multiple_empty_lines() {
    let mut ms = editing("a\n\n\nb", 0);
    move_cursor_down(&mut ms.notes_state);
    assert_eq!(ms.notes_state.cursor_pos(), 2);
    move_cursor_down(&mut ms.notes_state);
    assert_eq!(ms.notes_state.cursor_pos(), 3);
    move_cursor_down(&mut ms.notes_state);
    assert_eq!(ms.notes_state.cursor_pos(), 4);
}

// ---------------------------------------------------------------------------
// Modal (vim) editing
// ---------------------------------------------------------------------------

fn jumps_forward(s: &str, from: usize) -> usize {
    let mut ms = editing(s, from);
    jump_forward_a_word(&mut ms.notes_state);
    ms.notes_state.cursor_pos()
}

fn jumps_back(s: &str, from: usize) -> usize {
    let mut ms = editing(s, from);
    jump_back_a_word(&mut ms.notes_state);
    ms.notes_state.cursor_pos()
}

#[test]
fn test_switch_modal_modes() {
    let mut ms = editing("x", 0);
    switch_to_modal_insert_mode(&mut ms);
    assert_eq!(ms.current_mode, Mode::EditInsert);
    switch_to_modal_normal_mode(&mut ms);
    assert_eq!(ms.current_mode, Mode::EditNormal);
}

#[test]
fn test_jump_forward_a_word_empty_content() {
    assert_eq!(jumps_forward("", 0), 0);
}

#[test]
fn test_jump_forward_a_word_simple_two_words() {
    assert_eq!(jumps_forward("hello world", 0), 6);
}

#[test]
fn test_jump_forward_a_word_multiple_spaces() {
    assert_eq!(jumps_forward("hello   world", 0), 8);
}

#[test]
fn test_jump_forward_a_word_with_newline() {
    assert_eq!(jumps_forward("hello\nworld", 0), 6);
}

#[test]
fn test_jump_forward_a_word_no_more_words() {
    assert_eq!(jumps_forward("hello", 0), 4);
}

#[test]
fn test_jump_forward_a_word_already_at_end() {
    assert_eq!(jumps_forward("hello world", 10), 10);
}

#[test]
fn test_jump_forward_a_word_multiple_jumps() {
    let mut ms = editing("the quick brown fox", 0);
    for expected in [4, 10, 16, 18] {
        jump_forward_a_word(&mut ms.notes_state);
        assert_eq!(ms.notes_state.cursor_pos(), expected);
    }
}

#[test]
fn test_jump_forward_a_word_from_middle_of_word() {
    assert_eq!(jumps_forward("hello world", 2), 6);
}

#[test]
fn test_jump_forward_a_word_single_character_word() {
    let mut ms = editing("a b c", 0);
    jump_forward_a_word(&mut ms.notes_state);
    assert_eq!(ms.notes_state.cursor_pos(), 2);
    jump_forward_a_word(&mut ms.notes_state);
    assert_eq!(ms.notes_state.cursor_pos(), 4);
}

#[test]
fn test_jump_back_a_word_empty_content() {
    assert_eq!(jumps_back("", 0), 0);
}

#[test]
fn test_jump_back_a_word_already_at_beginning() {
    assert_eq!(jumps_back("hello world", 0), 0);
}

#[test]
fn test_jump_back_a_word_simple_two_words() {
    assert_eq!(jumps_back("hello world", 6), 0);
}

#[test]
fn test_jump_back_a_word_from_middle_of_word() {
    assert_eq!(jumps_back("hello world", 8), 6);
}

#[test]
fn test_jump_back_a_word_from_end_of_word() {
    assert_eq!(jumps_back("hello world", 10), 6);
}

#[test]
fn test_jump_back_a_word_multiple_spaces() {
    assert_eq!(jumps_back("hello   world", 8), 0);
}

#[test]
fn test_jump_back_a_word_with_newline() {
    assert_eq!(jumps_back("hello\nworld", 6), 0);
}

#[test]
fn test_jump_back_a_word_multiple_jumps() {
    let mut ms = editing("the quick brown fox", 18);
    for expected in [16, 10, 4] {
        jump_back_a_word(&mut ms.notes_state);
        assert_eq!(ms.notes_state.cursor_pos(), expected);
    }
}

#[test]
fn test_jump_back_a_word_from_space_between_words() {
    assert_eq!(jumps_back("hello world", 5), 0);
}

#[test]
fn test_jump_back_a_word_multiline_text() {
    let mut ms = editing("first line\nsecond line\nthird", 27);
    for expected in [23, 18, 11] {
        jump_back_a_word(&mut ms.notes_state);
        assert_eq!(ms.notes_state.cursor_pos(), expected);
    }
}

#[test]
fn test_jump_back_a_word_whitespace_at_beginning() {
    assert_eq!(jumps_back("  hello world", 8), 2);
}

#[test]
fn test_jump_back_a_word_only_whitespace_before() {
    assert_eq!(jumps_back("   word", 3), 0);
}

#[test]
fn test_jump_back_a_word_mixed_whitespace() {
    assert_eq!(jumps_back("hello \n world", 8), 0);
}

#[test]
fn test_jump_back_then_forward() {
    let mut ms = editing("hello world test", 12);
    jump_back_a_word(&mut ms.notes_state);
    assert_eq!(ms.notes_state.cursor_pos(), 6);
    jump_forward_a_word(&mut ms.notes_state);
    assert_eq!(ms.notes_state.cursor_pos(), 12);
}

#[test]
fn test_cursor_pos_end_and_right_norm() {
    let mut ms = editing("abc", 0);
    cursor_pos_end(&mut ms.notes_state);
    assert_eq!(ms.notes_state.cursor_pos(), 2);
    move_cursor_right_norm(&mut ms.notes_state);
    assert_eq!(ms.notes_state.cursor_pos(), 2);
    cursor_pos_beginning(&mut ms.notes_state);
    move_cursor_right_norm(&mut ms.notes_state);
    assert_eq!(ms.notes_state.cursor_pos(), 1);
}

#[test]
fn test_right_norm_steps_over_a_whole_cluster() {
    // "e" followed by a combining acute accent is one grapheme cluster of two chars
    let mut ms = editing("e\u{301}x", 0);
    move_cursor_right_norm(&mut ms.notes_state);
    assert_eq!(ms.notes_state.cursor_pos(), 2);
    cursor_pos_end(&mut ms.notes_state);
    assert_eq!(ms.notes_state.cursor_pos(), 2);
}

#[test]
fn test_append_moves_past_cluster_and_inserts() {
    let mut ms = editing("ab", 0);
    append(&mut ms);
    assert_eq!(ms.notes_state.cursor_pos(), 1);
    assert_eq!(ms.current_mode, Mode::EditInsert);
    let mut ms = editing("ab", 1);
    append(&mut ms);
    assert_eq!(ms.notes_state.cursor_pos(), 2);
}

#[test]
fn test_remove_char() {
    let mut ms = editing("Hello 世界", 6);
    remove_char(&mut ms);
    assert_eq!(text(&ms), "Hello 界");
    assert_eq!(ms.notes_state.cursor_pos(), 6);

    let mut ms = editing("AB", 1);
    remove_char(&mut ms);
    assert_eq!(text(&ms), "A");
    assert_eq!(ms.notes_state.cursor_pos(), 0);

    let mut ms = editing("e\u{301}x", 0);
    remove_char(&mut ms);
    assert_eq!(text(&ms), "x");
    assert!(!ms.persistence.can_exit);
}

#[test]
fn test_remove_char_at_end_does_nothing() {
    let mut ms = editing("AB", 2);
    remove_char(&mut ms);
    assert_eq!(text(&ms), "AB");
}

// ---------------------------------------------------------------------------
// Helpers
// ---------------------------------------------------------------------------

#[test]
fn test_help_next_page_cycles_forward() {
    let mut ms = map_state();
    ms.ui_state.show_help(1);
    for expected in [2, 3, 4, 5, 1] {
        help_next_page(&mut ms);
        assert_eq!(ms.ui_state.help_screen, Some(expected));
    }
}

#[test]
fn test_help_next_page_no_help_screen() {
    let mut ms = map_state();
    ms.ui_state.hide_help();
    help_next_page(&mut ms);
    assert_eq!(ms.ui_state.help_screen, None);
}

#[test]
fn test_help_previous_page_cycles_backward() {
    let mut ms = map_state();
    ms.ui_state.show_help(1);
    for expected in [5, 4, 3, 2, 1] {
        help_previous_page(&mut ms);
        assert_eq!(ms.ui_state.help_screen, Some(expected));
    }
}

#[test]
fn test_move_viewport() {
    let mut ms = map_state();
    ms.viewport.view_pos.x = 10;
    ms.viewport.view_pos.y = 10;
    move_viewport(&mut ms, "x", 5);
    assert_eq!(ms.viewport.view_pos.x, 15);
    move_viewport(&mut ms, "x", -20);
    assert_eq!(ms.viewport.view_pos.x, 0);
    move_viewport(&mut ms, "y", -3);
    assert_eq!(ms.viewport.view_pos.y, 7);
    move_viewport(&mut ms, "z", 5);
    assert_eq!((ms.viewport.view_pos.x, ms.viewport.view_pos.y), (0, 7));
    assert!(!ms.persistence.can_exit);
}

#[test]
fn test_move_note_no_selected_note() {
    let mut ms = map_state();
    ms.viewport.view_pos.x = 10;
    ms.viewport.view_pos.y = 10;
    move_note(&mut ms, "x", 5);
    assert_eq!(ms.viewport.view_pos.x, 10);
    assert_eq!(ms.viewport.view_pos.y, 10);
    assert!(ms.persistence.can_exit);
}

#[test]
fn test_move_note_x_positive_simple() {
    let mut ms = map_state();
    ms.notes_state.add(40, 20, "Test".to_string(), true, Color::White);
    move_note(&mut ms, "x", 5);
    let n = &ms.notes_state.notes()[&0];
    assert_eq!((n.x, n.y), (45, 20));
    assert_eq!(ms.viewport.view_pos.x, 0);
    assert!(!ms.persistence.can_exit);
}

#[test]
fn test_move_note_x_positive_viewport_adjustment() {
    let mut ms = map_state();
    ms.notes_state.add(95, 20, "Test".to_string(), true, Color::White);
    move_note(&mut ms, "x", 5);
    assert_eq!(ms.notes_state.notes()[&0].x, 100);
    assert_eq!(ms.viewport.view_pos.x, 5);
}

#[test]
fn test_move_note_x_negative_viewport_adjustment() {
    let mut ms = map_state();
    ms.viewport.view_pos.x = 20;
    ms.notes_state.add(22, 20, "Test".to_string(), true, Color::White);
    move_note(&mut ms, "x", -5);
    assert_eq!(ms.notes_state.notes()[&0].x, 17);
    assert_eq!(ms.viewport.view_pos.x, 15);
}

#[test]
fn test_move_note_y_positive_viewport_adjustment() {
    let mut ms = map_state();
    ms.notes_state.add(10, 44, "Test".to_string(), true, Color::White);
    move_note(&mut ms, "y", 1);
    // bottom edge 45 + 4 = 49 passes 0 + 50 - 3
    assert_eq!(ms.notes_state.notes()[&0].y, 45);
    assert_eq!(ms.viewport.view_pos.y, 1);
}

#[test]
fn test_switch_notes_focus_down_j() {
    let mut ms = map_state();
    ms.notes_state.add(50, 30, "Bottom".to_string(), false, Color::White);
    ms.notes_state.add(50, 10, "Top".to_string(), true, Color::White);
    switch_notes_focus(&mut ms, "j");
    assert_eq!(ms.notes_state.selected_note_id(), Some(0));
    assert!(!ms.notes_state.notes()[&1].data.selected);
    assert!(ms.notes_state.notes()[&0].data.selected);
    assert_eq!(ms.notes_state.render_order(), &vec![1, 0]);
    assert_eq!(ms.viewport.view_pos.x, 0);
    assert_eq!(ms.viewport.view_pos.y, 5);
}

#[test]
fn test_switch_notes_focus_cone_selection() {
    let mut ms = map_state();
    // A note far to the side is outside the downward cone.
    ms.notes_state.add(90, 20, String::new(), false, Color::White);
    ms.notes_state.add(50, 10, String::new(), true, Color::White);
    switch_notes_focus(&mut ms, "j");
    assert_eq!(ms.notes_state.selected_note_id(), Some(1));
    switch_notes_focus(&mut ms, "l");
    assert_eq!(ms.notes_state.selected_note_id(), Some(0));
}

#[test]
fn test_switch_notes_focus_prefers_nearest() {
    let mut ms = map_state();
    ms.notes_state.add(50, 40, String::new(), false, Color::White);
    ms.notes_state.add(52, 20, String::new(), false, Color::White);
    ms.notes_state.add(48, 20, String::new(), false, Color::White);
    ms.notes_state.add(50, 10, String::new(), true, Color::White);
    switch_notes_focus(&mut ms, "Down");
    // both at y 20 are 2 columns off: either may win; the one at y 40 may not
    let chosen = ms.notes_state.selected_note_id().unwrap();
    assert!(chosen == 1 || chosen == 2);
}

#[test]
fn test_switch_notes_focus_with_visual_connection() {
    let mut ms = map_state();
    ms.notes_state.add(50, 30, String::new(), false, Color::White);
    ms.notes_state.add(50, 10, String::new(), true, Color::White);
    ms.current_mode = Mode::VisualConnect;
    ms.connections_state.focused_connection =
        Some(Connection { to_id: None, to_side: None, ..conn(1, 0) });
    switch_notes_focus(&mut ms, "j");
    let c = ms.connections_state.focused_connection.unwrap();
    assert_eq!(c.to_id, Some(0));
    assert_eq!(c.to_side, Some(ms.settings.default_end_side));
    // back to the start note: the end is cleared
    switch_notes_focus(&mut ms, "k");
    let c = ms.connections_state.focused_connection.unwrap();
    assert_eq!(c.to_id, None);
    assert_eq!(c.to_side, None);
}

#[test]
fn test_switch_notes_focus_invalid_key() {
    let mut ms = map_state();
    ms.notes_state.add(50, 30, String::new(), false, Color::White);
    ms.notes_state.add(50, 10, String::new(), true, Color::White);
    switch_notes_focus(&mut ms, "x");
    assert_eq!(ms.notes_state.selected_note_id(), Some(1));
}

#[test]
fn helpers_tests_test_cycle_side() {
    assert_eq!(cycle_side(Side::Right), Side::Bottom);
    assert_eq!(cycle_side(Side::Bottom), Side::Left);
    assert_eq!(cycle_side(Side::Left), Side::Top);
    assert_eq!(cycle_side(Side::Top), Side::Right);
}

#[test]
fn test_cycle_color() {
    assert_eq!(cycle_color(Color::Red), Color::Green);
    assert_eq!(cycle_color(Color::Green), Color::Yellow);
    assert_eq!(cycle_color(Color::Yellow), Color::Blue);
    assert_eq!(cycle_color(Color::Blue), Color::Magenta);
    assert_eq!(cycle_color(Color::Magenta), Color::Cyan);
    assert_eq!(cycle_color(Color::Cyan), Color::White);
    assert_eq!(cycle_color(Color::White), Color::Black);
    assert_eq!(cycle_color(Color::Black), Color::Red);
    assert_eq!(cycle_color(Color::Gray), Color::White);
    assert_eq!(cycle_color(Color::DarkGray), Color::White);
}

#[test]
fn test_cycle_color_period_eight() {
    let mut c = Color::Red;
    for _ in 0..8 {
        c = cycle_color(c);
    }
    assert_eq!(c, Color::Red);
}

// ---------------------------------------------------------------------------
// Key handling on the map screen
// ---------------------------------------------------------------------------

#[test]
fn test_map_kh_add_type_and_leave() {
    let fs = MockFileSystem::new();
    let mut ms = map_state();
    assert_eq!(map_kh(&mut ms, key(KeyCode::Char('a')), &fs), AppAction::Continue);
    assert_eq!(ms.current_mode, Mode::Edit);
    for c in "hi".chars() {
        map_kh(&mut ms, key(KeyCode::Char(c)), &fs);
    }
    map_kh(&mut ms, key(KeyCode::Enter), &fs);
    map_kh(&mut ms, key(KeyCode::Char('x')), &fs);
    map_kh(&mut ms, key(KeyCode::Backspace), &fs);
    assert_eq!(text(&ms), "hi\n");
    map_kh(&mut ms, key(KeyCode::Esc), &fs);
    assert_eq!(ms.current_mode, Mode::Normal);
    assert_eq!(ms.notes_state.selected_note_id(), None);
    assert_eq!(ms.notes_state.cursor_pos(), 0);
}

#[test]
fn test_map_kh_quit_asks_when_unsaved() {
    let fs = MockFileSystem::new();
    let mut ms = map_state();
    ms.persistence.mark_dirty();
    assert_eq!(map_kh(&mut ms, key(KeyCode::Char('q')), &fs), AppAction::Continue);
    assert!(ms.ui_state.confirm_discard_menu.is_some());
    let action = map_kh(&mut ms, key(KeyCode::Char('q')), &fs);
    assert!(matches!(action, AppAction::Switch(tmmpr::app::Screen::Start(_))));
}

#[test]
fn test_map_kh_save_and_settings() {
    let fs = MockFileSystem::new();
    let mut ms = map_state();
    assert_eq!(map_kh(&mut ms, key(KeyCode::Char('s')), &fs), AppAction::SaveMapFile("/test/path".to_string()));
    let action = map_kh(&mut ms, key(KeyCode::Char('o')), &fs);
    match action {
        AppAction::Switch(tmmpr::app::Screen::Settings(s)) => assert_eq!(s.map_file_path, "/test/path"),
        other => panic!("expected the settings screen, got {:?}", other),
    }
}

#[test]
fn test_map_kh_viewport_keys() {
    let fs = MockFileSystem::new();
    let mut ms = map_state();
    map_kh(&mut ms, key(KeyCode::Char('L')), &fs);
    map_kh(&mut ms, key(KeyCode::Char('j')), &fs);
    map_kh(&mut ms, KeyEvent::new(KeyCode::Left, KeyModifiers::Shift), &fs);
    map_kh(&mut ms, KeyEvent::new(KeyCode::Down, KeyModifiers::Other), &fs);
    assert_eq!((ms.viewport.view_pos.x, ms.viewport.view_pos.y), (0, 1));
}

#[test]
fn test_map_kh_help_pages() {
    let fs = MockFileSystem::new();
    let mut ms = map_state();
    map_kh(&mut ms, key(KeyCode::Char('?')), &fs);
    assert_eq!(ms.ui_state.help_screen, Some(1));
    map_kh(&mut ms, key(KeyCode::Tab), &fs);
    map_kh(&mut ms, key(KeyCode::Char('l')), &fs);
    assert_eq!(ms.ui_state.help_screen, Some(3));
    map_kh(&mut ms, key(KeyCode::Esc), &fs);
    assert_eq!(ms.ui_state.help_screen, None);
}

#[test]
fn test_map_kh_visual_connect_and_delete() {
    let fs = MockFileSystem::new();
    let mut ms = map_state();
    ms.notes_state.add(50, 30, String::new(), false, Color::White);
    ms.notes_state.add(50, 10, String::new(), false, Color::White);
    ms.notes_state.select(1);
    ms.current_mode = Mode::Visual;

    map_kh(&mut ms, key(KeyCode::Char('C')), &fs);
    assert_eq!(ms.current_mode, Mode::VisualConnect);
    map_kh(&mut ms, key(KeyCode::Char('j')), &fs);
    map_kh(&mut ms, key(KeyCode::Char('e')), &fs);
    map_kh(&mut ms, key(KeyCode::Char('c')), &fs);
    assert_eq!(ms.current_mode, Mode::Visual);
    assert_eq!(ms.connections_state.connections().len(), 1);
    let c = ms.connections_state.connections()[0];
    assert_eq!((c.from_id, c.to_id, c.color), (1, Some(0), Color::Black));

    // edit it: take it out, turn its end side at the selected note, store it back
    map_kh(&mut ms, key(KeyCode::Char('c')), &fs);
    assert_eq!(ms.current_mode, Mode::VisualConnect);
    assert_eq!(ms.connections_state.editing_connection_index, Some(0));
    map_kh(&mut ms, key(KeyCode::Char('r')), &fs);
    map_kh(&mut ms, key(KeyCode::Char('n')), &fs);
    assert_eq!(ms.connections_state.editing_connection_index, Some(0));
    map_kh(&mut ms, key(KeyCode::Char('c')), &fs);
    let c = ms.connections_state.connections()[0];
    assert_eq!(c.to_side, Some(Side::Bottom));

    // delete the selected note with its connection
    map_kh(&mut ms, key(KeyCode::Char('d')), &fs);
    assert_eq!(ms.current_mode, Mode::Delete);
    map_kh(&mut ms, key(KeyCode::Char('d')), &fs);
    assert_eq!(ms.current_mode, Mode::Normal);
    assert_eq!(ms.notes_state.notes().len(), 1);
    assert_eq!(ms.connections_state.connections().len(), 0);
}

#[test]
fn test_map_kh_visual_move() {
    let fs = MockFileSystem::new();
    let mut ms = map_state();
    ms.notes_state.add(10, 10, String::new(), true, Color::White);
    ms.current_mode = Mode::Visual;
    map_kh(&mut ms, key(KeyCode::Char('m')), &fs);
    map_kh(&mut ms, key(KeyCode::Char('L')), &fs);
    map_kh(&mut ms, KeyEvent::new(KeyCode::Up, KeyModifiers::Plain), &fs);
    let n = &ms.notes_state.notes()[&0];
    assert_eq!((n.x, n.y), (15, 9));
    map_kh(&mut ms, key(KeyCode::Esc), &fs);
    assert_eq!(ms.current_mode, Mode::Normal);
    assert!(!ms.notes_state.notes()[&0].data.selected);
}

#[test]
fn test_map_kh_modal_editing() {
    let fs = MockFileSystem::new();
    let mut ms = map_state();
    ms.settings.edit_modal = true;
    map_kh(&mut ms, key(KeyCode::Char('a')), &fs);
    assert_eq!(ms.current_mode, Mode::EditNormal);
    map_kh(&mut ms, key(KeyCode::Char('i')), &fs);
    for c in "one two".chars() {
        map_kh(&mut ms, key(KeyCode::Char(c)), &fs);
    }
    map_kh(&mut ms, key(KeyCode::Esc), &fs);
    assert_eq!(ms.current_mode, Mode::EditNormal);
    assert_eq!(ms.notes_state.cursor_pos(), 6);
    map_kh(&mut ms, key(KeyCode::Char('b')), &fs);
    assert_eq!(ms.notes_state.cursor_pos(), 4);
    map_kh(&mut ms, key(KeyCode::Char('x')), &fs);
    assert_eq!(text(&ms), "one wo");
    map_kh(&mut ms, key(KeyCode::Char('g')), &fs);
    map_kh(&mut ms, key(KeyCode::Char('w')), &fs);
    assert_eq!(ms.notes_state.cursor_pos(), 4);
    map_kh(&mut ms, key(KeyCode::Esc), &fs);
    assert_eq!(ms.current_mode, Mode::Normal);
}

#[test]
fn test_jump_forward_a_word_from_whitespace() {
    // From whitespace, `w` skips the rest of the whitespace to the next word.
    assert_eq!(jumps_forward("hello world", 5), 6);
    assert_eq!(jumps_forward("hello   world", 6), 8);
    assert_eq!(jumps_forward("hello \nworld", 5), 7);
    // Only whitespace follows: the cursor stays.
    assert_eq!(jumps_forward("hello   ", 6), 6);
}

#[test]
fn test_remove_all_for_note_empties_its_index() {
    let mut cs = ConnectionsState::from_connections(vec![conn(0, 1), conn(1, 2), conn(2, 0)]);
    assert_eq!(cs.remove_all_for_note(1), 2);
    assert!(cs.get_indices_for_note(1).is_empty());
    assert_eq!(cs.remove_all_for_note(1), 0);
}

#[test]
fn test_loaded_states_accepts_consistent_files() {
    let mut notes = std::collections::HashMap::new();
    notes.insert(0, note(1, 1, "a"));
    notes.insert(3, note(5, 5, "b"));
    let loaded = tmmpr::states::map::loaded_states(notes, 4, vec![3, 0], vec![conn(0, 3)]);
    let (ns, cs) = loaded.expect("consistent map data loads");
    assert_eq!(ns.render_order(), &vec![3, 0]);
    assert_eq!(ns.next_note_id_counter(), 4);
    assert_eq!(ns.selected_note_id(), None);
    assert_eq!(cs.connections(), &[conn(0, 3)]);
}

#[test]
fn test_loaded_states_refuses_inconsistent_files() {
    let two = || {
        let mut notes = std::collections::HashMap::new();
        notes.insert(0, note(1, 1, "a"));
        notes.insert(3, note(5, 5, "b"));
        notes
    };
    // A note missing from the drawing order.
    assert!(tmmpr::states::map::loaded_states(two(), 4, vec![3], vec![]).is_none());
    // A note listed twice.
    assert!(tmmpr::states::map::loaded_states(two(), 4, vec![3, 0, 3], vec![]).is_none());
    // An ID that the drawing order lists but no note has.
    assert!(tmmpr::states::map::loaded_states(two(), 9, vec![3, 7], vec![]).is_none());
    // An ID not below the next one handed out.
    assert!(tmmpr::states::map::loaded_states(two(), 3, vec![3, 0], vec![]).is_none());
    // A connection from a note to itself.
    assert!(tmmpr::states::map::loaded_states(two(), 4, vec![3, 0], vec![conn(3, 3)]).is_none());
}

#[test]
fn test_can_route_bounds() {
    let near = note(10, 10, "x");
    assert!(tmmpr::graph::can_route(&near, Side::Right));
    // Far beyond the old quarter-range bound, but still routable.
    let far = note((isize::MAX / 2) as usize, 10, "x");
    assert!(tmmpr::graph::can_route(&far, Side::Right));
    let path = tmmpr::graph::calculate_path(&near, Side::Right, &far, Side::Left);
    assert!(!path.is_empty());
    // A connection point past isize::MAX - 2 cannot be routed.
    let edge = note(isize::MAX as usize, 10, "x");
    assert!(!tmmpr::graph::can_route(&edge, Side::Left));
}

#[test]
fn test_get_offset_point_negative() {
    let p = Point { x: -5, y: -7 };
    assert_eq!(get_offset_point(p, Side::Left), Point { x: -7, y: -7 });
    assert_eq!(get_offset_point(p, Side::Top), Point { x: -5, y: -9 });
}

#[test]
fn test_clip_note_borders_and_scroll() {
    let screen = SignedRect { x: 0, y: 0, width: 80, height: 24 };
    let note_rect = SignedRect { x: -3, y: 2, width: 10, height: 5 };
    let clip = clip_note(&note_rect, &screen).unwrap();
    assert_eq!(clip.visible, SignedRect { x: 0, y: 2, width: 7, height: 5 });
    assert_eq!((clip.h_scroll, clip.v_scroll), (3, 0));
    assert!(!clip.left && clip.right && clip.top && clip.bottom);
    assert!(clip_note(&SignedRect { x: 80, y: 0, width: 5, height: 5 }, &screen).is_none());
    assert_eq!(note_frame(false, Mode::Delete), NoteFrame::Unselected);
    assert_eq!(note_frame(true, Mode::Delete), NoteFrame::Deleting);
    assert_eq!(note_frame(true, Mode::EditInsert), NoteFrame::Editing);
    assert_eq!(note_frame(true, Mode::VisualMove), NoteFrame::Visual);
    assert_eq!(cursor_cell(10, 4, 5, 1, 2, 0, 0), Some((13, 6)));
    assert_eq!(cursor_cell(10, 4, 5, 4, 2, 0, 0), None);
    assert_eq!(cursor_cell(0, 4, 5, 1, 2, 5, 0), None);
}

#[test]
fn test_calculate_path_moves_with_its_nodes() {
    let a = note(10, 10, "a");
    let b = note(40, 25, "b");
    let a2 = note(110, 60, "a");
    let b2 = note(140, 75, "b");
    let p1 = tmmpr::graph::calculate_path(&a, Side::Right, &b, Side::Top);
    let p2 = tmmpr::graph::calculate_path(&a2, Side::Right, &b2, Side::Top);
    assert_eq!(p1.len(), p2.len());
    assert!(!p1.is_empty());
    for (p, q) in p1.iter().zip(p2.iter()) {
        assert_eq!((q.x, q.y), (p.x + 100, p.y + 50));
    }
}

#[test]
fn test_junction_set_side_and_line_visibility() {
    assert_eq!(junction_set(false, Mode::Visual), JunctionSet::Plain);
    assert_eq!(junction_set(true, Mode::VisualConnect), JunctionSet::Thick);
    assert_eq!(junction_set(true, Mode::EditNormal), JunctionSet::Double);
    assert_eq!(junction_set(true, Mode::Normal), JunctionSet::Plain);
    let c = conn(1, 2);
    assert_eq!(meeting_side(&c, 1), c.from_side);
    assert_eq!(meeting_side(&c, 2), c.to_side.unwrap());
    let path = vec![Point { x: -5, y: 3 }, Point { x: 100, y: 3 }];
    assert!(!line_on_screen(&path, 0, 0, 80, 24));
    assert!(line_on_screen(&path, 30, 0, 80, 24));
    assert_eq!(shown_color(Some(Color::Red), Some(Color::Blue)), Some(ShownColor::Connection(Color::Red)));
    assert_eq!(shown_color(None, Some(Color::Blue)), Some(ShownColor::Note(Color::Blue)));
    assert_eq!(shown_color(Some(Color::Red), None), None);
}
