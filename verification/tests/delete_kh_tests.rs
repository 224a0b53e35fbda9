use std::collections::HashMap;

use tmmpr::color::Color;
use tmmpr::fs::FileSystem;
use tmmpr::graph::Side;
use tmmpr::input::map::map_delete_kh;
use tmmpr::input::{AppAction, KeyCode, KeyEvent, KeyModifiers};
use tmmpr::states::map::{Connection, ConnectionsState, MapState, Mode, Note, NoteData, NotesState};
use tmmpr::states::settings::Settings;
use tmmpr::states::start::RecentPaths;

/// A file system with nothing on it but a home directory.
struct EmptyFileSystem;

impl FileSystem for EmptyFileSystem {
    fn get_home_dir(&self) -> Option<String> {
        Some("/mock/home".to_string())
    }
    fn create_dir_all(&self, _path: &str) -> bool {
        true
    }
    fn path_exists(&self, _path: &str) -> bool {
        false
    }
    fn test_write_to_dir(&self, _path: &str) -> bool {
        true
    }
    fn read_settings(&self, _path: &str) -> Option<Settings> {
        None
    }
    fn write_settings(&self, _path: &str, _settings: &Settings) -> bool {
        true
    }
    fn read_recent_paths(&self, _path: &str) -> Option<RecentPaths> {
        None
    }
    fn write_recent_paths(&self, _path: &str, _recent_paths: &RecentPaths) -> bool {
        true
    }
}

fn create_test_map_state() -> MapState {
    let mut map_state = MapState::new_with_fs("/test/path".to_string(), &EmptyFileSystem);
    map_state.settings.edit_modal = false;
    map_state.viewport.screen_width = 100;
    map_state.viewport.screen_height = 50;
    map_state.persistence.mark_clean(); // Start with can_exit as true to test it gets set to false
    map_state
}

fn create_key_event(code: KeyCode) -> KeyEvent {
    KeyEvent::new(code, KeyModifiers::Plain)
}

fn note(x: usize, y: usize, text: &str, selected: bool) -> Note {
    let mut data = NoteData::new(text.to_string(), Color::White);
    data.selected = selected;
    Note::new(x, y, data)
}

/// Puts the notes in place with the given drawing order, and selects `selected`.
fn set_notes(map_state: &mut MapState, notes: Vec<(usize, Note)>, render_order: Vec<usize>, selected: Option<usize>) {
    let next_id = notes.iter().map(|(id, _)| id + 1).max().unwrap_or(0);
    let notes: HashMap<usize, Note> = notes.into_iter().collect();
    map_state.notes_state = NotesState::from_map_data(notes, next_id, render_order);
    if let Some(id) = selected {
        map_state.notes_state.select(id);
    }
}

fn connection(from_id: usize, from_side: Side, to_id: usize, to_side: Side, color: Color) -> Connection {
    Connection { from_id, from_side, to_id: Some(to_id), to_side: Some(to_side), color }
}

fn connections_of(cs: &ConnectionsState, id: usize) -> Vec<Connection> {
    cs.get_connections_for_note(id).into_iter().copied().collect()
}

#[test]
fn test_delete_kh_no_selected_note() {
    let mut map_state = create_test_map_state();
    map_state.current_mode = Mode::Delete;

    let result = map_delete_kh(&mut map_state, create_key_event(KeyCode::Char('d')));

    // Should not change anything when no note is selected
    assert_eq!(result, AppAction::Continue);
    assert_eq!(map_state.current_mode, Mode::Delete);
    assert_eq!(map_state.notes_state.selected_note_id(), None);
    assert_eq!(map_state.persistence.can_exit, true); // Should remain unchanged
}

#[test]
fn test_delete_kh_escape_switches_to_visual() {
    let mut map_state = create_test_map_state();
    map_state.current_mode = Mode::Delete;
    map_state.notes_state.select(0);

    let result = map_delete_kh(&mut map_state, create_key_event(KeyCode::Esc));

    assert_eq!(result, AppAction::Continue);
    assert_eq!(map_state.current_mode, Mode::Visual);
    assert_eq!(map_state.notes_state.selected_note_id(), Some(0)); // Should remain selected
}

#[test]
fn test_delete_single_note() {
    let mut map_state = create_test_map_state();
    set_notes(&mut map_state, vec![(0, note(50, 25, "Test Note", true))], vec![0], Some(0));
    map_state.current_mode = Mode::Delete;

    let result = map_delete_kh(&mut map_state, create_key_event(KeyCode::Char('d')));

    assert_eq!(result, AppAction::Continue);
    assert_eq!(map_state.persistence.can_exit, false); // Should be set to false
    assert!(map_state.notes_state.notes().is_empty()); // Note should be removed
    assert!(map_state.notes_state.render_order().is_empty()); // Render order should be empty
    assert_eq!(map_state.notes_state.selected_note_id(), None); // No selected note
    assert_eq!(map_state.current_mode, Mode::Normal); // Should switch to Normal mode
}

#[test]
fn test_delete_note_with_multiple_notes() {
    let mut map_state = create_test_map_state();
    set_notes(
        &mut map_state,
        vec![
            (0, note(10, 10, "Note 0", false)),
            (1, note(50, 25, "Note 1", true)),
            (2, note(80, 40, "Note 2", false)),
        ],
        vec![0, 1, 2],
        Some(1),
    );
    map_state.current_mode = Mode::Delete;

    let result = map_delete_kh(&mut map_state, create_key_event(KeyCode::Char('d')));

    assert_eq!(result, AppAction::Continue);
    assert_eq!(map_state.persistence.can_exit, false);

    // Check that only note 1 was removed
    assert_eq!(map_state.notes_state.notes().len(), 2);
    assert!(map_state.notes_state.notes().contains_key(&0));
    assert!(!map_state.notes_state.notes().contains_key(&1)); // This one should be deleted
    assert!(map_state.notes_state.notes().contains_key(&2));

    // Check render order
    assert_eq!(*map_state.notes_state.render_order(), vec![0, 2]);

    assert_eq!(map_state.notes_state.selected_note_id(), None);
    assert_eq!(map_state.current_mode, Mode::Normal);
}

#[test]
fn test_delete_note_with_multiple_connections() {
    let mut map_state = create_test_map_state();
    set_notes(
        &mut map_state,
        vec![
            (0, note(10, 10, "Note 0", false)),
            (1, note(50, 25, "Note 1", true)),
            (2, note(80, 40, "Note 2", false)),
        ],
        vec![0, 1, 2],
        Some(1),
    );

    // Connections: 0->1 and 1->2, and an unrelated one 0->2 (should be preserved)
    let connection1 = connection(0, Side::Right, 1, Side::Left, Color::White);
    let connection2 = connection(1, Side::Right, 2, Side::Left, Color::Green);
    let connection3 = connection(0, Side::Bottom, 2, Side::Top, Color::Blue);
    map_state.connections_state = ConnectionsState::from_connections(vec![connection1, connection2, connection3]);
    map_state.current_mode = Mode::Delete;

    let result = map_delete_kh(&mut map_state, create_key_event(KeyCode::Char('d')));

    assert_eq!(result, AppAction::Continue);

    // Note 1 should be deleted
    assert_eq!(map_state.notes_state.notes().len(), 2);
    assert!(map_state.notes_state.notes().contains_key(&0));
    assert!(!map_state.notes_state.notes().contains_key(&1));
    assert!(map_state.notes_state.notes().contains_key(&2));

    // Only connection3 (0->2) should remain
    assert_eq!(map_state.connections_state.connections().len(), 1);
    assert_eq!(map_state.connections_state.connections()[0], connection3);

    // The index of notes 0 and 2 only holds connection3
    assert_eq!(connections_of(&map_state.connections_state, 0), vec![connection3]);
    assert_eq!(connections_of(&map_state.connections_state, 2), vec![connection3]);

    // Note 1 should not exist in connection index
    assert!(!map_state.connections_state.connection_index().contains_key(&1));

    assert_eq!(map_state.notes_state.selected_note_id(), None);
    assert_eq!(map_state.current_mode, Mode::Normal);
}

#[test]
fn test_delete_note_as_connection_target() {
    let mut map_state = create_test_map_state();
    set_notes(
        &mut map_state,
        vec![(0, note(10, 10, "Note 0", true)), (1, note(50, 25, "Note 1", false))],
        vec![0, 1],
        Some(0),
    );

    // A connection where 0 is the target: 1->0
    map_state.connections_state =
        ConnectionsState::from_connections(vec![connection(1, Side::Right, 0, Side::Left, Color::White)]);
    map_state.current_mode = Mode::Delete;

    let result = map_delete_kh(&mut map_state, create_key_event(KeyCode::Char('d')));

    assert_eq!(result, AppAction::Continue);

    // Note 0 should be deleted
    assert_eq!(map_state.notes_state.notes().len(), 1);
    assert!(!map_state.notes_state.notes().contains_key(&0));
    assert!(map_state.notes_state.notes().contains_key(&1));

    // Connection should be removed
    assert!(map_state.connections_state.connections().is_empty());

    // Connection index should be cleaned up
    assert!(!map_state.connections_state.connection_index().contains_key(&0));
    assert!(connections_of(&map_state.connections_state, 1).is_empty());

    assert_eq!(map_state.notes_state.selected_note_id(), None);
    assert_eq!(map_state.current_mode, Mode::Normal);
}

#[test]
fn test_delete_note_as_connection_source() {
    let mut map_state = create_test_map_state();
    set_notes(
        &mut map_state,
        vec![(0, note(10, 10, "Note 0", true)), (1, note(50, 25, "Note 1", false))],
        vec![0, 1],
        Some(0),
    );

    // A connection where 0 is the source: 0->1
    map_state.connections_state =
        ConnectionsState::from_connections(vec![connection(0, Side::Right, 1, Side::Left, Color::White)]);
    map_state.current_mode = Mode::Delete;

    let result = map_delete_kh(&mut map_state, create_key_event(KeyCode::Char('d')));

    assert_eq!(result, AppAction::Continue);

    // Note 0 should be deleted
    assert_eq!(map_state.notes_state.notes().len(), 1);
    assert!(!map_state.notes_state.notes().contains_key(&0));
    assert!(map_state.notes_state.notes().contains_key(&1));

    // Connection should be removed
    assert!(map_state.connections_state.connections().is_empty());

    // Connection index should be cleaned up
    assert!(!map_state.connections_state.connection_index().contains_key(&0));
    assert!(connections_of(&map_state.connections_state, 1).is_empty());

    assert_eq!(map_state.notes_state.selected_note_id(), None);
    assert_eq!(map_state.current_mode, Mode::Normal);
}

#[test]
fn test_delete_kh_other_keys_ignored() {
    let mut map_state = create_test_map_state();
    set_notes(&mut map_state, vec![(0, note(50, 25, "Test Note", true))], vec![0], Some(0));
    map_state.current_mode = Mode::Delete;

    // Test various other keys
    let test_keys = vec![
        KeyCode::Char('a'),
        KeyCode::Char('x'),
        KeyCode::Enter,
        KeyCode::Backspace,
        KeyCode::Other,
        KeyCode::Tab,
        KeyCode::Up,
        KeyCode::Down,
        KeyCode::Left,
        KeyCode::Right,
    ];

    for key in test_keys {
        let result = map_delete_kh(&mut map_state, create_key_event(key));

        // Should not change anything for unhandled keys
        assert_eq!(result, AppAction::Continue);
        assert_eq!(map_state.current_mode, Mode::Delete);
        assert_eq!(map_state.notes_state.selected_note_id(), Some(0));
        assert_eq!(map_state.notes_state.notes().len(), 1); // Note should still be there
        assert_eq!(map_state.persistence.can_exit, true); // Should remain unchanged
    }
}

#[test]
fn test_delete_note_render_order_edge_cases() {
    let mut map_state = create_test_map_state();
    // The selected note first in the drawing order
    set_notes(
        &mut map_state,
        vec![
            (0, note(10, 10, "Note 0", false)),
            (1, note(50, 25, "Note 1", false)),
            (2, note(80, 40, "Note 2", true)),
        ],
        vec![2, 1, 0],
        Some(2),
    );
    map_state.current_mode = Mode::Delete;

    let result = map_delete_kh(&mut map_state, create_key_event(KeyCode::Char('d')));

    assert_eq!(result, AppAction::Continue);
    assert_eq!(*map_state.notes_state.render_order(), vec![1, 0]); // Note 2 removed
    assert_eq!(map_state.notes_state.notes().len(), 2);
    assert!(!map_state.notes_state.notes().contains_key(&2));
}

#[test]
fn test_delete_note_last_in_render_order() {
    let mut map_state = create_test_map_state();
    set_notes(
        &mut map_state,
        vec![
            (0, note(10, 10, "Note 0", false)),
            (1, note(50, 25, "Note 1", false)),
            (2, note(80, 40, "Note 2", true)),
        ],
        vec![0, 1, 2],
        Some(2),
    );
    map_state.current_mode = Mode::Delete;

    let result = map_delete_kh(&mut map_state, create_key_event(KeyCode::Char('d')));

    assert_eq!(result, AppAction::Continue);
    assert_eq!(*map_state.notes_state.render_order(), vec![0, 1]); // Note 2 removed from end
    assert_eq!(map_state.notes_state.notes().len(), 2);
    assert!(!map_state.notes_state.notes().contains_key(&2));
}

#[test]
fn test_delete_note_clears_and_redraws() {
    let mut map_state = create_test_map_state();
    map_state.ui_state.needs_clear_and_redraw = false; // Set to false initially
    set_notes(&mut map_state, vec![(0, note(50, 25, "Test Note", true))], vec![0], Some(0));
    map_state.current_mode = Mode::Delete;

    let _result = map_delete_kh(&mut map_state, create_key_event(KeyCode::Char('d')));

    assert_eq!(map_state.ui_state.needs_clear_and_redraw, true);
}

#[test]
fn test_escape_clears_and_redraws() {
    let mut map_state = create_test_map_state();
    map_state.ui_state.needs_clear_and_redraw = false; // Set to false initially
    map_state.notes_state.select(0);
    map_state.current_mode = Mode::Delete;

    let _result = map_delete_kh(&mut map_state, create_key_event(KeyCode::Esc));

    assert_eq!(map_state.ui_state.needs_clear_and_redraw, true);
}
