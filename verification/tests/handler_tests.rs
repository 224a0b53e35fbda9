use tmmpr::color::Color;
use tmmpr::fs::FileSystem;
use tmmpr::input::{map_kh, AppAction, KeyCode, KeyEvent, KeyModifiers};
use tmmpr::states::map::{MapState, Mode};
use tmmpr::states::settings::Settings;
use tmmpr::states::start::RecentPaths;

/// A file system with a home directory where everything can be written.
struct MockFileSystem;

impl FileSystem for MockFileSystem {
    fn get_home_dir(&self) -> Option<String> {
        Some("/mock/home".to_string())
    }
    fn create_dir_all(&self, _path: &str) -> bool {
        true
    }
    fn path_exists(&self, _path: &str) -> bool {
        false
    }
    fn test_write_to_dir(&self, _path: &str) -> bool {
        true
    }
    fn read_settings(&self, _path: &str) -> Option<Settings> {
        None
    }
    fn write_settings(&self, _path: &str, _settings: &Settings) -> bool {
        true
    }
    fn read_recent_paths(&self, _path: &str) -> Option<RecentPaths> {
        None
    }
    fn write_recent_paths(&self, _path: &str, _recent_paths: &RecentPaths) -> bool {
        true
    }
}

fn create_map_state_using_mock_filesystem(path: &str) -> MapState {
    MapState::new_with_fs(path.to_string(), &MockFileSystem)
}

/// Every mode but Normal works on a selected note: this puts one in place.
fn in_mode(map_state: &mut MapState, mode: Mode) {
    if mode != Mode::Normal && map_state.notes_state.selected_note_id().is_none() {
        map_state.notes_state.add(10, 10, String::new(), true, Color::White);
    }
    map_state.current_mode = mode;
}

fn key(code: KeyCode, modifiers: KeyModifiers) -> KeyEvent {
    KeyEvent::new(code, modifiers)
}

fn is_any_action(result: &AppAction) -> bool {
    match result {
        AppAction::Continue
        | AppAction::Quit
        | AppAction::Switch(_)
        | AppAction::CreateMapFile(_)
        | AppAction::SaveMapFile(_)
        | AppAction::LoadMapFile(_) => true,
    }
}

#[test]
fn test_map_kh_normal_mode() {
    let mut map_state = create_map_state_using_mock_filesystem("/test/path");
    in_mode(&mut map_state, Mode::Normal);

    let result = map_kh(&mut map_state, key(KeyCode::Char('j'), KeyModifiers::Plain), &MockFileSystem);

    assert!(is_any_action(&result));
}

#[test]
fn test_map_kh_visual_mode() {
    let mut map_state = create_map_state_using_mock_filesystem("/test/path");
    in_mode(&mut map_state, Mode::Visual);

    let result = map_kh(&mut map_state, key(KeyCode::Char('v'), KeyModifiers::Plain), &MockFileSystem);

    assert!(is_any_action(&result));
}

#[test]
fn test_map_kh_edit_mode_non_modal() {
    let mut map_state = create_map_state_using_mock_filesystem("/test/path");
    in_mode(&mut map_state, Mode::Edit);

    let result = map_kh(&mut map_state, key(KeyCode::Char('a'), KeyModifiers::Plain), &MockFileSystem);

    assert!(is_any_action(&result));
}

#[test]
fn test_map_kh_edit_mode_modal_normal() {
    let mut map_state = create_map_state_using_mock_filesystem("/test/path");
    in_mode(&mut map_state, Mode::EditNormal);

    let result = map_kh(&mut map_state, key(KeyCode::Char('i'), KeyModifiers::Plain), &MockFileSystem);

    assert!(is_any_action(&result));
}

#[test]
fn test_map_kh_edit_mode_modal_insert() {
    let mut map_state = create_map_state_using_mock_filesystem("/test/path");
    in_mode(&mut map_state, Mode::EditInsert);

    let result = map_kh(&mut map_state, key(KeyCode::Char('x'), KeyModifiers::Plain), &MockFileSystem);

    assert!(is_any_action(&result));
}

#[test]
fn test_map_kh_delete_mode() {
    let mut map_state = create_map_state_using_mock_filesystem("/test/path");
    in_mode(&mut map_state, Mode::Delete);

    let result = map_kh(&mut map_state, key(KeyCode::Char('y'), KeyModifiers::Plain), &MockFileSystem);

    assert!(is_any_action(&result));
}

#[test]
fn test_map_kh_various_key_codes() {
    let mut map_state = create_map_state_using_mock_filesystem("/test/path");
    in_mode(&mut map_state, Mode::Normal);

    let test_keys = vec![
        KeyCode::Enter,
        KeyCode::Esc,
        KeyCode::Backspace,
        KeyCode::Up,
        KeyCode::Down,
        KeyCode::Left,
        KeyCode::Right,
        KeyCode::F(1),
        KeyCode::Tab,
    ];

    for key_code in test_keys {
        // Each key code is handled without panicking
        let result = map_kh(&mut map_state, key(key_code, KeyModifiers::Plain), &MockFileSystem);
        assert!(is_any_action(&result));
    }
}

#[test]
fn test_map_kh_with_modifiers() {
    let mut map_state = create_map_state_using_mock_filesystem("/test/path");
    in_mode(&mut map_state, Mode::Normal);

    let modifiers = vec![KeyModifiers::Plain, KeyModifiers::Shift, KeyModifiers::Other, KeyModifiers::Other];

    for modifier in modifiers {
        // Each modifier is handled without panicking
        let result = map_kh(&mut map_state, key(KeyCode::Char('s'), modifier), &MockFileSystem);
        assert!(is_any_action(&result));
    }
}

#[test]
fn test_mode_switching_behavior() {
    let modes = vec![Mode::Normal, Mode::Visual, Mode::Edit, Mode::EditNormal, Mode::EditInsert, Mode::Delete];

    for mode in modes {
        let mut map_state = create_map_state_using_mock_filesystem("/test/path");
        in_mode(&mut map_state, mode);

        // Each mode handles a key without panicking
        let result = map_kh(&mut map_state, key(KeyCode::Char('t'), KeyModifiers::Plain), &MockFileSystem);
        assert!(is_any_action(&result));
    }
}

#[test]
fn test_map_kh_maintains_state_integrity() {
    let mut map_state = create_map_state_using_mock_filesystem("/test/path");
    in_mode(&mut map_state, Mode::Normal);

    let _result = map_kh(&mut map_state, key(KeyCode::Char('z'), KeyModifiers::Plain), &MockFileSystem);

    // The key is not bound: the state stays valid and in Normal mode
    assert_eq!(map_state.current_mode, Mode::Normal);
    assert!(map_state.notes_state.notes().is_empty());
}
