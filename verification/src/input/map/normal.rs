use vstd::prelude::*;
use vstd::string::*;

use crate::app::Screen;
use crate::fs::FileSystem;
use crate::input::map::helpers::{
    help_next_page, help_previous_page, move_viewport, moved, next_help_page, previous_help_page,
};
use crate::input::map::ready::{map_bounds, map_ready};
use crate::input::{is_fresh_start, AppAction, KeyCode, KeyEvent, KeyModifiers};
use crate::color::Color;
use crate::states::map::{
    edit_mode_for, manhattan, moved_to_back, spec_center, with_selected, DiscardMenuType, MapState, Mode,
    PersistenceState, UIState, ViewportState,
};
use crate::states::settings::{settings_outcome, SelectedToggle, SettingsState};
use crate::states::StartState;

verus! {

/// A settings screen as `SettingsState::new_with_fs` makes it for `path` from `fs`.
pub open spec fn is_fresh_settings<F: FileSystem>(s: SettingsState, path: Seq<char>, fs: F) -> bool {
    &&& s.needs_clear_and_redraw
    &&& !s.settings_context_page
    &&& s.map_file_path@ == path
    &&& settings_outcome(fs, s.settings)
    &&& s.can_exit
    &&& s.confirm_discard_menu is None
    &&& s.notification is None
    &&& s.selected_toggle == SelectedToggle::Toggle1
    &&& !s.context_page
    &&& !s.input_prompt
    &&& s.input_prompt_err is None
}

/// The viewport move a key makes in Normal mode, as (x axis?, amount):
/// h/j/k/l and the plain arrows move by 1, H/J/K/L and Shift+arrows by 5.
pub open spec fn viewport_move_of(key: KeyEvent) -> Option<(bool, isize)> {
    match key.code {
        KeyCode::Char('h') => Some((true, -1isize)),
        KeyCode::Char('H') => Some((true, -5isize)),
        KeyCode::Char('l') => Some((true, 1isize)),
        KeyCode::Char('L') => Some((true, 5isize)),
        KeyCode::Char('k') => Some((false, -1isize)),
        KeyCode::Char('K') => Some((false, -5isize)),
        KeyCode::Char('j') => Some((false, 1isize)),
        KeyCode::Char('J') => Some((false, 5isize)),
        KeyCode::Left => if key.modifiers == KeyModifiers::Plain {
            Some((true, -1isize))
        } else if key.modifiers == KeyModifiers::Shift {
            Some((true, -5isize))
        } else {
            None
        },
        KeyCode::Right => if key.modifiers == KeyModifiers::Plain {
            Some((true, 1isize))
        } else if key.modifiers == KeyModifiers::Shift {
            Some((true, 5isize))
        } else {
            None
        },
        KeyCode::Up => if key.modifiers == KeyModifiers::Plain {
            Some((false, -1isize))
        } else if key.modifiers == KeyModifiers::Shift {
            Some((false, -5isize))
        } else {
            None
        },
        KeyCode::Down => if key.modifiers == KeyModifiers::Plain {
            Some((false, 1isize))
        } else if key.modifiers == KeyModifiers::Shift {
            Some((false, 5isize))
        } else {
            None
        },
        _ => None,
    }
}

/// The help page after a key while the help is shown: F1, `?` and Esc close
/// it, Right, `l` and Tab page forward, Left and `h` back.
pub open spec fn help_after_key(h: Option<usize>, code: KeyCode) -> Option<usize> {
    match code {
        KeyCode::F(1) | KeyCode::Char('?') | KeyCode::Esc => None,
        KeyCode::Right | KeyCode::Char('l') | KeyCode::Tab => match h {
            Some(p) => Some(next_help_page(p)),
            None => None,
        },
        KeyCode::Left | KeyCode::Char('h') => match h {
            Some(p) => Some(previous_help_page(p)),
            None => None,
        },
        _ => h,
    }
}

/// The map state with its UI state replaced.
pub open spec fn with_ui(s: MapState, ui: UIState) -> MapState {
    MapState { ui_state: ui, ..s }
}

/// The map state asking for a redraw.
pub open spec fn redrawn(s: MapState) -> MapState {
    with_ui(s, UIState { needs_clear_and_redraw: true, ..s.ui_state })
}

/// The action of leaving the map for the settings screen.
pub open spec fn to_settings<F: FileSystem>(r: AppAction, s: MapState, fs: F) -> bool {
    r matches AppAction::Switch(Screen::Settings(ss)) && is_fresh_settings(ss, s.persistence.file_write_path@, fs)
}

/// The action of leaving the map for the start screen.
pub open spec fn map_to_start<F: FileSystem>(r: AppAction, fs: F) -> bool {
    r matches AppAction::Switch(Screen::Start(st)) && is_fresh_start(st, fs)
}

/// What a key in Normal mode does: `s` before, `t` after, `r` the action.
pub open spec fn normal_key_outcome<F: FileSystem>(s: MapState, t: MapState, key: KeyEvent, fs: F, r: AppAction) -> bool {
    if s.ui_state.help_screen is Some {
        &&& r == AppAction::Continue
        &&& t == with_ui(s, UIState {
            needs_clear_and_redraw: true,
            help_screen: help_after_key(s.ui_state.help_screen, key.code),
            ..s.ui_state
        })
    } else if s.ui_state.confirm_discard_menu is Some {
        match key.code {
            KeyCode::Esc => r == AppAction::Continue && t == with_ui(s, UIState {
                needs_clear_and_redraw: true,
                confirm_discard_menu: None,
                ..s.ui_state
            }),
            KeyCode::Char('q') => match s.ui_state.confirm_discard_menu->0 {
                DiscardMenuType::Start => map_to_start(r, fs),
                DiscardMenuType::Settings => to_settings(r, s, fs),
            },
            _ => r == AppAction::Continue && t == s,
        }
    } else {
        match key.code {
            KeyCode::Char('q') => if s.persistence.can_exit {
                map_to_start(r, fs)
            } else {
                r == AppAction::Continue && t == with_ui(s, UIState {
                    needs_clear_and_redraw: true,
                    confirm_discard_menu: Some(DiscardMenuType::Start),
                    ..s.ui_state
                })
            },
            KeyCode::Char('o') => if s.persistence.can_exit {
                to_settings(r, s, fs)
            } else {
                r == AppAction::Continue && t == with_ui(s, UIState {
                    needs_clear_and_redraw: true,
                    confirm_discard_menu: Some(DiscardMenuType::Settings),
                    ..s.ui_state
                })
            },
            KeyCode::Char('s') => (r matches AppAction::SaveMapFile(p) && p@ == s.persistence.file_write_path@)
                && t == s,
            KeyCode::F(1) | KeyCode::Char('?') => r == AppAction::Continue && t == with_ui(s, UIState {
                needs_clear_and_redraw: true,
                help_screen: Some(1),
                ..s.ui_state
            }),
            KeyCode::Char('a') => {
                let id = s.notes_state.spec_next_id();
                let (cx, cy) = spec_center(s.viewport.view_pos, s.viewport.screen_width, s.viewport.screen_height);
                let n = t.notes_state.spec_notes()[id];
                &&& r == AppAction::Continue
                &&& t.current_mode == edit_mode_for(s.settings.edit_modal)
                &&& t.notes_state.spec_notes() == s.notes_state.spec_notes().insert(id, n)
                &&& n.x == cx && n.y == cy
                &&& n.data.content@.len() == 0
                &&& n.data.color == Color::White
                &&& n.data.selected
                &&& t.notes_state.spec_render_order() == s.notes_state.spec_render_order().push(id)
                &&& t.notes_state.spec_selected() == Some(id)
                &&& t.notes_state.spec_next_id() == id + 1
                &&& t.notes_state.spec_cursor() == s.notes_state.spec_cursor()
                &&& t.viewport == s.viewport
                &&& t.connections_state == s.connections_state
                &&& t.persistence == (PersistenceState { can_exit: false, ..s.persistence })
                &&& t.ui_state == (UIState { needs_clear_and_redraw: true, ..s.ui_state })
                &&& t.settings == s.settings
                &&& t.settings_err_msg == s.settings_err_msg
            },
            KeyCode::Char('v') => {
                &&& r == AppAction::Continue
                &&& if s.notes_state.spec_notes().dom().is_empty() {
                    t == redrawn(s)
                } else {
                    let (cx, cy) = spec_center(s.viewport.view_pos, s.viewport.screen_width, s.viewport.screen_height);
                    let notes = s.notes_state.spec_notes();
                    &&& t.current_mode == Mode::Visual
                    &&& t.notes_state.spec_selected() matches Some(id) && {
                        &&& notes.contains_key(id)
                        &&& forall|other: usize| #[trigger]
                            notes.contains_key(other) ==> manhattan(notes[id], cx as usize, cy as usize)
                                <= manhattan(notes[other], cx as usize, cy as usize)
                        &&& t.notes_state.spec_notes() == notes.insert(id, with_selected(notes[id], true))
                        &&& t.notes_state.spec_render_order() == moved_to_back(
                            s.notes_state.spec_render_order(),
                            id,
                        )
                    }
                    &&& t.notes_state.spec_next_id() == s.notes_state.spec_next_id()
                    &&& t.notes_state.spec_cursor() == s.notes_state.spec_cursor()
                    &&& t.viewport == s.viewport
                    &&& t.connections_state == s.connections_state
                    &&& t.persistence == s.persistence
                    &&& t.ui_state == (UIState { needs_clear_and_redraw: true, ..s.ui_state })
                    &&& t.settings == s.settings
                    &&& t.settings_err_msg == s.settings_err_msg
                }
            },
            _ => {
                &&& r == AppAction::Continue
                &&& match viewport_move_of(key) {
                    Some((on_x, amount)) => {
                        &&& t.viewport.view_pos.x == if on_x {
                            moved(s.viewport.view_pos.x, amount)
                        } else {
                            s.viewport.view_pos.x as int
                        }
                        &&& t.viewport.view_pos.y == if on_x {
                            s.viewport.view_pos.y as int
                        } else {
                            moved(s.viewport.view_pos.y, amount)
                        }
                        &&& t == (MapState {
                            viewport: ViewportState { view_pos: t.viewport.view_pos, ..s.viewport },
                            persistence: PersistenceState { can_exit: false, ..s.persistence },
                            ui_state: UIState { needs_clear_and_redraw: true, ..s.ui_state },
                            ..s
                        })
                    },
                    None => t == redrawn(s),
                }
            },
        }
    }
}

/// Handles keyboard input for Normal Mode in the Map Screen.
///
/// The help and the discard confirmation take all keys while shown. Else
/// `q` leaves for the start screen and `o` for the settings (asking for
/// confirmation with unsaved changes), F1/`?` opens the help, `s` asks to
/// save, h/j/k/l (H/J/K/L by 5) and the arrows move the viewport, `a` adds
/// a note and `v` selects the note nearest the viewport center.
pub fn map_normal_kh<F: FileSystem>(map_state: &mut MapState, key: KeyEvent, fs: &F) -> (r: AppAction)
    requires
        old(map_state).current_mode == Mode::Normal,
        map_ready(*old(map_state)),
        map_bounds(*old(map_state)),
    ensures
        normal_key_outcome(*old(map_state), *final(map_state), key, *fs, r),
        r == AppAction::Continue ==> map_ready(*final(map_state)),
{
    proof {
        reveal_strlit("x");
        reveal_strlit("y");
        assert("x"@[0] != "y"@[0]);
    }
    // Help menu intercepts all input when visible
    if map_state.ui_state.is_help_visible() {
        match key.code {
            KeyCode::F(1) | KeyCode::Char('?') | KeyCode::Esc => map_state.ui_state.hide_help(),
            KeyCode::Right | KeyCode::Char('l') | KeyCode::Tab => help_next_page(map_state),
            KeyCode::Left | KeyCode::Char('h') => help_previous_page(map_state),
            _ => {},
        }
        map_state.clear_and_redraw();
        return AppAction::Continue;
    }
    // Discard confirmation menu intercepts all input when triggered
    if let Some(discard_menu_type) = map_state.ui_state.confirm_discard_menu {
        match key.code {
            KeyCode::Esc => {
                map_state.ui_state.hide_discard_menu();
                map_state.clear_and_redraw();
            },
            KeyCode::Char('q') => {
                match discard_menu_type {
                    DiscardMenuType::Start => {
                        return AppAction::Switch(Screen::Start(StartState::new_with_fs(fs)));
                    },
                    DiscardMenuType::Settings => {
                        // Preserve file path to return to after closing settings
                        return AppAction::Switch(
                            Screen::Settings(
                                SettingsState::new_with_fs(map_state.persistence.file_write_path.clone(), fs),
                            ),
                        );
                    },
                }
            },
            _ => {},
        }
        return AppAction::Continue;
    }
    match key.code {
        KeyCode::Char('q') => {
            // Require saving or explicit confirmation before exiting
            if map_state.persistence.can_exit {
                return AppAction::Switch(Screen::Start(StartState::new_with_fs(fs)));
            } else {
                map_state.ui_state.show_discard_menu(DiscardMenuType::Start);
                map_state.clear_and_redraw();
            }
        },
        KeyCode::F(1) | KeyCode::Char('?') => map_state.ui_state.show_help(1),
        KeyCode::Char('s') => return AppAction::SaveMapFile(map_state.persistence.file_write_path.clone()),
        KeyCode::Char('o') => {
            // Require saving or explicit confirmation before opening settings
            if map_state.persistence.can_exit {
                return AppAction::Switch(
                    Screen::Settings(
                        SettingsState::new_with_fs(map_state.persistence.file_write_path.clone(), fs),
                    ),
                );
            } else {
                map_state.ui_state.show_discard_menu(DiscardMenuType::Settings);
                map_state.clear_and_redraw();
            }
        },
        // Vim-style hjkl navigation with arrow key alternatives
        // Shifted versions move 5x faster for quicker navigation
        KeyCode::Char('h') => move_viewport(map_state, "x", -1),
        KeyCode::Left if key.modifiers == KeyModifiers::Plain => move_viewport(map_state, "x", -1),
        KeyCode::Char('H') => move_viewport(map_state, "x", -5),
        KeyCode::Left if key.modifiers == KeyModifiers::Shift => move_viewport(map_state, "x", -5),
        KeyCode::Char('j') => move_viewport(map_state, "y", 1),
        KeyCode::Down if key.modifiers == KeyModifiers::Plain => move_viewport(map_state, "y", 1),
        KeyCode::Char('J') => move_viewport(map_state, "y", 5),
        KeyCode::Down if key.modifiers == KeyModifiers::Shift => move_viewport(map_state, "y", 5),
        KeyCode::Char('k') => move_viewport(map_state, "y", -1),
        KeyCode::Up if key.modifiers == KeyModifiers::Plain => move_viewport(map_state, "y", -1),
        KeyCode::Char('K') => move_viewport(map_state, "y", -5),
        KeyCode::Up if key.modifiers == KeyModifiers::Shift => move_viewport(map_state, "y", -5),
        KeyCode::Char('l') => move_viewport(map_state, "x", 1),
        KeyCode::Right if key.modifiers == KeyModifiers::Plain => move_viewport(map_state, "x", 1),
        KeyCode::Char('L') => move_viewport(map_state, "x", 5),
        KeyCode::Right if key.modifiers == KeyModifiers::Shift => move_viewport(map_state, "x", 5),
        KeyCode::Char('a') => map_state.add_note(),
        // Selects the note closest to viewport center
        KeyCode::Char('v') => map_state.select_note(),
        _ => {},
    }
    // Redraw ensures UI reflects any state changes from input
    map_state.clear_and_redraw();
    AppAction::Continue
}

} // verus!
