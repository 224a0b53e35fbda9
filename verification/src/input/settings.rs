//! Settings screen input handling

use vstd::prelude::*;
use vstd::string::*;

use crate::app::Screen;
use crate::fs::FileSystem;
use crate::input::{backspace_field, backspaced, type_char, typed, AppAction, KeyCode, KeyEvent};
use crate::states::settings::{
    backups_path_submitted, is_offered_save_interval, next_backups_interval, next_runtime_interval,
    next_save_interval, save_settings_with_fs, settings_of, settings_saved, toggle_above, toggle_below, DiscardExitTo, SelectedToggle,
    Settings, SettingsState, SettingsType,
};
use crate::states::settings::helpers::spec_cycle_side;
use crate::states::start::{spec_get_recent_paths, FocusedInputBox, SelectedStartButton};
use crate::states::StartState;

verus! {

/// A start screen as `StartState::new_with_fs` makes it from the file system `fs`.
pub open spec fn is_fresh_start<F: FileSystem>(s: StartState, fs: F) -> bool {
    &&& s.needs_clear_and_redraw
    &&& s.selected_button == SelectedStartButton::CreateSelect
    &&& !s.input_path
    &&& s.focused_input_box == FocusedInputBox::InputBox1
    &&& s.input_path_string is None
    &&& s.input_path_name is None
    &&& s.display_err_msg is None
    &&& s.recent_paths == spec_get_recent_paths(fs)
}

/// The action of leaving the settings to the start screen.
pub open spec fn to_start<F: FileSystem>(r: AppAction, fs: F) -> bool {
    r matches AppAction::Switch(Screen::Start(s)) && is_fresh_start(s, fs)
}

/// The action of going back to the map the settings were opened from.
pub open spec fn to_map(r: AppAction, s: SettingsState) -> bool {
    r matches AppAction::LoadMapFile(p) && p@ == s.map_file_path@
}

/// The settings were loaded with an error.
pub open spec fn load_failed(s: SettingsState) -> bool {
    s.settings matches SettingsType::Default(_, Some(_))
}

/// The settings held, changed by `f`, in the same kind of `SettingsType`.
pub open spec fn with_settings(t: SettingsType, s: Settings) -> SettingsType {
    match t {
        SettingsType::Default(_, e) => SettingsType::Default(s, e),
        SettingsType::Custom(_) => SettingsType::Custom(s),
    }
}

/// The settings after Enter on toggle `t`.
pub open spec fn settings_after_enter(s: Settings, t: SelectedToggle) -> Settings {
    match t {
        SelectedToggle::Toggle1 => Settings { save_interval: next_save_interval(s.save_interval), ..s },
        SelectedToggle::Toggle4 => Settings { default_start_side: spec_cycle_side(s.default_start_side), ..s },
        SelectedToggle::Toggle5 => Settings { default_end_side: spec_cycle_side(s.default_end_side), ..s },
        SelectedToggle::Toggle6 => Settings { edit_modal: !s.edit_modal, ..s },
        _ => s,
    }
}

/// The backups path that the prompt edits (an empty one when there was none).
pub open spec fn prompt_path(s: Settings) -> Seq<char> {
    match s.backups_path {
        Some(p) => p@,
        None => Seq::empty(),
    }
}

/// Two settings screens agree in everything but the settings themselves.
pub open spec fn same_screen_but_settings(a: SettingsState, b: SettingsState) -> bool {
    &&& a.needs_clear_and_redraw == b.needs_clear_and_redraw
    &&& a.settings_context_page == b.settings_context_page
    &&& a.map_file_path == b.map_file_path
    &&& a.can_exit == b.can_exit
    &&& a.confirm_discard_menu == b.confirm_discard_menu
    &&& a.notification == b.notification
    &&& a.selected_toggle == b.selected_toggle
    &&& a.context_page == b.context_page
    &&& a.input_prompt == b.input_prompt
    &&& a.input_prompt_err == b.input_prompt_err
}

/// Handles a key on the settings screen.
///
/// When the settings could not be loaded, `q` goes to the start screen and
/// `o` back to the map. The discard confirmation takes Esc (stay) and `q`
/// (leave without saving); the help page takes `?`/F1 (close); the backups
/// path prompt takes Esc (cancel backups), characters (up to 46 bytes),
/// Backspace and Enter (submit the path). Otherwise `q` and `o` leave when
/// everything is saved and ask for confirmation when not, `?`/F1 opens the
/// help, `s` saves, `j`/`k` and the arrows move between the toggles, Enter
/// changes the selected toggle's setting (or opens the prompt on the
/// backups toggle) and Tab cycles the backups intervals.
pub fn settings_kh<F: FileSystem>(settings_state: &mut SettingsState, key: KeyEvent, fs: &F) -> (r: AppAction)
    requires
        old(settings_state).input_prompt ==> settings_of(old(settings_state).settings).backups_path is Some,
        key.code == KeyCode::Enter && old(settings_state).selected_toggle == SelectedToggle::Toggle1
            ==> is_offered_save_interval(settings_of(old(settings_state).settings).save_interval),
    ensures
        ({
            let s = *old(settings_state);
            let t = *final(settings_state);
            let st = settings_of(s.settings);
            if load_failed(s) && key.code == KeyCode::Char('q') {
                to_start(r, *fs)
            } else if load_failed(s) && key.code == KeyCode::Char('o') {
                to_map(r, s)
            } else if s.confirm_discard_menu is Some {
                if key.code == KeyCode::Char('q') {
                    match s.confirm_discard_menu->0 {
                        DiscardExitTo::StartScreen => to_start(r, *fs),
                        DiscardExitTo::MapScreen => to_map(r, s),
                    }
                } else {
                    &&& r == AppAction::Continue
                    &&& t == (SettingsState {
                        needs_clear_and_redraw: true,
                        confirm_discard_menu: if key.code == KeyCode::Esc {
                            None
                        } else {
                            s.confirm_discard_menu
                        },
                        ..s
                    })
                }
            } else if s.context_page {
                &&& r == AppAction::Continue
                &&& t == (SettingsState {
                    needs_clear_and_redraw: true,
                    context_page: !(key.code == KeyCode::Char('?') || key.code == KeyCode::F(1)),
                    ..s
                })
            } else if s.input_prompt {
                &&& r == AppAction::Continue
                &&& t.needs_clear_and_redraw
                &&& match key.code {
                    KeyCode::Esc => t == (SettingsState {
                        needs_clear_and_redraw: true,
                        input_prompt: false,
                        input_prompt_err: None,
                        settings: with_settings(
                            s.settings,
                            Settings {
                                backups_path: None,
                                backups_interval: None,
                                runtime_backups_interval: None,
                                ..st
                            },
                        ),
                        ..s
                    }),
                    KeyCode::Char(c) => {
                        &&& (settings_of(t.settings).backups_path matches Some(p) && p@ == typed(prompt_path(st), c))
                        &&& t == (SettingsState {
                            needs_clear_and_redraw: true,
                            settings: with_settings(
                                s.settings,
                                Settings { backups_path: settings_of(t.settings).backups_path, ..st },
                            ),
                            ..s
                        })
                    },
                    KeyCode::Backspace => {
                        &&& (settings_of(t.settings).backups_path matches Some(p) && p@ == backspaced(prompt_path(st)))
                        &&& t == (SettingsState {
                            needs_clear_and_redraw: true,
                            settings: with_settings(
                                s.settings,
                                Settings { backups_path: settings_of(t.settings).backups_path, ..st },
                            ),
                            ..s
                        })
                    },
                    KeyCode::Enter => backups_path_submitted(
                        s,
                        SettingsState { needs_clear_and_redraw: s.needs_clear_and_redraw, ..t },
                        *fs,
                    ),
                    _ => t == (SettingsState { needs_clear_and_redraw: true, ..s }),
                }
                &&& t.selected_toggle == s.selected_toggle
                &&& t.can_exit == s.can_exit
            } else if key.code == KeyCode::Char('q') && s.can_exit {
                to_start(r, *fs)
            } else if key.code == KeyCode::Char('o') && s.can_exit {
                to_map(r, s)
            } else {
                &&& r == AppAction::Continue
                &&& t.needs_clear_and_redraw
                &&& match key.code {
                    KeyCode::Char('q') => t == (SettingsState {
                        needs_clear_and_redraw: true,
                        confirm_discard_menu: Some(DiscardExitTo::StartScreen),
                        ..s
                    }),
                    KeyCode::Char('o') => t == (SettingsState {
                        needs_clear_and_redraw: true,
                        confirm_discard_menu: Some(DiscardExitTo::MapScreen),
                        ..s
                    }),
                    KeyCode::Char('?') | KeyCode::F(1) => t == (SettingsState {
                        needs_clear_and_redraw: true,
                        context_page: true,
                        ..s
                    }),
                    KeyCode::Char('s') => settings_saved(
                        s,
                        SettingsState { needs_clear_and_redraw: s.needs_clear_and_redraw, ..t },
                        *fs,
                    ),
                    KeyCode::Char('j') | KeyCode::Down => t == (SettingsState {
                        needs_clear_and_redraw: true,
                        selected_toggle: toggle_below(s.selected_toggle, st.runtime_backups_interval is Some),
                        ..s
                    }),
                    KeyCode::Char('k') | KeyCode::Up => t == (SettingsState {
                        needs_clear_and_redraw: true,
                        selected_toggle: toggle_above(s.selected_toggle, st.runtime_backups_interval is Some),
                        ..s
                    }),
                    KeyCode::Enter => if s.selected_toggle == SelectedToggle::Toggle2 {
                        &&& (settings_of(t.settings).backups_path matches Some(p) && p@ == prompt_path(st))
                        &&& t == (SettingsState {
                            needs_clear_and_redraw: true,
                            can_exit: false,
                            input_prompt: true,
                            settings: with_settings(
                                s.settings,
                                Settings { backups_path: settings_of(t.settings).backups_path, ..st },
                            ),
                            ..s
                        })
                    } else {
                        t == (SettingsState {
                            needs_clear_and_redraw: true,
                            can_exit: false,
                            settings: with_settings(s.settings, settings_after_enter(st, s.selected_toggle)),
                            ..s
                        })
                    },
                    KeyCode::Tab => {
                        let changes = (s.selected_toggle == SelectedToggle::Toggle2 && st.backups_interval is Some)
                            || (s.selected_toggle == SelectedToggle::Toggle3 && st.runtime_backups_interval is Some);
                        &&& t.can_exit == (s.can_exit && !changes)
                        &&& t.settings == if s.selected_toggle == SelectedToggle::Toggle2 && st.backups_interval is Some {
                            with_settings(s.settings, Settings {
                                backups_interval: Some(next_backups_interval(st.backups_interval->0)),
                                ..st
                            })
                        } else if s.selected_toggle == SelectedToggle::Toggle3 && st.runtime_backups_interval is Some {
                            with_settings(s.settings, Settings {
                                runtime_backups_interval: Some(next_runtime_interval(st.runtime_backups_interval->0)),
                                ..st
                            })
                        } else {
                            s.settings
                        }
                        &&& t.selected_toggle == s.selected_toggle
                    },
                    _ => t == (SettingsState { needs_clear_and_redraw: true, ..s }),
                }
            }
        }),
{
    // Restrict input to only error acknowledgment keys if settings couldn't be loaded
    let failed = match &settings_state.settings {
        SettingsType::Default(_, Some(_)) => true,
        _ => false,
    };
    if failed {
        match key.code {
            KeyCode::Char('q') => return AppAction::Switch(Screen::Start(StartState::new_with_fs(fs))),
            KeyCode::Char('o') => return AppAction::LoadMapFile(settings_state.map_file_path.clone()),
            _ => {},
        }
    }
    // Discard confirmation dialog takes precedence over other input
    if let Some(exit_to) = settings_state.confirm_discard_menu {
        match key.code {
            KeyCode::Esc => {
                settings_state.confirm_discard_menu = None;
            },
            KeyCode::Char('q') => {
                match exit_to {
                    DiscardExitTo::StartScreen => return AppAction::Switch(
                        Screen::Start(StartState::new_with_fs(fs)),
                    ),
                    DiscardExitTo::MapScreen => return AppAction::LoadMapFile(
                        settings_state.map_file_path.clone(),
                    ),
                }
            },
            _ => {},
        }
        settings_state.needs_clear_and_redraw = true;
        return AppAction::Continue;
    }
    // Context help page takes all input when shown
    if settings_state.context_page {
        match key.code {
            KeyCode::Char('?') | KeyCode::F(1) => settings_state.context_page = false,
            _ => {},
        }
        settings_state.needs_clear_and_redraw = true;
        return AppAction::Continue;
    }
    // Backup path input prompt takes all input when shown
    if settings_state.input_prompt {
        match key.code {
            // Esc cancels input AND clears any previously entered path
            KeyCode::Esc => {
                settings_state.input_prompt = false;
                let settings = settings_state.settings.settings_mut();
                settings.backups_path = None;
                settings.backups_interval = None;
                settings.runtime_backups_interval = None;
                settings_state.input_prompt_err = None;
            },
            KeyCode::Char(c) => {
                let settings = settings_state.settings.settings_mut();
                let mut path = match settings.backups_path.take() {
                    Some(p) => p,
                    None => String::new(),
                };
                type_char(&mut path, c);
                settings.backups_path = Some(path);
            },
            KeyCode::Backspace => {
                let settings = settings_state.settings.settings_mut();
                let mut path = match settings.backups_path.take() {
                    Some(p) => p,
                    None => String::new(),
                };
                backspace_field(&mut path);
                settings.backups_path = Some(path);
            },
            KeyCode::Enter => settings_state.submit_path_with_fs(fs),
            _ => {},
        }
        settings_state.needs_clear_and_redraw = true;
        return AppAction::Continue;
    }
    match key.code {
        KeyCode::Char('q') => {
            if settings_state.can_exit {
                return AppAction::Switch(Screen::Start(StartState::new_with_fs(fs)));
            } else {
                settings_state.confirm_discard_menu = Some(DiscardExitTo::StartScreen);
            }
        },
        KeyCode::Char('o') => {
            if settings_state.can_exit {
                return AppAction::LoadMapFile(settings_state.map_file_path.clone());
            } else {
                settings_state.confirm_discard_menu = Some(DiscardExitTo::MapScreen);
            }
        },
        KeyCode::Char('?') | KeyCode::F(1) => settings_state.context_page = true,
        KeyCode::Char('s') => save_settings_with_fs(settings_state, fs),
        KeyCode::Char('j') | KeyCode::Down => settings_state.toggle_go_down(),
        KeyCode::Char('k') | KeyCode::Up => settings_state.toggle_go_up(),
        KeyCode::Enter => {
            // Prevent exiting without saving or discarding changes
            settings_state.can_exit = false;
            match settings_state.selected_toggle {
                SelectedToggle::Toggle1 => {
                    settings_state.settings.settings_mut().cycle_save_intervals();
                },
                SelectedToggle::Toggle2 => {
                    settings_state.input_prompt = true;
                    let settings = settings_state.settings.settings_mut();
                    if settings.backups_path.is_none() {
                        settings.backups_path = Some(String::new());
                    }
                },
                SelectedToggle::Toggle4 => settings_state.settings.settings_mut().cycle_default_sides(true),
                SelectedToggle::Toggle5 => settings_state.settings.settings_mut().cycle_default_sides(false),
                SelectedToggle::Toggle6 => {
                    let settings = settings_state.settings.settings_mut();
                    settings.edit_modal = !settings.edit_modal;
                },
                _ => {},
            }
        },
        // Tab cycles sub-options for backup interval settings
        KeyCode::Tab => {
            match settings_state.selected_toggle {
                SelectedToggle::Toggle2 => {
                    if settings_state.settings.settings().backups_interval.is_some() {
                        settings_state.settings.settings_mut().cycle_backup_interval();
                        settings_state.can_exit = false;
                    }
                },
                SelectedToggle::Toggle3 => {
                    if settings_state.settings.settings().runtime_backups_interval.is_some() {
                        settings_state.settings.settings_mut().cycle_runtime_backup_interval();
                        settings_state.can_exit = false;
                    }
                },
                _ => {},
            }
        },
        _ => {},
    }
    settings_state.needs_clear_and_redraw = true;
    AppAction::Continue
}

} // verus!
