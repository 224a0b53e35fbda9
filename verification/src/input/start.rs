//! Start screen input handling

use vstd::prelude::*;
use vstd::string::*;

use crate::fs::{opt_view, FileSystem};
use crate::input::{AppAction, KeyCode, KeyEvent};
use crate::states::start::{button_after_key, submit_outcome, FocusedInputBox, SelectedStartButton};
use crate::states::StartState;
use crate::text::push_char;

verus! {

/// The longest a text field may grow, in bytes, to fit the screen.
pub open spec fn field_room(f: Seq<char>) -> bool {
    (vstd::utf8::encode_utf8(f).len() as usize) < 46
}

/// A text field after typing `c`: appended while there is room.
pub open spec fn typed(f: Seq<char>, c: char) -> Seq<char> {
    if field_room(f) {
        f.push(c)
    } else {
        f
    }
}

/// A text field after a backspace: its last character removed, if any.
pub open spec fn backspaced(f: Seq<char>) -> Seq<char> {
    if f.len() == 0 {
        f
    } else {
        f.drop_last()
    }
}

/// Types `c` into a text field, while the field has room.
pub fn type_char(field: &mut String, c: char)
    ensures
        final(field)@ == typed(old(field)@, c),
{
    if field.as_str().len() < 46 {
        push_char(field, c);
    }
}

/// Removes the last character of a text field, if any.
pub fn backspace_field(field: &mut String)
    ensures
        final(field)@ == backspaced(old(field)@),
{
    let n = field.unicode_len();
    if n > 0 {
        let shorter = String::from_str(field.as_str().substring_char(0, n - 1));
        *field = shorter;
    }
}

/// The start screen after a key in the path input, when the key does not
/// submit: Esc closes the input and clears both fields; then the focused
/// field takes characters and backspaces, and Enter in the first field
/// moves the focus to the second.
pub open spec fn after_input_key(s: StartState, key: KeyEvent) -> StartState {
    let s1 = if key.code == KeyCode::Esc {
        StartState {
            input_path: false,
            focused_input_box: FocusedInputBox::InputBox1,
            input_path_string: None,
            input_path_name: None,
            ..s
        }
    } else {
        s
    };
    match s1.focused_input_box {
        FocusedInputBox::InputBox1 => match (s1.input_path_string, key.code) {
            (Some(p), KeyCode::Char(c)) => StartState { input_path_string: Some(string_of(typed(p@, c))), ..s1 },
            (Some(p), KeyCode::Backspace) => StartState { input_path_string: Some(string_of(backspaced(p@))), ..s1 },
            (Some(_), KeyCode::Enter) => StartState { focused_input_box: FocusedInputBox::InputBox2, ..s1 },
            _ => s1,
        },
        FocusedInputBox::InputBox2 => match (s1.input_path_name, key.code) {
            (Some(n), KeyCode::Char(c)) => StartState { input_path_name: Some(string_of(typed(n@, c))), ..s1 },
            (Some(n), KeyCode::Backspace) => StartState { input_path_name: Some(string_of(backspaced(n@))), ..s1 },
            _ => s1,
        },
    }
}

/// A string with the given characters.
pub open spec fn string_of(s: Seq<char>) -> String {
    choose|t: String| t@ == s
}

/// Two start screens agree up to the identity of their strings.
pub open spec fn same_start(a: StartState, b: StartState) -> bool {
    &&& a.needs_clear_and_redraw == b.needs_clear_and_redraw
    &&& a.selected_button == b.selected_button
    &&& a.input_path == b.input_path
    &&& a.focused_input_box == b.focused_input_box
    &&& opt_view(a.input_path_string) == opt_view(b.input_path_string)
    &&& opt_view(a.input_path_name) == opt_view(b.input_path_name)
    &&& a.display_err_msg == b.display_err_msg
    &&& a.recent_paths == b.recent_paths
}

/// The recent path that the selected button stands for, if it holds one.
pub open spec fn selected_recent(s: StartState) -> Option<Seq<char>> {
    match s.recent_paths {
        Ok(rp) => match s.selected_button {
            SelectedStartButton::Recent1 => opt_view(rp.recent_path_1),
            SelectedStartButton::Recent2 => opt_view(rp.recent_path_2),
            SelectedStartButton::Recent3 => opt_view(rp.recent_path_3),
            SelectedStartButton::CreateSelect => None,
        },
        Err(_) => None,
    }
}

/// The key names that move the button selection.
pub open spec fn nav_name(code: KeyCode) -> Seq<char> {
    match code {
        KeyCode::Char('k') => "k"@,
        KeyCode::Up => "Up"@,
        KeyCode::Char('j') => "j"@,
        KeyCode::Down => "Down"@,
        _ => Seq::empty(),
    }
}

fn clone_path(p: &Option<String>) -> (r: Option<String>)
    ensures
        opt_view(r) == opt_view(*p),
{
    match p {
        Some(s) => Some(s.clone()),
        None => None,
    }
}

/// Handles a key on the start screen.
///
/// While a path is being typed, Esc cancels the input, the focused field
/// takes characters (up to 46 bytes) and backspaces, Enter moves from the
/// first field to the second, and Enter in the second submits the path.
/// Otherwise `q` quits, `k`/`j` and the arrows move the selection, and
/// Enter opens the path input (on the first button) or submits the recent
/// path the selected button holds.
pub fn start_kh<F: FileSystem>(start_state: &mut StartState, key: KeyEvent, fs: &F) -> (r: AppAction)
    requires
        old(start_state).input_path && key.code == KeyCode::Enter && old(start_state).focused_input_box
            == FocusedInputBox::InputBox2 && old(start_state).input_path_name is Some
            ==> old(start_state).input_path_string is Some,
    ensures
        old(start_state).input_path ==> {
            if key.code == KeyCode::Enter && old(start_state).focused_input_box == FocusedInputBox::InputBox2
                && old(start_state).input_path_name is Some {
                submit_outcome(
                    StartState { needs_clear_and_redraw: true, ..*old(start_state) },
                    *final(start_state),
                    None,
                    *fs,
                    r,
                )
            } else {
                &&& r == AppAction::Continue
                &&& same_start(
                    *final(start_state),
                    StartState { needs_clear_and_redraw: true, ..after_input_key(*old(start_state), key) },
                )
            }
        },
        !old(start_state).input_path ==> {
            if key.code == KeyCode::Char('q') {
                r == AppAction::Quit && *final(start_state) == *old(start_state)
            } else if key.code == KeyCode::Enter && selected_recent(*old(start_state)) is Some {
                submit_outcome(*old(start_state), *final(start_state), selected_recent(*old(start_state)), *fs, r)
            } else if key.code == KeyCode::Enter && old(start_state).selected_button
                == SelectedStartButton::CreateSelect {
                &&& r == AppAction::Continue
                &&& final(start_state).input_path
                &&& final(start_state).display_err_msg is None
                &&& (final(start_state).input_path_string matches Some(p) && p@.len() == 0)
                &&& (final(start_state).input_path_name matches Some(n) && n@.len() == 0)
                &&& final(start_state).needs_clear_and_redraw
                &&& final(start_state).selected_button == old(start_state).selected_button
                &&& final(start_state).focused_input_box == old(start_state).focused_input_box
                &&& final(start_state).recent_paths == old(start_state).recent_paths
            } else {
                &&& r == AppAction::Continue
                &&& final(start_state).needs_clear_and_redraw
                &&& final(start_state).selected_button == button_after_key(old(start_state).selected_button, nav_name(key.code))
                &&& final(start_state).input_path == old(start_state).input_path
                &&& final(start_state).focused_input_box == old(start_state).focused_input_box
                &&& final(start_state).input_path_string == old(start_state).input_path_string
                &&& final(start_state).input_path_name == old(start_state).input_path_name
                &&& final(start_state).display_err_msg == old(start_state).display_err_msg
                &&& final(start_state).recent_paths == old(start_state).recent_paths
            }
        },
{
    proof {
        reveal_strlit("k");
        reveal_strlit("Up");
        reveal_strlit("j");
        reveal_strlit("Down");
        assert("k"@.len() == 1 && "j"@.len() == 1 && "Up"@.len() == 2 && "Down"@.len() == 4);
        assert(forall|b: SelectedStartButton| #[trigger] button_after_key(b, Seq::<char>::empty()) == b);
    }
    // Input mode has different keybindings - handle separately from start menu navigation
    if start_state.input_path {
        let ghost s0 = *start_state;
        if key.code == KeyCode::Esc {
            start_state.input_path = false;
            start_state.focused_input_box = FocusedInputBox::InputBox1;
            start_state.input_path_string = None;
            start_state.input_path_name = None;
        }
        match start_state.focused_input_box {
            FocusedInputBox::InputBox1 => {
                match start_state.input_path_string.take() {
                    Some(mut path) => {
                        let ghost before = path@;
                        match key.code {
                            KeyCode::Char(c) => type_char(&mut path, c),
                            KeyCode::Backspace => backspace_field(&mut path),
                            KeyCode::Enter => {
                                start_state.focused_input_box = FocusedInputBox::InputBox2;
                            },
                            _ => {},
                        }
                        start_state.input_path_string = Some(path);
                    },
                    None => {},
                }
            },
            FocusedInputBox::InputBox2 => {
                if key.code == KeyCode::Enter && start_state.input_path_name.is_some() {
                    start_state.clear_and_redraw();
                    return start_state.submit_path_with_fs(None, fs);
                }
                match start_state.input_path_name.take() {
                    Some(mut name) => {
                        match key.code {
                            KeyCode::Char(c) => type_char(&mut name, c),
                            KeyCode::Backspace => backspace_field(&mut name),
                            _ => {},
                        }
                        start_state.input_path_name = Some(name);
                    },
                    None => {},
                }
            },
        }
        start_state.clear_and_redraw();
        return AppAction::Continue;
    }
    match key.code {
        KeyCode::Char('q') => return AppAction::Quit,
        KeyCode::Char('k') => start_state.navigate_start_buttons("k"),
        KeyCode::Up => start_state.navigate_start_buttons("Up"),
        KeyCode::Char('j') => start_state.navigate_start_buttons("j"),
        KeyCode::Down => start_state.navigate_start_buttons("Down"),
        KeyCode::Enter => {
            if start_state.selected_button == SelectedStartButton::CreateSelect {
                start_state.input_path = true;
                start_state.display_err_msg = None;
                start_state.input_path_string = Some(String::new());
                start_state.input_path_name = Some(String::new());
            }
        },
        _ => {},
    }
    // Recent paths may not be available if there were errors loading them
    if key.code == KeyCode::Enter {
        let chosen = match &start_state.recent_paths {
            Ok(recent_paths) => match start_state.selected_button {
                SelectedStartButton::Recent1 => clone_path(&recent_paths.recent_path_1),
                SelectedStartButton::Recent2 => clone_path(&recent_paths.recent_path_2),
                SelectedStartButton::Recent3 => clone_path(&recent_paths.recent_path_3),
                SelectedStartButton::CreateSelect => None,
            },
            Err(_) => None,
        };
        if chosen.is_some() {
            return start_state.submit_path_with_fs(chosen, fs);
        }
    }
    start_state.clear_and_redraw();
    AppAction::Continue
}

} // verus!
