use vstd::prelude::*;

use crate::fs::{opt_view, FileSystem};
use crate::input::AppAction;
use crate::states::start::{
    get_recent_paths_with_fs, spec_get_recent_paths, ErrMsg, FocusedInputBox, RecentPaths,
    SelectedStartButton,
};
use crate::text::{joined_path, path_join, path_with_extension, str_eq, with_extension};

verus! {

#[derive(PartialEq, Debug)]
pub struct StartState {
    pub needs_clear_and_redraw: bool,
    pub selected_button: SelectedStartButton,
    pub input_path: bool,
    pub focused_input_box: FocusedInputBox,
    pub input_path_string: Option<String>,
    pub input_path_name: Option<String>,
    pub display_err_msg: Option<ErrMsg>,
    pub recent_paths: Result<RecentPaths, ErrMsg>,
}

/// The button above `b` in the start screen's list (the top one stays).
pub open spec fn button_above(b: SelectedStartButton) -> SelectedStartButton {
    match b {
        SelectedStartButton::CreateSelect => SelectedStartButton::CreateSelect,
        SelectedStartButton::Recent1 => SelectedStartButton::CreateSelect,
        SelectedStartButton::Recent2 => SelectedStartButton::Recent1,
        SelectedStartButton::Recent3 => SelectedStartButton::Recent2,
    }
}

/// The button below `b` in the start screen's list (the bottom one stays).
pub open spec fn button_below(b: SelectedStartButton) -> SelectedStartButton {
    match b {
        SelectedStartButton::CreateSelect => SelectedStartButton::Recent1,
        SelectedStartButton::Recent1 => SelectedStartButton::Recent2,
        SelectedStartButton::Recent2 => SelectedStartButton::Recent3,
        SelectedStartButton::Recent3 => SelectedStartButton::Recent3,
    }
}

/// The button that a navigation key selects from `b`: `k`/`Up` moves up,
/// `j`/`Down` moves down, any other key leaves it.
pub open spec fn button_after_key(b: SelectedStartButton, key: Seq<char>) -> SelectedStartButton {
    if key == "k"@ || key == "Up"@ {
        button_above(b)
    } else if key == "j"@ || key == "Down"@ {
        button_below(b)
    } else {
        b
    }
}

/// Moving down and back up returns to the same button, except from the
/// bottom one; moving up and back down likewise, except from the top one.
pub proof fn lemma_buttons_down_up(b: SelectedStartButton)
    ensures
        b != SelectedStartButton::Recent3 ==> button_above(button_below(b)) == b,
        b != SelectedStartButton::CreateSelect ==> button_below(button_above(b)) == b,
{
}

/// The start screen after a failed submission: both input fields emptied,
/// the first one focused, the error shown.
pub open spec fn after_submit_error(s: StartState, r: StartState, err: ErrMsg) -> bool {
    &&& (r.input_path_string matches Some(p) && p@.len() == 0)
    &&& (r.input_path_name matches Some(n) && n@.len() == 0)
    &&& r.focused_input_box == FocusedInputBox::InputBox1
    &&& r.display_err_msg == Some(err)
    &&& r.needs_clear_and_redraw == s.needs_clear_and_redraw
    &&& r.selected_button == s.selected_button
    &&& r.input_path == s.input_path
    &&& r.recent_paths == s.recent_paths
}

/// The map file that a manual submission names: `<home>/<path>/<name>.json`.
pub open spec fn manual_map_file(home: Seq<char>, path: Seq<char>, name: Seq<char>) -> Seq<char> {
    path_with_extension(joined_path(joined_path(home, path), name), "json"@)
}

/// What submitting a path does: `recent` is the recent path chosen, or
/// `None` for the path typed into the input fields. `s` is the start screen
/// before, `t` after, `r` the action returned.
pub open spec fn submit_outcome<F: FileSystem>(
    s: StartState,
    t: StartState,
    recent: Option<Seq<char>>,
    fs: F,
    r: AppAction,
) -> bool {
    match recent {
        Some(path) => if fs.spec_path_exists(path) {
            &&& (r matches AppAction::LoadMapFile(p) && p@ == path)
            &&& t == s
        } else {
            &&& r == AppAction::Continue
            &&& t == (StartState {
                display_err_msg: Some(ErrMsg::FileRead),
                needs_clear_and_redraw: true,
                ..s
            })
        },
        None => {
            let path = s.input_path_string->0@;
            let name = s.input_path_name->0@;
            match fs.spec_home_dir() {
                None => r == AppAction::Continue && after_submit_error(
                    s,
                    t,
                    ErrMsg::DirFind,
                ),
                Some(home) => if !fs.spec_can_create_dir(joined_path(home, path)) {
                    r == AppAction::Continue && after_submit_error(
                        s,
                        t,
                        ErrMsg::DirCreate,
                    )
                } else {
                    let file = manual_map_file(home, path, name);
                    &&& t == s
                    &&& if fs.spec_path_exists(file) {
                        r matches AppAction::LoadMapFile(p) && p@ == file
                    } else {
                        r matches AppAction::CreateMapFile(p) && p@ == file
                    }
                },
            }
        },
    }
}

impl StartState {
    /// A start screen showing the given outcome of loading the recent paths.
    pub fn new(recent_paths: Result<RecentPaths, ErrMsg>) -> (r: StartState)
        ensures
            r.needs_clear_and_redraw,
            r.selected_button == SelectedStartButton::CreateSelect,
            !r.input_path,
            r.focused_input_box == FocusedInputBox::InputBox1,
            r.input_path_string is None,
            r.input_path_name is None,
            r.display_err_msg is None,
            r.recent_paths == recent_paths,
    {
        StartState {
            needs_clear_and_redraw: true,
            selected_button: SelectedStartButton::CreateSelect,
            input_path: false,
            focused_input_box: FocusedInputBox::InputBox1,
            input_path_string: None,
            input_path_name: None,
            display_err_msg: None,
            recent_paths: recent_paths,
        }
    }

    /// A start screen with the recent paths loaded from `fs`.
    pub fn new_with_fs<F: FileSystem>(fs: &F) -> (r: StartState)
        ensures
            r.needs_clear_and_redraw,
            r.selected_button == SelectedStartButton::CreateSelect,
            !r.input_path,
            r.focused_input_box == FocusedInputBox::InputBox1,
            r.input_path_string is None,
            r.input_path_name is None,
            r.display_err_msg is None,
            r.recent_paths == spec_get_recent_paths(*fs),
    {
        Self::new(get_recent_paths_with_fs(fs))
    }

    pub fn clear_and_redraw(&mut self)
        ensures
            *final(self) == (StartState { needs_clear_and_redraw: true, ..*old(self) }),
    {
        self.needs_clear_and_redraw = true;
    }

    /// Moves the button selection by a key name: `k`/`Up` and `j`/`Down`.
    pub fn navigate_start_buttons(&mut self, key: &str)
        ensures
            *final(self) == (StartState {
                selected_button: button_after_key(old(self).selected_button, key@),
                ..*old(self)
            }),
    {
        if str_eq(key, "k") || str_eq(key, "Up") {
            self.button_list_go_up();
        } else if str_eq(key, "j") || str_eq(key, "Down") {
            self.button_list_go_down();
        }
    }

    fn button_list_go_up(&mut self)
        ensures
            *final(self) == (StartState { selected_button: button_above(old(self).selected_button), ..*old(self) }),
    {
        self.selected_button = match self.selected_button {
            SelectedStartButton::CreateSelect => SelectedStartButton::CreateSelect,
            SelectedStartButton::Recent1 => SelectedStartButton::CreateSelect,
            SelectedStartButton::Recent2 => SelectedStartButton::Recent1,
            SelectedStartButton::Recent3 => SelectedStartButton::Recent2,
        }
    }

    fn button_list_go_down(&mut self)
        ensures
            *final(self) == (StartState { selected_button: button_below(old(self).selected_button), ..*old(self) }),
    {
        self.selected_button = match self.selected_button {
            SelectedStartButton::CreateSelect => SelectedStartButton::Recent1,
            SelectedStartButton::Recent1 => SelectedStartButton::Recent2,
            SelectedStartButton::Recent2 => SelectedStartButton::Recent3,
            SelectedStartButton::Recent3 => SelectedStartButton::Recent3,
        }
    }

    /// Handles path submission from either recent files or manual input.
    ///
    /// For recent paths: validates existence before loading.
    /// For manual input: constructs full path from home dir + user input (e.g. maps/map_0),
    /// creates necessary directories, then loads or creates the map file.
    pub fn submit_path_with_fs<F: FileSystem>(&mut self, recent_path: Option<String>, fs: &F) -> (r:
        AppAction)
        requires
            recent_path is None ==> old(self).input_path_string is Some && old(self).input_path_name is Some,
        ensures
            submit_outcome(*old(self), *final(self), opt_view(recent_path), *fs, r),
    {
        match recent_path {
            Some(path) => {
                if fs.path_exists(path.as_str()) {
                    AppAction::LoadMapFile(path)
                } else {
                    self.display_err_msg = Some(ErrMsg::FileRead);
                    self.clear_and_redraw();
                    AppAction::Continue
                }
            },
            None => {
                let path = match &self.input_path_string {
                    Some(p) => p.clone(),
                    None => String::new(),
                };
                let name = match &self.input_path_name {
                    Some(n) => n.clone(),
                    None => String::new(),
                };
                let home_path = match fs.get_home_dir() {
                    Some(path) => path,
                    None => {
                        self.handle_submit_error(ErrMsg::DirFind);
                        return AppAction::Continue;
                    },
                };
                let map_path = path_join(home_path.as_str(), path.as_str());
                if !fs.create_dir_all(map_path.as_str()) {
                    self.handle_submit_error(ErrMsg::DirCreate);
                    return AppAction::Continue;
                }
                proof {
                    reveal_strlit("json");
                }
                let map_file_path = with_extension(path_join(map_path.as_str(), name.as_str()).as_str(), "json");
                if fs.path_exists(map_file_path.as_str()) {
                    AppAction::LoadMapFile(map_file_path)
                } else {
                    AppAction::CreateMapFile(map_file_path)
                }
            },
        }
    }

    /// Resets input fields and displays an error message when path submission fails
    pub fn handle_submit_error(&mut self, err_msg: ErrMsg)
        ensures
            after_submit_error(*old(self), *final(self), err_msg),
    {
        self.input_path_string = Some(String::new());
        self.input_path_name = Some(String::new());
        self.focused_input_box = FocusedInputBox::InputBox1;
        self.display_err_msg = Some(err_msg);
    }
}


/// Law: moving down leaves every button but the bottom one, moving up every
/// button but the top one; the list does not wrap.
pub proof fn lemma_buttons_move(b: SelectedStartButton)
    ensures
        b != SelectedStartButton::Recent3 <==> button_below(b) != b,
        b != SelectedStartButton::CreateSelect <==> button_above(b) != b,
{
}

} // verus!
