use vstd::prelude::*;

use crate::fs::FileSystem;
use crate::states::settings::{
    get_settings_with_fs, settings_of, settings_outcome, BackupsErr, BackupsInterval, DiscardExitTo,
    RuntimeBackupsInterval, SelectedToggle, SettingsNotification, SettingsType,
};
use crate::text::{joined_path, path_join};

verus! {

/// The path starts at the root directory.
pub open spec fn is_absolute(p: Seq<char>) -> bool {
    p.len() > 0 && p[0] == '/'
}

/// Whether a path text starts with `/`.
fn starts_with_slash(p: &str) -> (r: bool)
    ensures
        r == is_absolute(p@),
{
    p.unicode_len() > 0 && p.get_char(0) == '/'
}

/// Resolves backup path to absolute path.
/// Relative paths are resolved from home directory.
pub fn resolve_backup_path<F: FileSystem>(input_path: &str, fs: &F) -> (r: Result<String, BackupsErr>)
    ensures
        is_absolute(input_path@) ==> (r matches Ok(p) && p@ == input_path@),
        !is_absolute(input_path@) ==> match fs.spec_home_dir() {
            None => r == Err::<String, BackupsErr>(BackupsErr::DirFind),
            Some(home) => (r matches Ok(p) && p@ == joined_path(home, input_path@)),
        },
{
    if starts_with_slash(input_path) {
        Ok(input_path.to_owned())
    } else {
        match fs.get_home_dir() {
            Some(home_path) => Ok(path_join(home_path.as_str(), input_path)),
            None => Err(BackupsErr::DirFind),
        }
    }
}

/// Validates backup directory by attempting to create it and write to it.
pub fn validate_backup_directory<F: FileSystem>(path: &str, fs: &F) -> (r: Result<(), BackupsErr>)
    ensures
        !fs.spec_can_create_dir(path@) ==> r == Err::<(), BackupsErr>(BackupsErr::DirCreate),
        fs.spec_can_create_dir(path@) && !fs.spec_can_write_in_dir(path@) ==> r == Err::<(), BackupsErr>(
            BackupsErr::FileWrite,
        ),
        fs.spec_can_create_dir(path@) && fs.spec_can_write_in_dir(path@) ==> r is Ok,
{
    if !fs.create_dir_all(path) {
        return Err(BackupsErr::DirCreate);
    }
    if !fs.test_write_to_dir(path) {
        return Err(BackupsErr::FileWrite);
    }
    Ok(())
}

#[derive(PartialEq, Debug)]
pub struct SettingsState {
    pub needs_clear_and_redraw: bool,
    pub settings_context_page: bool,
    /// Path to return to when exiting settings.
    pub map_file_path: String,
    pub settings: SettingsType,
    /// Whether unsaved changes have been committed to disk.
    pub can_exit: bool,
    /// Destination screen when discarding unsaved changes.
    pub confirm_discard_menu: Option<DiscardExitTo>,
    pub notification: Option<SettingsNotification>,
    pub selected_toggle: SelectedToggle,
    pub context_page: bool,
    pub input_prompt: bool,
    pub input_prompt_err: Option<BackupsErr>,
}

/// The toggle below `t`; the runtime backups toggle is skipped when runtime backups are off.
pub open spec fn toggle_below(t: SelectedToggle, runtime_backups_on: bool) -> SelectedToggle {
    match t {
        SelectedToggle::Toggle1 => SelectedToggle::Toggle2,
        SelectedToggle::Toggle2 => if runtime_backups_on {
            SelectedToggle::Toggle3
        } else {
            SelectedToggle::Toggle4
        },
        SelectedToggle::Toggle3 => SelectedToggle::Toggle4,
        SelectedToggle::Toggle4 => SelectedToggle::Toggle5,
        SelectedToggle::Toggle5 => SelectedToggle::Toggle6,
        SelectedToggle::Toggle6 => SelectedToggle::Toggle1,
    }
}

/// The toggle above `t`; the runtime backups toggle is skipped when runtime backups are off.
pub open spec fn toggle_above(t: SelectedToggle, runtime_backups_on: bool) -> SelectedToggle {
    match t {
        SelectedToggle::Toggle1 => SelectedToggle::Toggle6,
        SelectedToggle::Toggle2 => SelectedToggle::Toggle1,
        SelectedToggle::Toggle3 => SelectedToggle::Toggle2,
        SelectedToggle::Toggle4 => if runtime_backups_on {
            SelectedToggle::Toggle3
        } else {
            SelectedToggle::Toggle2
        },
        SelectedToggle::Toggle5 => SelectedToggle::Toggle4,
        SelectedToggle::Toggle6 => SelectedToggle::Toggle5,
    }
}

/// Going down and then up again comes back to the same toggle, wherever the
/// selection may stand (the runtime backups toggle only when it is offered).
pub proof fn lemma_toggle_down_up(t: SelectedToggle, on: bool)
    requires
        on || t != SelectedToggle::Toggle3,
    ensures
        toggle_above(toggle_below(t, on), on) == t,
        toggle_below(toggle_above(t, on), on) == t,
{
}

/// What submitting the backups path typed into the prompt does: `a`
/// before, `b` after (see `SettingsState::submit_path_with_fs`).
pub open spec fn backups_path_submitted<F: FileSystem>(a: SettingsState, b: SettingsState, fs: F) -> bool {
    &&& b.can_exit == a.can_exit
    &&& b.selected_toggle == a.selected_toggle
    &&& b.map_file_path == a.map_file_path
    &&& b.needs_clear_and_redraw == a.needs_clear_and_redraw
    &&& b.settings_context_page == a.settings_context_page
    &&& b.confirm_discard_menu == a.confirm_discard_menu
    &&& b.notification == a.notification
    &&& b.context_page == a.context_page
    &&& {
        let input = settings_of(a.settings).backups_path->0@;
        let old_s = settings_of(a.settings);
        let new_s = settings_of(b.settings);
        let resolved = if is_absolute(input) {
            Some(input)
        } else {
            match fs.spec_home_dir() {
                Some(home) => Some(joined_path(home, input)),
                None => None,
            }
        };
        match resolved {
            None => {
                &&& b.input_prompt_err == Some(BackupsErr::DirFind)
                &&& b.settings == a.settings
                &&& b.input_prompt == a.input_prompt
            },
            Some(dir) => {
                &&& (new_s.backups_path matches Some(p) && p@ == dir)
                &&& new_s.save_interval == old_s.save_interval
                &&& new_s.backup_dates == old_s.backup_dates
                &&& new_s.default_start_side == old_s.default_start_side
                &&& new_s.default_end_side == old_s.default_end_side
                &&& new_s.edit_modal == old_s.edit_modal
                &&& (b.settings is Custom <==> a.settings is Custom)
                &&& if !fs.spec_can_create_dir(dir) {
                    &&& b.input_prompt_err == Some(BackupsErr::DirCreate)
                    &&& b.input_prompt == a.input_prompt
                    &&& new_s.backups_interval == old_s.backups_interval
                    &&& new_s.runtime_backups_interval == old_s.runtime_backups_interval
                } else if !fs.spec_can_write_in_dir(dir) {
                    &&& b.input_prompt_err == Some(BackupsErr::FileWrite)
                    &&& b.input_prompt == a.input_prompt
                    &&& new_s.backups_interval == old_s.backups_interval
                    &&& new_s.runtime_backups_interval == old_s.runtime_backups_interval
                } else {
                    &&& b.input_prompt_err is None
                    &&& !b.input_prompt
                    &&& new_s.backups_interval == Some(BackupsInterval::Daily)
                    &&& new_s.runtime_backups_interval == Some(
                        RuntimeBackupsInterval::Every2Hours,
                    )
                }
            },
        }
    }
}

impl SettingsState {
    /// A settings screen for the map at `map_file_path`, with the settings loaded from `fs`.
    pub fn new_with_fs<F: FileSystem>(map_file_path: String, fs: &F) -> (r: SettingsState)
        ensures
            r.needs_clear_and_redraw,
            !r.settings_context_page,
            r.map_file_path@ == map_file_path@,
            settings_outcome(*fs, r.settings),
            r.can_exit,
            r.confirm_discard_menu is None,
            r.notification is None,
            r.selected_toggle == SelectedToggle::Toggle1,
            !r.context_page,
            !r.input_prompt,
            r.input_prompt_err is None,
    {
        SettingsState {
            needs_clear_and_redraw: true,
            settings_context_page: false,
            map_file_path: map_file_path,
            settings: get_settings_with_fs(fs),
            can_exit: true,
            confirm_discard_menu: None,
            notification: None,
            selected_toggle: SelectedToggle::Toggle1,
            context_page: false,
            input_prompt: false,
            input_prompt_err: None,
        }
    }

    pub fn toggle_go_down(&mut self)
        ensures
            *final(self) == (SettingsState {
                selected_toggle: toggle_below(
                    old(self).selected_toggle,
                    settings_of(old(self).settings).runtime_backups_interval is Some,
                ),
                ..*old(self)
            }),
    {
        let on = self.settings.settings().runtime_backups_interval.is_some();
        self.selected_toggle = match self.selected_toggle {
            SelectedToggle::Toggle1 => SelectedToggle::Toggle2,
            SelectedToggle::Toggle2 => {
                // Skip Toggle3 (runtime backups interval) if backups are disabled
                if on {
                    SelectedToggle::Toggle3
                } else {
                    SelectedToggle::Toggle4
                }
            },
            SelectedToggle::Toggle3 => SelectedToggle::Toggle4,
            SelectedToggle::Toggle4 => SelectedToggle::Toggle5,
            SelectedToggle::Toggle5 => SelectedToggle::Toggle6,
            SelectedToggle::Toggle6 => SelectedToggle::Toggle1,
        };
    }

    pub fn toggle_go_up(&mut self)
        ensures
            *final(self) == (SettingsState {
                selected_toggle: toggle_above(
                    old(self).selected_toggle,
                    settings_of(old(self).settings).runtime_backups_interval is Some,
                ),
                ..*old(self)
            }),
    {
        let on = self.settings.settings().runtime_backups_interval.is_some();
        self.selected_toggle = match self.selected_toggle {
            SelectedToggle::Toggle1 => SelectedToggle::Toggle6,
            SelectedToggle::Toggle2 => SelectedToggle::Toggle1,
            SelectedToggle::Toggle3 => SelectedToggle::Toggle2,
            SelectedToggle::Toggle4 => {
                // Skip Toggle3 (runtime backups interval) if backups are disabled
                if on {
                    SelectedToggle::Toggle3
                } else {
                    SelectedToggle::Toggle2
                }
            },
            SelectedToggle::Toggle5 => SelectedToggle::Toggle4,
            SelectedToggle::Toggle6 => SelectedToggle::Toggle5,
        };
    }

    /// Submits the backups directory typed into the prompt: a relative path
    /// is resolved from the home directory and stored absolute; the directory
    /// is created and tested for writing. On success backups are switched on
    /// (daily, and every 2 hours while editing) and the prompt closes; on
    /// failure the error is shown and the prompt stays.
    pub fn submit_path_with_fs<F: FileSystem>(&mut self, fs: &F)
        requires
            settings_of(old(self).settings).backups_path is Some,
        ensures
            backups_path_submitted(*old(self), *final(self), *fs),
    {
        let input_dir_path = match &self.settings.settings().backups_path {
            Some(p) => p.clone(),
            None => String::new(),
        };
        let backups_dir = match resolve_backup_path(input_dir_path.as_str(), fs) {
            Ok(path) => path,
            Err(err) => {
                self.input_prompt_err = Some(err);
                return;
            },
        };
        // Store absolute path for consistency
        let stored = backups_dir.clone();
        self.settings.settings_mut().backups_path = Some(stored);

        if let Err(err) = validate_backup_directory(backups_dir.as_str(), fs) {
            self.input_prompt_err = Some(err);
            return;
        }
        // Initialize backup intervals with sensible defaults
        self.settings.settings_mut().backups_interval = Some(BackupsInterval::Daily);
        self.settings.settings_mut().runtime_backups_interval = Some(RuntimeBackupsInterval::Every2Hours);

        self.input_prompt_err = None;
        self.input_prompt = false;
    }
}


/// Law: going down the settings list always moves to another toggle, skips
/// the runtime backups toggle exactly when runtime backups are off, and
/// comes back after the last toggle to the first; going up likewise.
pub proof fn lemma_toggle_moves(t: SelectedToggle, on: bool)
    ensures
        toggle_below(t, on) != t,
        toggle_above(t, on) != t,
        !on ==> toggle_below(t, on) != SelectedToggle::Toggle3 && toggle_above(t, on) != SelectedToggle::Toggle3,
        on && t == SelectedToggle::Toggle2 ==> toggle_below(t, on) == SelectedToggle::Toggle3,
        t == SelectedToggle::Toggle6 ==> toggle_below(t, on) == SelectedToggle::Toggle1,
        t == SelectedToggle::Toggle1 ==> toggle_above(t, on) == SelectedToggle::Toggle6,
{
}

} // verus!
