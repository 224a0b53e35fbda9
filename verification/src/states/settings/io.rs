use vstd::prelude::*;

use crate::fs::FileSystem;
use crate::states::settings::{
    default_settings_view, is_default_settings, lemma_default_settings_view, settings_of, settings_view, Settings,
    SettingsNotification, SettingsState, SettingsType,
};
use crate::states::start::{config_dir, config_file, ErrMsg};
use crate::text::{path_join, with_extension};

verus! {

/// The settings are the defaults, obtained with the error `err`.
pub open spec fn is_default_with(t: SettingsType, err: Option<ErrMsg>) -> bool {
    t matches SettingsType::Default(s, e) && e == err && is_default_settings(s)
}

/// What loading the settings from the file system `fs` gives: defaults with
/// an error where the home directory, the config directory or the settings
/// file fails; the stored settings where the file can be read; defaults
/// without an error where the file did not exist and could be created.
pub open spec fn settings_outcome<F: FileSystem>(fs: F, t: SettingsType) -> bool {
    match fs.spec_home_dir() {
        None => is_default_with(t, Some(ErrMsg::DirFind)),
        Some(home) => if !fs.spec_can_create_dir(config_dir(home)) {
            is_default_with(t, Some(ErrMsg::DirCreate))
        } else if fs.spec_path_exists(config_file(home, "settings"@)) {
            match fs.spec_read_settings(config_file(home, "settings"@)) {
                Some(s) => t == SettingsType::Custom(s),
                None => is_default_with(t, Some(ErrMsg::FileRead)),
            }
        } else if fs.spec_write_settings(config_file(home, "settings"@), default_settings_view()) {
            is_default_with(t, None)
        } else {
            is_default_with(t, Some(ErrMsg::FileWrite))
        },
    }
}

/// Loads settings from disk or returns defaults with an error notification.
///
/// Returns:
/// - `Default` with no error: First boot, settings file created successfully
/// - `Default` with error: File system or I/O error (user should be notified)
/// - `Custom`: Existing settings loaded successfully
pub fn get_settings_with_fs<F: FileSystem>(fs: &F) -> (r: SettingsType)
    ensures
        settings_outcome(*fs, r),
{
    proof {
        reveal_strlit(".config/tmmpr/");
        reveal_strlit("settings");
        reveal_strlit("json");
    }
    let home_path = match fs.get_home_dir() {
        Some(path) => path,
        None => return SettingsType::Default(Settings::new(), Some(ErrMsg::DirFind)),
    };
    let config_dir_path = path_join(home_path.as_str(), ".config/tmmpr/");
    if !fs.create_dir_all(config_dir_path.as_str()) {
        return SettingsType::Default(Settings::new(), Some(ErrMsg::DirCreate));
    }
    let settings_file_path = with_extension(path_join(config_dir_path.as_str(), "settings").as_str(), "json");
    if fs.path_exists(settings_file_path.as_str()) {
        match fs.read_settings(settings_file_path.as_str()) {
            Some(settings) => SettingsType::Custom(settings),
            None => SettingsType::Default(Settings::new(), Some(ErrMsg::FileRead)),
        }
    } else {
        let new_settings = Settings::new();
        proof {
            lemma_default_settings_view(new_settings);
        }
        if fs.write_settings(settings_file_path.as_str(), &new_settings) {
            SettingsType::Default(Settings::new(), None)
        } else {
            SettingsType::Default(Settings::new(), Some(ErrMsg::FileWrite))
        }
    }
}

/// Writes the settings to `~/.config/tmmpr/settings.json`.
pub fn save_settings_to_file_with_fs<F: FileSystem>(settings: &Settings, fs: &F) -> (r: Result<(), ErrMsg>)
    ensures
        match fs.spec_home_dir() {
            None => r == Err::<(), ErrMsg>(ErrMsg::DirFind),
            Some(home) => if fs.spec_write_settings(config_file(home, "settings"@), settings_view(*settings)) {
                r is Ok
            } else {
                r == Err::<(), ErrMsg>(ErrMsg::FileWrite)
            },
        },
{
    proof {
        reveal_strlit(".config/tmmpr/");
        reveal_strlit("settings");
        reveal_strlit("json");
    }
    let home_path = match fs.get_home_dir() {
        Some(path) => path,
        None => return Err(ErrMsg::DirFind),
    };
    let config_dir_path = path_join(home_path.as_str(), ".config/tmmpr/");
    let settings_file_path = with_extension(path_join(config_dir_path.as_str(), "settings").as_str(), "json");
    if fs.write_settings(settings_file_path.as_str(), settings) {
        Ok(())
    } else {
        Err(ErrMsg::FileWrite)
    }
}

/// What saving the settings does to the settings screen: `a` before, `b`
/// after (see `save_settings_with_fs`); the screen's settings are what is
/// written.
pub open spec fn settings_saved<F: FileSystem>(a: SettingsState, b: SettingsState, fs: F) -> bool {
    let saved = fs.spec_home_dir() matches Some(home) && fs.spec_write_settings(
        config_file(home, "settings"@),
        settings_view(settings_of(a.settings)),
    );
    &&& b == (SettingsState {
        notification: Some(
            if saved {
                SettingsNotification::SaveSuccess
            } else {
                SettingsNotification::SaveFail
            },
        ),
        can_exit: saved || a.can_exit,
        ..a
    })
}

/// Saves settings to disk: on success the settings screen may be left and
/// a success notification shows; otherwise a failure notification shows.
pub fn save_settings_with_fs<F: FileSystem>(settings_state: &mut SettingsState, fs: &F)
    ensures
        settings_saved(*old(settings_state), *final(settings_state), *fs),
{
    match save_settings_to_file_with_fs(settings_state.settings.settings(), fs) {
        Ok(_) => {
            settings_state.can_exit = true;
            settings_state.notification = Some(SettingsNotification::SaveSuccess);
        },
        Err(_) => settings_state.notification = Some(SettingsNotification::SaveFail),
    }
}

} // verus!
