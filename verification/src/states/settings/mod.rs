mod enums;
pub mod helpers;
mod io;
mod settings;
mod state;

pub use enums::{
    settings_of, BackupsErr, BackupsInterval, DiscardExitTo, RuntimeBackupsInterval,
    SelectedToggle, SettingsNotification, SettingsType,
};
pub use helpers::{cycle_side, side_to_string};
pub use io::{
    get_settings_with_fs, is_default_with, save_settings_to_file_with_fs, save_settings_with_fs,
    settings_outcome, settings_saved,
};
pub use settings::{
    backup_due, backup_interval_days, spec_backup_interval_days, is_default_settings, is_offered_save_interval, next_backups_interval, next_runtime_interval,
    next_save_interval, date_of, dates_view, default_settings_view, lemma_default_settings_view, settings_view, SettingsView, one_date_per_path, opt_string_view, without_path, Settings,
};
pub use state::{
    backups_path_submitted, is_absolute, lemma_toggle_down_up, resolve_backup_path, toggle_above, toggle_below,
    validate_backup_directory, SettingsState,
};
