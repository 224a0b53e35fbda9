mod enums;
mod recent_paths;
mod state;

pub use enums::{ErrMsg, FocusedInputBox, SelectedStartButton};
pub use recent_paths::{
    config_dir, config_file, get_recent_paths_with_fs, holds_path, recent_paths_file_for_save,
    recent_paths_view, spec_get_recent_paths, RecentPaths, RecentPathsView,
};
pub use state::{
    after_submit_error, button_above, button_after_key, button_below, lemma_buttons_down_up,
    manual_map_file, submit_outcome, StartState,
};
