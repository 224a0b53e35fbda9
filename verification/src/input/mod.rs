//! Keyboard input: the keys the application reacts to, what each screen
//! does with them, and the action it asks the caller to perform.

mod handler;
mod key;
pub mod map;
mod settings;
mod start;

pub use handler::{map_kh, AppAction};
pub use key::{KeyCode, KeyEvent, KeyModifiers};
pub use start::{
    after_input_key, backspace_field, backspaced, field_room, nav_name, same_start, selected_recent,
    start_kh, string_of, type_char, typed,
};
pub use settings::{
    is_fresh_start, load_failed, prompt_path, same_screen_but_settings, settings_after_enter,
    settings_kh, to_map, to_start, with_settings,
};
