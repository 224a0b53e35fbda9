pub mod map;
pub mod settings;
pub mod start;

pub use map::MapState;
pub use settings::SettingsState;
pub use start::StartState;
