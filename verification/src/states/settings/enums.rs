use vstd::prelude::*;

use crate::states::settings::Settings;
use crate::states::start::ErrMsg;

verus! {

/// Tracks whether settings were loaded from a custom file or fell back to defaults.
/// Carries an optional error message with defaults to notify the user of load failures.
#[derive(PartialEq, Debug)]
pub enum SettingsType {
    Default(Settings, Option<ErrMsg>),
    Custom(Settings),
}

/// The settings held, whichever way they were obtained.
pub open spec fn settings_of(t: SettingsType) -> Settings {
    match t {
        SettingsType::Default(s, _) => s,
        SettingsType::Custom(s) => s,
    }
}

impl SettingsType {
    pub fn settings(&self) -> (r: &Settings)
        ensures
            *r == settings_of(*self),
    {
        match self {
            SettingsType::Default(settings, _) => settings,
            SettingsType::Custom(settings) => settings,
        }
    }

    pub fn settings_mut(&mut self) -> (r: &mut Settings)
        ensures
            *r == settings_of(*old(self)),
            *final(self) == (match *old(self) {
                SettingsType::Default(_, e) => SettingsType::Default(*final(r), e),
                SettingsType::Custom(_) => SettingsType::Custom(*final(r)),
            }),
    {
        match self {
            SettingsType::Default(settings, _) => settings,
            SettingsType::Custom(settings) => settings,
        }
    }
}

/// Destination when user confirms discarding unsaved settings changes.
#[derive(PartialEq, Eq, Debug, Clone, Copy, Structural)]
pub enum DiscardExitTo {
    StartScreen,
    MapScreen,
}

#[derive(PartialEq, Eq, Debug, Clone, Copy, Structural)]
pub enum SettingsNotification {
    SaveSuccess,
    SaveFail,
}

#[derive(PartialEq, Eq, Debug, Clone, Copy, Structural)]
pub enum SelectedToggle {
    /// Save map interval
    Toggle1,
    /// Load backups
    Toggle2,
    /// Runtime backups
    Toggle3,
    /// Default start side for making connections
    Toggle4,
    /// Default end side for making connections
    Toggle5,
    /// Modal Editing for Edit Mode
    Toggle6,
}

#[derive(PartialEq, Eq, Debug, Clone, Copy, Structural)]
pub enum BackupsInterval {
    Daily,
    Every3Days,
    Weekly,
    Every2Weeks,
}

#[derive(PartialEq, Eq, Debug, Clone, Copy, Structural)]
pub enum BackupsErr {
    DirFind,
    DirCreate,
    FileWrite,
}

#[derive(PartialEq, Eq, Debug, Clone, Copy, Structural)]
pub enum RuntimeBackupsInterval {
    Hourly,
    Every2Hours,
    Every4Hours,
    Every6Hours,
    Every12Hours,
}

} // verus!
