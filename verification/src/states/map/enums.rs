use vstd::prelude::*;

verus! {

/// Represents the application's current input mode, similar to Vim.
#[derive(PartialEq, Eq, Debug, Clone, Copy, Structural)]
pub enum Mode {
    Normal,
    Visual,
    VisualMove,
    VisualConnect,
    /// Editing a note's text without modal (vim-style) editing.
    Edit,
    /// Modal editing: the normal (command) sub-mode.
    EditNormal,
    /// Modal editing: the insert sub-mode.
    EditInsert,
    Delete,
}

/// Notifications displayed in the status bar.
#[derive(PartialEq, Eq, Debug, Clone, Copy, Structural)]
pub enum Notification {
    SaveSuccess,
    SaveFail,
    BackupSuccess,
    BackupFail,
    BackupRecordFail,
}

/// Tracks the user's intended destination when discarding unsaved changes.
/// Used to route correctly after the discard confirmation.
#[derive(PartialEq, Eq, Debug, Clone, Copy, Structural)]
pub enum DiscardMenuType {
    Start,
    Settings,
}

/// The outcome of the last backup attempt of a map file.
#[derive(PartialEq, Eq, Debug, Clone, Copy, Structural)]
pub enum BackupResult {
    BackupSuccess,
    BackupFail,
}

} // verus!
