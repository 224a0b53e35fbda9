use vstd::prelude::*;

verus! {

/// Buttons available in the start screen.
/// Limited to 3 recent files to keep the UI compact and focused.
#[derive(PartialEq, Eq, Debug, Clone, Copy, Structural)]
pub enum SelectedStartButton {
    CreateSelect,
    Recent1,
    Recent2,
    Recent3,
}

/// Tracks which input box has focus when creating or selecting a file.
#[derive(PartialEq, Eq, Debug, Clone, Copy, Structural)]
pub enum FocusedInputBox {
    InputBox1,
    InputBox2,
}

/// Error conditions that can occur during start screen operations.
#[derive(PartialEq, Eq, Debug, Clone, Copy, Structural)]
pub enum ErrMsg {
    DirFind,
    DirCreate,
    FileRead,
    FileWrite,
}

} // verus!
