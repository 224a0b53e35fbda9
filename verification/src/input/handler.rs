use vstd::prelude::*;

use crate::app::Screen;
use crate::fs::FileSystem;
use crate::input::map::{
    can_cycle, delete_key_outcome, edit_key_outcome, map_bounds, map_delete_kh, map_edit_kh,
    map_normal_kh, map_ready, map_visual_kh, normal_key_outcome, visual_key_outcome,
};
use crate::input::{KeyCode, KeyEvent};
use crate::states::map::{MapState, Mode};

verus! {

/// What the caller of a key handler is to do next.
#[derive(PartialEq, Debug)]
pub enum AppAction {
    Continue,
    Quit,
    Switch(Screen),
    CreateMapFile(String),
    SaveMapFile(String),
    LoadMapFile(String),
}

/// Dispatches key events to mode-specific handlers in the map screen.
///
/// Every key that keeps the map screen open leaves it ready for the next
/// key (`map_ready`): the notes and the connection index stay consistent
/// and every mode keeps the selection and cursor it works on.
pub fn map_kh<F: FileSystem>(map_state: &mut MapState, key: KeyEvent, fs: &F) -> (r: AppAction)
    requires
        map_ready(*old(map_state)),
        map_bounds(*old(map_state)),
        old(map_state).current_mode == Mode::VisualConnect && key.code == KeyCode::Char('n')
            && old(map_state).connections_state.editing_connection_index is Some ==> can_cycle(
            old(map_state).connections_state,
            old(map_state).notes_state.spec_selected()->0,
        ),
    ensures
        r == AppAction::Continue ==> map_ready(*final(map_state)),
        match old(map_state).current_mode {
            Mode::Normal => normal_key_outcome(*old(map_state), *final(map_state), key, *fs, r),
            Mode::Visual | Mode::VisualMove | Mode::VisualConnect => r == AppAction::Continue
                && visual_key_outcome(*old(map_state), *final(map_state), key),
            Mode::Edit | Mode::EditNormal | Mode::EditInsert => r == AppAction::Continue
                && edit_key_outcome(*old(map_state), *final(map_state), key),
            Mode::Delete => r == AppAction::Continue && delete_key_outcome(
                *old(map_state),
                *final(map_state),
                key,
            ),
        },
{
    match map_state.current_mode {
        Mode::Normal => map_normal_kh(map_state, key, fs),
        Mode::Visual | Mode::VisualMove | Mode::VisualConnect => map_visual_kh(map_state, key),
        Mode::Edit | Mode::EditNormal | Mode::EditInsert => map_edit_kh(map_state, key),
        // Delete mode requires user confirmation before actually deleting
        Mode::Delete => map_delete_kh(map_state, key),
    }
}

} // verus!
