use vstd::prelude::*;

use crate::color::Color;
use crate::fs::FileSystem;
use crate::states::map::notes_state::{manhattan, moved_to_back, with_selected};
use crate::states::map::viewport::spec_center;
use crate::states::map::{
    complete_only, no_self_connections, notes_consistent, Connection, ConnectionsState, Mode, Note, NoteData,
    NotesState, PersistenceState, UIState, ViewPos, ViewportState,
};
use std::collections::HashMap;
use crate::states::settings::{get_settings_with_fs, settings_of, settings_outcome, Settings, SettingsType};
use crate::states::start::ErrMsg;

verus! {

/// The notes and connections a map file holds, when they are consistent:
/// the drawing order lists every note once and nothing else, every note ID
/// is below the next one handed out, and no connection runs from a note to
/// itself. Otherwise `None`, and the file cannot be opened.
pub fn loaded_states(
    notes: HashMap<usize, Note>,
    next_note_id: usize,
    render_order: Vec<usize>,
    connections: Vec<Connection>,
) -> (r: Option<(NotesState, ConnectionsState)>)
    ensures
        r is Some <==> notes_consistent(notes@, next_note_id, render_order@) && no_self_connections(connections@),
        r matches Some((ns, cs)) ==> {
            &&& ns.wf()
            &&& ns.spec_notes() == notes@
            &&& ns.spec_next_id() == next_note_id
            &&& ns.spec_render_order() == render_order@
            &&& ns.spec_selected() is None
            &&& ns.spec_cursor() == 0
            &&& cs.wf()
            &&& cs.spec_connections() == complete_only(connections@)
            &&& cs.focused_connection is None
            &&& cs.editing_connection_index is None
        },
{
    let ns = match NotesState::checked_from_map_data(notes, next_note_id, render_order) {
        Some(ns) => ns,
        None => return None,
    };
    match ConnectionsState::checked_from_connections(connections) {
        Some(cs) => Some((ns, cs)),
        None => None,
    }
}

/// Core state for the map view where users create and edit notes and connections.
///
/// This is the main working state of the application, handling note creation/editing,
/// viewport navigation, visual selection, and auto-save/backup functionality.
#[derive(PartialEq, Debug)]
pub struct MapState {
    pub current_mode: Mode,
    pub viewport: ViewportState,
    pub notes_state: NotesState,
    pub connections_state: ConnectionsState,
    pub persistence: PersistenceState,
    pub ui_state: UIState,
    pub settings: Settings,
    pub settings_err_msg: Option<ErrMsg>,
}

/// The edit mode that `switch_to_edit_mode` enters: modal editing starts in
/// its normal sub-mode.
pub open spec fn edit_mode_for(edit_modal: bool) -> Mode {
    if edit_modal {
        Mode::EditNormal
    } else {
        Mode::Edit
    }
}

/// The load error that came with the settings, if any.
pub open spec fn error_of(t: SettingsType) -> Option<ErrMsg> {
    match t {
        SettingsType::Default(_, e) => e,
        SettingsType::Custom(_) => None,
    }
}

/// The viewport center can be computed without overflow.
pub open spec fn center_fits(v: ViewportState) -> bool {
    &&& v.view_pos.x + v.screen_width / 2 <= usize::MAX
    &&& v.view_pos.y + v.screen_height / 2 <= usize::MAX
}

impl MapState {
    /// A map screen for the file at `file_write_path`, with the settings loaded from `fs`
    /// (defaults and the load error where they cannot be loaded).
    pub fn new_with_fs<F: FileSystem>(file_write_path: String, fs: &F) -> (r: MapState)
        ensures
            r.current_mode == Mode::Normal,
            r.viewport == (ViewportState { view_pos: ViewPos { x: 0, y: 0 }, screen_width: 0, screen_height: 0 }),
            r.notes_state.spec_notes() == Map::<usize, super::Note>::empty(),
            r.notes_state.spec_next_id() == 0,
            r.notes_state.spec_selected() is None,
            r.notes_state.wf(),
            r.connections_state.spec_connections() == Seq::<super::Connection>::empty(),
            r.connections_state.focused_connection is None,
            r.connections_state.wf(),
            r.persistence.file_write_path@ == file_write_path@,
            r.persistence.can_exit,
            r.ui_state == (UIState {
                needs_clear_and_redraw: true,
                show_notification: None,
                confirm_discard_menu: None,
                help_screen: None,
            }),
            exists|t: SettingsType|
                settings_outcome(*fs, t) && r.settings == settings_of(t) && r.settings_err_msg == error_of(t),
    {
        let loaded = get_settings_with_fs(fs);
        let ghost t = loaded;
        let (settings, settings_err_msg) = match loaded {
            SettingsType::Default(settings, err_opt) => (settings, err_opt),
            SettingsType::Custom(settings) => (settings, None),
        };
        let r = MapState {
            current_mode: Mode::Normal,
            viewport: ViewportState::new(),
            notes_state: NotesState::new(),
            connections_state: ConnectionsState::new(),
            persistence: PersistenceState::new(file_write_path),
            ui_state: UIState::new(),
            settings: settings,
            settings_err_msg: settings_err_msg,
        };
        proof {
            assert(settings_outcome(*fs, t) && r.settings == settings_of(t) && r.settings_err_msg == error_of(t));
        }
        r
    }

    pub fn clear_and_redraw(&mut self)
        ensures
            final(self).ui_state.needs_clear_and_redraw,
            final(self).ui_state.show_notification == old(self).ui_state.show_notification,
            final(self).ui_state.confirm_discard_menu == old(self).ui_state.confirm_discard_menu,
            final(self).ui_state.help_screen == old(self).ui_state.help_screen,
            final(self).current_mode == old(self).current_mode,
            final(self).viewport == old(self).viewport,
            final(self).notes_state == old(self).notes_state,
            final(self).connections_state == old(self).connections_state,
            final(self).persistence == old(self).persistence,
            final(self).settings == old(self).settings,
            final(self).settings_err_msg == old(self).settings_err_msg,
    {
        self.ui_state.request_redraw();
    }

    /// Switches to Edit mode, using modal editing (starting in its normal
    /// sub-mode) if enabled in settings.
    pub fn switch_to_edit_mode(&mut self)
        ensures
            *final(self) == (MapState { current_mode: edit_mode_for(old(self).settings.edit_modal), ..*old(self) }),
    {
        self.current_mode = if self.settings.edit_modal {
            Mode::EditNormal
        } else {
            Mode::Edit
        };
    }

    /// Adds a new, empty, white note at the center of the viewport, selects
    /// it and enters edit mode. The map then has unsaved changes.
    pub fn add_note(&mut self)
        requires
            center_fits(old(self).viewport),
            old(self).notes_state.spec_next_id() < usize::MAX,
        ensures
            ({
                let (cx, cy) = spec_center(
                    old(self).viewport.view_pos,
                    old(self).viewport.screen_width,
                    old(self).viewport.screen_height,
                );
                let id = old(self).notes_state.spec_next_id();
                let note = final(self).notes_state.spec_notes()[id];
                &&& final(self).notes_state.spec_notes() == old(self).notes_state.spec_notes().insert(id, note)
                &&& note.x == cx && note.y == cy
                &&& note.data.content@ == Seq::<char>::empty()
                &&& note.data.color == Color::White
                &&& note.data.selected
                &&& final(self).notes_state.spec_render_order() == old(self).notes_state.spec_render_order().push(id)
                &&& final(self).notes_state.spec_selected() == Some(id)
                &&& final(self).notes_state.spec_next_id() == id + 1
            }),
            final(self).notes_state.spec_cursor() == old(self).notes_state.spec_cursor(),
            final(self).current_mode == edit_mode_for(old(self).settings.edit_modal),
            final(self).persistence == (PersistenceState { can_exit: false, ..old(self).persistence }),
            final(self).viewport == old(self).viewport,
            final(self).connections_state == old(self).connections_state,
            final(self).settings == old(self).settings,
            final(self).settings_err_msg == old(self).settings_err_msg,
            final(self).ui_state == old(self).ui_state,
            old(self).notes_state.wf() ==> final(self).notes_state.wf(),
    {
        self.persistence.mark_dirty();
        let (note_x, note_y) = self.viewport.center();
        self.notes_state.add(note_x, note_y, String::new(), true, Color::White);
        self.switch_to_edit_mode();
    }

    /// Selects the note closest to the viewport center (Manhattan distance to
    /// its top-left corner) and enters Visual mode; with no notes nothing changes.
    pub fn select_note(&mut self)
        requires
            center_fits(old(self).viewport),
        ensures
            old(self).notes_state.spec_notes().dom().is_empty() ==> *final(self) == *old(self),
            !old(self).notes_state.spec_notes().dom().is_empty() ==> {
                let (cx, cy) = spec_center(
                    old(self).viewport.view_pos,
                    old(self).viewport.screen_width,
                    old(self).viewport.screen_height,
                );
                let notes = old(self).notes_state.spec_notes();
                &&& final(self).current_mode == Mode::Visual
                &&& final(self).notes_state.spec_selected() matches Some(id) && {
                    &&& notes.contains_key(id)
                    &&& forall|other: usize| #[trigger]
                        notes.contains_key(other) ==> manhattan(notes[id], cx as usize, cy as usize)
                            <= manhattan(notes[other], cx as usize, cy as usize)
                    &&& final(self).notes_state.spec_notes() == notes.insert(id, with_selected(notes[id], true))
                    &&& final(self).notes_state.spec_render_order() == moved_to_back(
                        old(self).notes_state.spec_render_order(),
                        id,
                    )
                }
            },
            final(self).viewport == old(self).viewport,
            final(self).connections_state == old(self).connections_state,
            final(self).persistence == old(self).persistence,
            final(self).settings == old(self).settings,
            final(self).settings_err_msg == old(self).settings_err_msg,
            final(self).ui_state == old(self).ui_state,
            final(self).notes_state.spec_notes().dom() == old(self).notes_state.spec_notes().dom(),
            final(self).notes_state.spec_cursor() == old(self).notes_state.spec_cursor(),
            final(self).notes_state.spec_next_id() == old(self).notes_state.spec_next_id(),
            old(self).notes_state.wf() ==> final(self).notes_state.wf(),
    {
        let (screen_center_x, screen_center_y) = self.viewport.center();
        if let Some(id) = self.notes_state.find_closest_note(screen_center_x, screen_center_y) {
            self.notes_state.select(id);
            self.current_mode = Mode::Visual;
        }
    }

    /// Decides the periodic auto-save: when an interval is set and it has
    /// passed with unsaved changes, the save timer restarts and `true` asks
    /// the caller to write the map file (no notification is shown for it).
    pub fn auto_save_if_needed(&mut self) -> (save: bool)
        ensures
            save ==> old(self).settings.save_interval is Some && !old(self).persistence.can_exit,
            old(self).settings.save_interval is None ==> !save,
            !save ==> *final(self) == *old(self),
            save ==> *final(self) == (MapState {
                persistence: PersistenceState { last_save: final(self).persistence.last_save, ..old(self).persistence },
                ..*old(self)
            }),
    {
        if let Some(interval) = self.settings.save_interval {
            if self.persistence.should_save(interval) {
                self.persistence.reset_save_timer();
                return true;
            }
        }
        false
    }

    /// Decides the periodic runtime backup: when an interval is set and it
    /// has passed, the backup timer restarts and `true` asks the caller to
    /// write a backup.
    pub fn auto_backup_if_needed(&mut self) -> (backup: bool)
        ensures
            backup ==> old(self).settings.runtime_backups_interval is Some,
            old(self).settings.runtime_backups_interval is None ==> !backup,
            !backup ==> *final(self) == *old(self),
            backup ==> *final(self) == (MapState {
                persistence: PersistenceState { rt_backup_ts: final(self).persistence.rt_backup_ts, ..old(self).persistence },
                ..*old(self)
            }),
    {
        if let Some(interval) = &self.settings.runtime_backups_interval {
            if self.persistence.should_backup(interval) {
                self.persistence.reset_backup_timer();
                return true;
            }
        }
        false
    }
}

} // verus!
