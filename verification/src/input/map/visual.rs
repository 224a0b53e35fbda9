use vstd::prelude::*;
use vstd::string::*;

use crate::color::Color;
use crate::graph::Node;
use crate::input::map::helpers::{
    cycle_color, cycle_side, focus_dir_of, focus_switched, lemma_focus_key_directions, move_note, note_moved,
    spec_cycle_color, switch_notes_focus,
};
use crate::input::map::normal::with_ui;
use crate::input::map::ready::{map_bounds, map_ready};
use crate::input::{AppAction, KeyCode, KeyEvent, KeyModifiers};
use crate::states::map::{
    edit_mode_for, touches, with_selected, Connection, ConnectionsState, MapState, Mode, NoteData,
    PersistenceState, UIState,
};
use crate::states::settings::helpers::spec_cycle_side;

verus! {

/// The stored connections once the focused one is stashed.
pub open spec fn stashed(cs: ConnectionsState) -> Seq<Connection> {
    match cs.focused_connection {
        Some(c) => if c.to_id is Some {
            cs.spec_connections().push(c)
        } else {
            cs.spec_connections()
        },
        None => cs.spec_connections(),
    }
}

/// Cycling to the next connection of note `sel` finds one: some stored
/// connection touches it once the focused one is stashed.
pub open spec fn can_cycle(cs: ConnectionsState, sel: usize) -> bool {
    exists|i: int| 0 <= i < stashed(cs).len() && touches(#[trigger] stashed(cs)[i], sel)
}

/// The key moves the selected note in VisualMove mode, as (x axis?, amount).
pub open spec fn note_move_of(key: KeyEvent) -> Option<(bool, isize)> {
    crate::input::map::normal::viewport_move_of(key)
}

/// The focused connection after `r`: sides of its ends at note `sel` turn.
pub open spec fn rotated(c: Connection, sel: usize) -> Connection {
    let c1 = if c.from_id == sel {
        Connection { from_side: spec_cycle_side(c.from_side), ..c }
    } else {
        c
    };
    if c1.to_id == Some(sel) {
        Connection { to_side: Some(spec_cycle_side(c1.to_side->0)), ..c1 }
    } else {
        c1
    }
}

/// `t` is `x` but for the user interface, which only asked for a redraw in `t`.
pub open spec fn redrawn_from(s: MapState, t: MapState, x: MapState) -> bool {
    with_ui(t, s.ui_state) == x
}

/// The selected note of `s` as `t` has it after Esc: no longer selected,
/// its selection flag cleared, all else kept, in Normal mode.
pub open spec fn left_to_normal(s: MapState, t: MapState) -> bool {
    let sel = s.notes_state.spec_selected()->0;
    &&& t.current_mode == Mode::Normal
    &&& t.notes_state.spec_selected() is None
    &&& t.notes_state.spec_notes() == s.notes_state.spec_notes().insert(
        sel,
        with_selected(s.notes_state.spec_notes()[sel], false),
    )
    &&& t.notes_state.spec_render_order() == s.notes_state.spec_render_order()
    &&& t.notes_state.spec_next_id() == s.notes_state.spec_next_id()
    &&& t.notes_state.spec_cursor() == s.notes_state.spec_cursor()
    &&& redrawn_from(s, t, MapState { current_mode: Mode::Normal, notes_state: t.notes_state, ..s })
}

/// Law: `r` in VisualConnect mode turns only the ends of the focused
/// connection that are attached to the selected note, each to another side;
/// an end at another note keeps its side, the connection keeps its notes and
/// color, and the stored connections stay as they are.
pub proof fn lemma_rotate_turns_only_selected_ends(s: MapState, t: MapState, key: KeyEvent)
    requires
        s.current_mode == Mode::VisualConnect,
        key.code == KeyCode::Char('r'),
        visual_key_outcome(s, t, key),
        s.connections_state.focused_connection is Some,
    ensures
        ({
            let sel = s.notes_state.spec_selected()->0;
            let c = s.connections_state.focused_connection->0;
            &&& t.connections_state.spec_connections() == s.connections_state.spec_connections()
            &&& t.connections_state.focused_connection matches Some(d) && {
                &&& d.from_id == c.from_id
                &&& d.to_id == c.to_id
                &&& d.color == c.color
                &&& c.from_id != sel ==> d.from_side == c.from_side
                &&& c.from_id == sel ==> d.from_side != c.from_side
                &&& c.to_id != Some(sel) ==> d.to_side == c.to_side
                &&& (c.to_id == Some(sel) && c.to_side is Some) ==> (d.to_side matches Some(ds) && ds
                    != c.to_side->0)
            }
        }),
{
    let sel = s.notes_state.spec_selected()->0;
    let c = s.connections_state.focused_connection->0;
    let x = MapState {
        connections_state: ConnectionsState {
            focused_connection: Some(rotated(c, sel)),
            ..s.connections_state
        },
        persistence: PersistenceState { can_exit: false, ..s.persistence },
        ..s
    };
    assert(with_ui(t, s.ui_state) == x);
    assert(t.connections_state == x.connections_state);
}

/// What a key in the Visual modes does to the map: `s` before, `t` after.
pub open spec fn visual_key_outcome(s: MapState, t: MapState, key: KeyEvent) -> bool {
    let sel = s.notes_state.spec_selected()->0;
    let dirty = PersistenceState { can_exit: false, ..s.persistence };
    &&& t.ui_state == (UIState { needs_clear_and_redraw: true, ..s.ui_state })
    &&& if s.current_mode == Mode::VisualMove {
        match key.code {
            KeyCode::Char('m') => redrawn_from(s, t, MapState { current_mode: Mode::Visual, ..s }),
            KeyCode::Esc => left_to_normal(s, t),
            _ => match note_move_of(key) {
                Some((on_x, amount)) => note_moved(s, with_ui(t, s.ui_state), on_x, !on_x, amount),
                None => redrawn_from(s, t, s),
            },
        }
    } else if s.current_mode == Mode::VisualConnect {
        let cs = s.connections_state;
        match key.code {
            KeyCode::Char('c') => {
                &&& t.connections_state.spec_connections() == stashed(cs)
                &&& t.connections_state.focused_connection is None
                &&& t.connections_state.editing_connection_index is None
                &&& redrawn_from(
                    s,
                    t,
                    MapState { current_mode: Mode::Visual, connections_state: t.connections_state, ..s },
                )
            },
            KeyCode::Char('r') => redrawn_from(
                s,
                t,
                MapState {
                    connections_state: ConnectionsState {
                        focused_connection: match cs.focused_connection {
                            Some(c) => Some(rotated(c, sel)),
                            None => None,
                        },
                        ..cs
                    },
                    persistence: dirty,
                    ..s
                },
            ),
            KeyCode::Char('n') => {
                &&& redrawn_from(s, t, MapState { connections_state: t.connections_state, ..s })
                &&& (cs.editing_connection_index matches Some(idx) ==> {
                    let st = stashed(cs);
                    &&& t.connections_state.editing_connection_index matches Some(next) && {
                        &&& next < st.len()
                        &&& touches(st[next as int], sel)
                        &&& (t.connections_state.spec_connections() == st.remove(next as int))
                        &&& t.connections_state.focused_connection == Some(st[next as int])
                        &&& (idx < st.len() && touches(st[idx as int], sel) ==> next == idx)
                    }
                })
                &&& (cs.editing_connection_index is None ==> t.connections_state == cs)
            },
            KeyCode::Char('d') => if cs.editing_connection_index is Some {
                redrawn_from(
                    s,
                    t,
                    MapState {
                        current_mode: Mode::Visual,
                        connections_state: ConnectionsState {
                            focused_connection: None,
                            editing_connection_index: None,
                            ..cs
                        },
                        persistence: dirty,
                        ..s
                    },
                )
            } else {
                redrawn_from(s, t, s)
            },
            KeyCode::Char('e') => match cs.focused_connection {
                Some(c) => redrawn_from(
                    s,
                    t,
                    MapState {
                        connections_state: ConnectionsState {
                            focused_connection: Some(Connection { color: spec_cycle_color(c.color), ..c }),
                            ..cs
                        },
                        persistence: dirty,
                        ..s
                    },
                ),
                None => redrawn_from(s, t, s),
            },
            _ => match focus_dir_of(key.code) {
                Some(dir) => focus_switched(s, with_ui(t, s.ui_state), dir),
                None => redrawn_from(s, t, s),
            },
        }
    } else {
        match key.code {
            KeyCode::Esc => left_to_normal(s, t),
            KeyCode::Char('i') => redrawn_from(
                s,
                t,
                MapState { current_mode: edit_mode_for(s.settings.edit_modal), ..s },
            ),
            KeyCode::Char('m') => redrawn_from(s, t, MapState { current_mode: Mode::VisualMove, ..s }),
            KeyCode::Char('c') => {
                let l = s.connections_state.spec_index();
                if l.contains_key(sel) && l[sel].len() > 0 {
                    let idx = l[sel][0];
                    &&& t.connections_state.focused_connection == Some(
                        s.connections_state.spec_connections()[idx as int],
                    )
                    &&& t.connections_state.editing_connection_index == Some(idx)
                    &&& t.connections_state.spec_connections() == s.connections_state.spec_connections().remove(
                        idx as int,
                    )
                    &&& redrawn_from(
                        s,
                        t,
                        MapState {
                            current_mode: Mode::VisualConnect,
                            connections_state: t.connections_state,
                            ..s
                        },
                    )
                } else {
                    redrawn_from(s, t, s)
                }
            },
            KeyCode::Char('C') => redrawn_from(
                s,
                t,
                MapState {
                    current_mode: Mode::VisualConnect,
                    connections_state: ConnectionsState {
                        focused_connection: Some(
                            Connection {
                                from_id: sel,
                                from_side: s.settings.default_start_side,
                                to_id: None,
                                to_side: None,
                                color: Color::White,
                            },
                        ),
                        ..s.connections_state
                    },
                    persistence: dirty,
                    ..s
                },
            ),
            KeyCode::Char('d') => redrawn_from(s, t, MapState { current_mode: Mode::Delete, ..s }),
            KeyCode::Char('e') => {
                let n = s.notes_state.spec_notes()[sel];
                &&& t.notes_state.spec_notes() == s.notes_state.spec_notes().insert(
                    sel,
                    Node { data: NoteData { color: spec_cycle_color(n.data.color), ..n.data }, ..n },
                )
                &&& t.notes_state.spec_selected() == s.notes_state.spec_selected()
                &&& t.notes_state.spec_render_order() == s.notes_state.spec_render_order()
                &&& t.notes_state.spec_next_id() == s.notes_state.spec_next_id()
                &&& t.notes_state.spec_cursor() == s.notes_state.spec_cursor()
                &&& redrawn_from(s, t, MapState { notes_state: t.notes_state, persistence: dirty, ..s })
            },
            _ => match focus_dir_of(key.code) {
                Some(dir) => focus_switched(s, with_ui(t, s.ui_state), dir),
                None => redrawn_from(s, t, s),
            },
        }
    }
}

/// Handles keyboard input for the Visual modes (select, move, connect).
///
/// VisualMove: `m` back to Visual, Esc to Normal (the note is no longer
/// selected), h/j/k/l (H/J/K/L by 5)
/// and the arrows move the note. VisualConnect: `c` stores the connection,
/// `r` turns its sides at the selected note, `n` cycles to the note's next
/// connection, `d` deletes the connection being edited, h/j/k/l and the
/// arrows pick its target note, `e` cycles its color. Visual: Esc to
/// Normal (the note is no longer selected), `i` edits, `m` moves, `c` edits the note's first connection,
/// `C` starts a new one, `d` asks to delete, h/j/k/l and the arrows switch
/// notes, `e` cycles the note's color.
pub fn map_visual_kh(map_state: &mut MapState, key: KeyEvent) -> (r: AppAction)
    requires
        old(map_state).current_mode == Mode::Visual || old(map_state).current_mode == Mode::VisualMove
            || old(map_state).current_mode == Mode::VisualConnect,
        map_ready(*old(map_state)),
        map_bounds(*old(map_state)),
        old(map_state).current_mode == Mode::VisualConnect && key.code == KeyCode::Char('n')
            && old(map_state).connections_state.editing_connection_index is Some ==> can_cycle(
            old(map_state).connections_state,
            old(map_state).notes_state.spec_selected()->0,
        ),
    ensures
        r == AppAction::Continue,
        map_ready(*final(map_state)),
        final(map_state).ui_state.needs_clear_and_redraw,
        visual_key_outcome(*old(map_state), *final(map_state), key),
{
    proof {
        reveal_strlit("x");
        reveal_strlit("y");
        assert("x"@[0] != "y"@[0]);
        lemma_focus_key_directions();
    }
    if map_state.current_mode == Mode::VisualMove {
        match key.code {
            KeyCode::Char('m') => map_state.current_mode = Mode::Visual,
            KeyCode::Esc => {
                map_state.current_mode = Mode::Normal;
                map_state.notes_state.deselect();
            },
            // Vim-style movement: hjkl and arrow keys. Shift modifier increases step size to 5.
            KeyCode::Char('h') => move_note(map_state, "x", -1),
            KeyCode::Left if key.modifiers == KeyModifiers::Plain => move_note(map_state, "x", -1),
            KeyCode::Char('H') => move_note(map_state, "x", -5),
            KeyCode::Left if key.modifiers == KeyModifiers::Shift => move_note(map_state, "x", -5),
            KeyCode::Char('j') => move_note(map_state, "y", 1),
            KeyCode::Down if key.modifiers == KeyModifiers::Plain => move_note(map_state, "y", 1),
            KeyCode::Char('J') => move_note(map_state, "y", 5),
            KeyCode::Down if key.modifiers == KeyModifiers::Shift => move_note(map_state, "y", 5),
            KeyCode::Char('k') => move_note(map_state, "y", -1),
            KeyCode::Up if key.modifiers == KeyModifiers::Plain => move_note(map_state, "y", -1),
            KeyCode::Char('K') => move_note(map_state, "y", -5),
            KeyCode::Up if key.modifiers == KeyModifiers::Shift => move_note(map_state, "y", -5),
            KeyCode::Char('l') => move_note(map_state, "x", 1),
            KeyCode::Right if key.modifiers == KeyModifiers::Plain => move_note(map_state, "x", 1),
            KeyCode::Char('L') => move_note(map_state, "x", 5),
            KeyCode::Right if key.modifiers == KeyModifiers::Shift => move_note(map_state, "x", 5),
            _ => {},
        }
        // Early return to prevent falling through to other mode handlers
        map_state.clear_and_redraw();
        return AppAction::Continue;
    }
    if map_state.current_mode == Mode::VisualConnect {
        match key.code {
            KeyCode::Char('c') => {
                map_state.connections_state.stash_connection();
                map_state.current_mode = Mode::Visual;
                map_state.connections_state.editing_connection_index = None;
            },
            KeyCode::Char('r') => {
                let selected_note_id = map_state.notes_state.expect_selected_note_id();
                map_state.persistence.mark_dirty();
                if let Some(focused_connection) = map_state.connections_state.focused_connection {
                    let mut c = focused_connection;
                    if c.from_id == selected_note_id {
                        c.from_side = cycle_side(c.from_side);
                    }
                    if let Some(to_id) = c.to_id {
                        if to_id == selected_note_id {
                            // to_side always exists when to_id exists
                            let side = match c.to_side {
                                Some(s) => s,
                                None => c.from_side,
                            };
                            c.to_side = Some(cycle_side(side));
                        }
                    }
                    map_state.connections_state.focused_connection = Some(c);
                }
            },
            // Cycle through all connections associated with the selected note.
            KeyCode::Char('n') => {
                let selected_note_id = map_state.notes_state.expect_selected_note_id();
                // Can only cycle when editing existing connections, not creating new ones
                if let Some(editing_idx) = map_state.connections_state.editing_connection_index {
                    let ghost st = stashed(map_state.connections_state);
                    // The take out, then stash operation effectively cycles the list by moving
                    // the current connection to the back
                    map_state.connections_state.stash_connection();
                    let indices = map_state.connections_state.get_indices_for_note(selected_note_id);
                    proof {
                        let i = choose|i: int| 0 <= i < st.len() && touches(st[i], selected_note_id);
                        assert(indices@.contains(i as usize));
                    }
                    let mut pos: usize = 0;
                    let mut k: usize = 0;
                    let mut found = false;
                    while k < indices.len() && !found
                        invariant
                            k <= indices@.len(),
                            pos < indices@.len(),
                            found ==> indices@[pos as int] == editing_idx,
                            !found ==> pos == 0 && forall|j: int| 0 <= j < k ==> indices@[j] != editing_idx,
                        decreases indices@.len() - k + if found { 0int } else { 1int },
                    {
                        if indices[k] == editing_idx {
                            pos = k;
                            found = true;
                        } else {
                            k = k + 1;
                        }
                    }
                    let next_index = indices[pos];
                    proof {
                        assert(indices@.contains(next_index));
                    }
                    map_state.connections_state.take_out_connection(next_index);
                    map_state.connections_state.editing_connection_index = Some(next_index);
                }
            },
            KeyCode::Char('d') => {
                // Can only delete when editing existing connections, not creating new ones
                if map_state.connections_state.editing_connection_index.is_some() {
                    map_state.persistence.mark_dirty();
                    map_state.connections_state.focused_connection = None;
                    map_state.current_mode = Mode::Visual;
                    map_state.connections_state.editing_connection_index = None;
                }
            },
            // Reuse note focus switching to select target endpoint for connection
            KeyCode::Char('j') => switch_notes_focus(map_state, "j"),
            KeyCode::Down => switch_notes_focus(map_state, "Down"),
            KeyCode::Char('k') => switch_notes_focus(map_state, "k"),
            KeyCode::Up => switch_notes_focus(map_state, "Up"),
            KeyCode::Char('h') => switch_notes_focus(map_state, "h"),
            KeyCode::Left => switch_notes_focus(map_state, "Left"),
            KeyCode::Char('l') => switch_notes_focus(map_state, "l"),
            KeyCode::Right => switch_notes_focus(map_state, "Right"),
            KeyCode::Char('e') => {
                if let Some(focused_connection) = map_state.connections_state.focused_connection {
                    let mut c = focused_connection;
                    c.color = cycle_color(c.color);
                    map_state.connections_state.focused_connection = Some(c);
                    map_state.persistence.mark_dirty();
                }
            },
            _ => {},
        }
        // Early return to prevent falling through to other mode handlers
        map_state.clear_and_redraw();
        return AppAction::Continue;
    }
    match key.code {
        KeyCode::Esc => {
            map_state.current_mode = Mode::Normal;
            map_state.notes_state.deselect();
        },
        KeyCode::Char('i') => map_state.switch_to_edit_mode(),
        KeyCode::Char('m') => map_state.current_mode = Mode::VisualMove,
        // Enter connection edit mode. Finds and focuses the first connection associated with this note.
        KeyCode::Char('c') => {
            let selected_note_id = map_state.notes_state.expect_selected_note_id();
            let indices = map_state.connections_state.get_indices_for_note(selected_note_id);
            if indices.len() > 0 {
                let index = indices[0];
                map_state.connections_state.take_out_connection(index);
                map_state.connections_state.editing_connection_index = Some(index);
                map_state.current_mode = Mode::VisualConnect;
            }
        },
        KeyCode::Char('C') => {
            let selected_note_id = map_state.notes_state.expect_selected_note_id();
            map_state.connections_state.focused_connection = Some(
                Connection {
                    from_id: selected_note_id,
                    from_side: map_state.settings.default_start_side,
                    to_id: None,
                    to_side: None,
                    color: Color::White,
                },
            );
            map_state.current_mode = Mode::VisualConnect;
            map_state.persistence.mark_dirty();
        },
        KeyCode::Char('d') => map_state.current_mode = Mode::Delete,
        KeyCode::Char('j') => switch_notes_focus(map_state, "j"),
        KeyCode::Down => switch_notes_focus(map_state, "Down"),
        KeyCode::Char('k') => switch_notes_focus(map_state, "k"),
        KeyCode::Up => switch_notes_focus(map_state, "Up"),
        KeyCode::Char('h') => switch_notes_focus(map_state, "h"),
        KeyCode::Left => switch_notes_focus(map_state, "Left"),
        KeyCode::Char('l') => switch_notes_focus(map_state, "l"),
        KeyCode::Right => switch_notes_focus(map_state, "Right"),
        KeyCode::Char('e') => {
            let color = map_state.notes_state.expect_selected_note().data.color;
            map_state.notes_state.set_selected_color(cycle_color(color));
            map_state.persistence.mark_dirty();
        },
        _ => {},
    }
    // Always redraw to reflect selection and visual changes
    map_state.clear_and_redraw();
    AppAction::Continue
}

} // verus!
