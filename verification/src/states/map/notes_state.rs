use std::collections::HashMap;
use vstd::prelude::*;
use vstd::std_specs::iter::IteratorSpec;

use crate::color::Color;
use crate::graph::Node;
use super::note::{Note, NoteData};

verus! {

broadcast use vstd::std_specs::hash::group_hash_axioms;

/// `i` is the position of the first occurrence of `x` in `s`.
pub open spec fn is_first_index(s: Seq<usize>, x: usize, i: int) -> bool {
    &&& 0 <= i < s.len()
    &&& s[i] == x
    &&& forall|j: int| 0 <= j < i ==> s[j] != x
}

/// `s` without the first occurrence of `x` (unchanged if `x` does not occur).
pub open spec fn without_first(s: Seq<usize>, x: usize) -> Seq<usize> {
    if s.contains(x) {
        s.remove(choose|i: int| is_first_index(s, x, i))
    } else {
        s
    }
}

/// `s` with the first occurrence of `x` moved to the end (unchanged if `x` does not occur).
pub open spec fn moved_to_back(s: Seq<usize>, x: usize) -> Seq<usize> {
    if s.contains(x) {
        without_first(s, x).push(x)
    } else {
        s
    }
}

/// The Manhattan distance from a note's top-left corner to (x, y).
pub open spec fn manhattan(note: Note, x: usize, y: usize) -> int {
    let dx = if note.x >= x { note.x - x } else { x - note.x };
    let dy = if note.y >= y { note.y - y } else { y - note.y };
    dx + dy
}

/// `r` is a note nearest to (x, y) by `manhattan`, `None` only without notes.
pub open spec fn closest_choice(notes: Map<usize, Note>, x: usize, y: usize, r: Option<usize>) -> bool {
    &&& r is None <==> notes.dom().is_empty()
    &&& r matches Some(id) ==> {
        &&& notes.contains_key(id)
        &&& forall|other: usize| #[trigger]
            notes.contains_key(other) ==> manhattan(notes[id], x, y) <= manhattan(notes[other], x, y)
    }
}

/// The distance between two coordinates along one axis.
pub open spec fn axis_gap(a: int, b: int) -> int {
    if a >= b {
        a - b
    } else {
        b - a
    }
}

/// Law: the note found nearest to (x, y) is nearest by the sum of the
/// horizontal and the vertical distance of its top-left corner: no other
/// note is closer by that sum, whichever axis the distance lies along.
pub proof fn lemma_closest_note_minimizes_sum(notes: Map<usize, Note>, x: usize, y: usize, r: Option<usize>)
    requires
        closest_choice(notes, x, y, r),
    ensures
        r is None <==> notes.dom().is_empty(),
        r matches Some(id) ==> {
            &&& notes.contains_key(id)
            &&& forall|k: usize| #[trigger]
                notes.contains_key(k) ==> axis_gap(notes[id].x as int, x as int) + axis_gap(
                    notes[id].y as int,
                    y as int,
                ) <= axis_gap(notes[k].x as int, x as int) + axis_gap(notes[k].y as int, y as int)
        },
{
}

/// Whether the notes of a map file can be used as they are: the drawing
/// order lists every note exactly once and nothing else, and every note ID
/// is below the next one that will be handed out.
pub open spec fn notes_consistent(notes: Map<usize, Note>, next_id: usize, order: Seq<usize>) -> bool {
    &&& order.no_duplicates()
    &&& forall|i: int| 0 <= i < order.len() ==> notes.contains_key(#[trigger] order[i])
    &&& forall|id: usize| #[trigger] notes.contains_key(id) ==> order.contains(id)
    &&& forall|id: usize| #[trigger] notes.contains_key(id) ==> id < next_id
}

/// A note whose selection flag is set as given, all else kept.
pub open spec fn with_selected(note: Note, selected: bool) -> Note {
    Node { data: NoteData { selected, ..note.data }, ..note }
}

pub(crate) proof fn lemma_first_index_unique(s: Seq<usize>, x: usize, i: int)
    requires
        is_first_index(s, x, i),
    ensures
        s.contains(x),
        (choose|k: int| is_first_index(s, x, k)) == i,
{
    assert(s[i] == x);
    let k = choose|k: int| is_first_index(s, x, k);
    assert(is_first_index(s, x, k));
    if k < i {
        assert(s[k] != x);
    } else if k > i {
        assert(s[i] != x);
    }
}

/// Taking an ID out of an order that lists each key of `notes` once leaves
/// an order that lists each key of `notes.remove(id)` once.
proof fn lemma_without_first_wf(ro: Seq<usize>, notes: Map<usize, Note>, id: usize)
    requires
        ro.no_duplicates(),
        forall|i: int| 0 <= i < ro.len() ==> notes.contains_key(#[trigger] ro[i]),
        forall|k: usize| #[trigger] notes.contains_key(k) ==> ro.contains(k),
    ensures
        without_first(ro, id).no_duplicates(),
        forall|i: int|
            0 <= i < without_first(ro, id).len() ==> notes.remove(id).contains_key(
                #[trigger] without_first(ro, id)[i],
            ),
        forall|k: usize| #[trigger] notes.remove(id).contains_key(k) ==> without_first(ro, id).contains(k),
{
    let r = without_first(ro, id);
    if ro.contains(id) {
        let w = choose|w: int| 0 <= w < ro.len() && ro[w] == id;
        lemma_exists_first_index(ro, id, w);
        let p = choose|i: int| is_first_index(ro, id, i);
        assert(is_first_index(ro, id, p));
        assert(r == ro.remove(p));
        assert forall|i: int| 0 <= i < r.len() implies notes.remove(id).contains_key(#[trigger] r[i]) by {
            if i < p {
                assert(r[i] == ro[i]);
                assert(ro[i] != ro[p]);
            } else {
                assert(r[i] == ro[i + 1]);
                assert(ro[i + 1] != ro[p]);
            }
        }
        assert forall|k: usize| #[trigger] notes.remove(id).contains_key(k) implies r.contains(k) by {
            let j = choose|j: int| 0 <= j < ro.len() && ro[j] == k;
            if j < p {
                assert(r[j] == k);
            } else {
                assert(j != p);
                assert(r[j - 1] == k);
            }
        }
    } else {
        assert forall|k: usize| #[trigger] notes.remove(id).contains_key(k) implies r.contains(k) by {
            assert(notes.contains_key(k));
        }
    }
}

/// Where `x` occurs in `s`, it has a first occurrence.
pub(crate) proof fn lemma_exists_first_index(s: Seq<usize>, x: usize, w: int)
    requires
        0 <= w < s.len(),
        s[w] == x,
    ensures
        exists|i: int| is_first_index(s, x, i),
    decreases w,
{
    if exists|j: int| 0 <= j < w && s[j] == x {
        let j = choose|j: int| 0 <= j < w && s[j] == x;
        lemma_exists_first_index(s, x, j);
    } else {
        assert(is_first_index(s, x, w));
    }
}

/// The position of the first occurrence of `x` in `v`.
pub(crate) fn position_of(v: &Vec<usize>, x: usize) -> (r: Option<usize>)
    ensures
        match r {
            Some(i) => is_first_index(v@, x, i as int),
            None => !v@.contains(x),
        },
{
    let mut i: usize = 0;
    while i < v.len()
        invariant
            i <= v@.len(),
            forall|j: int| 0 <= j < i ==> v@[j] != x,
        decreases v@.len() - i,
    {
        if v[i] == x {
            return Some(i);
        }
        i = i + 1;
    }
    None
}

/// The notes of a map, their rendering order, the selection and the text cursor.
#[derive(PartialEq, Debug)]
pub struct NotesState {
    notes: HashMap<usize, Note>,
    /// Used to generate unique IDs for new notes
    next_note_id_counter: usize,
    selected_note_id: Option<usize>,
    /// Z-index ordering for note rendering (back to front)
    render_order: Vec<usize>,
    /// The cursor position in the selected note's text, as a character index.
    cursor_pos: usize,
}

impl NotesState {
    /// The notes by ID.
    pub closed spec fn spec_notes(&self) -> Map<usize, Note> {
        self.notes@
    }

    /// The ID the next added note gets.
    pub closed spec fn spec_next_id(&self) -> usize {
        self.next_note_id_counter
    }

    pub closed spec fn spec_selected(&self) -> Option<usize> {
        self.selected_note_id
    }

    /// The note IDs from back to front.
    pub closed spec fn spec_render_order(&self) -> Seq<usize> {
        self.render_order@
    }

    pub closed spec fn spec_cursor(&self) -> usize {
        self.cursor_pos
    }

    /// The invariant of the notes: the render order holds each note's ID
    /// exactly once and nothing else, and every ID is below the counter, so
    /// that the next added note gets a fresh ID.
    pub open spec fn wf(&self) -> bool {
        &&& self.spec_render_order().no_duplicates()
        &&& forall|i: int|
            0 <= i < self.spec_render_order().len() ==> self.spec_notes().contains_key(
                #[trigger] self.spec_render_order()[i],
            )
        &&& forall|id: usize| #[trigger]
            self.spec_notes().contains_key(id) ==> self.spec_render_order().contains(id)
        &&& forall|id: usize| #[trigger] self.spec_notes().contains_key(id) ==> id < self.spec_next_id()
    }

    /// The selection refers to an existing note.
    pub open spec fn has_selected_note(&self) -> bool {
        &&& self.spec_selected() is Some
        &&& self.spec_notes().contains_key(self.spec_selected()->0)
    }

    /// The selected note.
    pub open spec fn selected_note(&self) -> Note {
        self.spec_notes()[self.spec_selected()->0]
    }

    pub fn new() -> (r: Self)
        ensures
            r.spec_notes() == Map::<usize, Note>::empty(),
            r.spec_next_id() == 0,
            r.spec_selected() is None,
            r.spec_render_order() == Seq::<usize>::empty(),
            r.spec_cursor() == 0,
            r.wf(),
    {
        Self {
            notes: HashMap::new(),
            next_note_id_counter: 0,
            selected_note_id: None,
            render_order: Vec::new(),
            cursor_pos: 0,
        }
    }

    /// Used when loading a map file from disk.
    pub fn from_map_data(
        notes: HashMap<usize, Note>,
        next_note_id_counter: usize,
        render_order: Vec<usize>,
    ) -> (r: Self)
        ensures
            r.spec_notes() == notes@,
            r.spec_next_id() == next_note_id_counter,
            r.spec_selected() is None,
            r.spec_render_order() == render_order@,
            r.spec_cursor() == 0,
    {
        Self { notes, next_note_id_counter, selected_note_id: None, render_order, cursor_pos: 0 }
    }

    /// The notes of a map file, when they are consistent (see
    /// `notes_consistent`): then the notes state holds them as given, with
    /// nothing selected; otherwise `None`.
    pub fn checked_from_map_data(
        notes: HashMap<usize, Note>,
        next_note_id_counter: usize,
        render_order: Vec<usize>,
    ) -> (r: Option<Self>)
        ensures
            r is Some <==> notes_consistent(notes@, next_note_id_counter, render_order@),
            r matches Some(s) ==> {
                &&& s.wf()
                &&& s.spec_notes() == notes@
                &&& s.spec_next_id() == next_note_id_counter
                &&& s.spec_selected() is None
                &&& s.spec_render_order() == render_order@
                &&& s.spec_cursor() == 0
            },
    {
        let ghost order = render_order@;
        let ghost m = notes@;
        let mut i: usize = 0;
        while i < render_order.len()
            invariant
                order == render_order@,
                m == notes@,
                i <= order.len(),
                forall|a: int, b: int| 0 <= a < b < i ==> order[a] != order[b],
                forall|a: int| 0 <= a < i ==> m.contains_key(#[trigger] order[a]),
                forall|a: int| 0 <= a < i ==> #[trigger] order[a] < next_note_id_counter,
            decreases order.len() - i,
        {
            let id = render_order[i];
            if !notes.contains_key(&id) || id >= next_note_id_counter {
                return None;
            }
            let mut j: usize = 0;
            while j < i
                invariant
                    order == render_order@,
                    i < order.len(),
                    j <= i,
                    id == order[i as int],
                    forall|a: int| 0 <= a < j ==> order[a] != id,
                decreases i - j,
            {
                if render_order[j] == id {
                    proof {
                        assert(!order.no_duplicates());
                    }
                    return None;
                }
                j = j + 1;
            }
            i = i + 1;
        }
        proof {
            assert(order.no_duplicates());
            order.unique_seq_to_set();
            assert(order.to_set().subset_of(m.dom()));
            vstd::set_lib::lemma_len_subset(order.to_set(), m.dom());
        }
        if notes.len() != render_order.len() {
            proof {
                if notes_consistent(m, next_note_id_counter, order) {
                    assert(m.dom().subset_of(order.to_set()));
                    vstd::set_lib::lemma_len_subset(m.dom(), order.to_set());
                }
            }
            return None;
        }
        proof {
            vstd::set_lib::lemma_subset_equality(order.to_set(), m.dom());
            assert forall|id: usize| #[trigger] m.contains_key(id) implies order.contains(id) by {
                assert(order.to_set().contains(id));
            }
        }
        Some(Self::from_map_data(notes, next_note_id_counter, render_order))
    }

    pub fn notes(&self) -> (r: &HashMap<usize, Note>)
        ensures
            r@ == self.spec_notes(),
    {
        &self.notes
    }

    pub fn next_note_id_counter(&self) -> (r: usize)
        ensures
            r == self.spec_next_id(),
    {
        self.next_note_id_counter
    }

    pub fn render_order(&self) -> (r: &Vec<usize>)
        ensures
            r@ == self.spec_render_order(),
    {
        &self.render_order
    }

    pub fn selected_note_id(&self) -> (r: Option<usize>)
        ensures
            r == self.spec_selected(),
    {
        self.selected_note_id
    }

    pub fn cursor_pos(&self) -> (r: usize)
        ensures
            r == self.spec_cursor(),
    {
        self.cursor_pos
    }

    /// Whether a note is selected and exists.
    pub fn has_selected(&self) -> (r: bool)
        ensures
            r == self.has_selected_note(),
    {
        match self.selected_note_id {
            Some(id) => self.notes.contains_key(&id),
            None => false,
        }
    }

    /// The selected note's ID; a note must be selected.
    pub fn expect_selected_note_id(&self) -> (r: usize)
        requires
            self.spec_selected() is Some,
        ensures
            r == self.spec_selected()->0,
    {
        match self.selected_note_id {
            Some(id) => id,
            None => 0,
        }
    }

    /// The selected note; a note must be selected and exist.
    pub fn expect_selected_note(&self) -> (r: &Note)
        requires
            self.has_selected_note(),
        ensures
            *r == self.selected_note(),
    {
        let id = self.expect_selected_note_id();
        self.notes.get(&id).unwrap()
    }

    /// Creates a new note with the next free ID and selects it.
    pub fn add(&mut self, x: usize, y: usize, text: String, selected: bool, color: Color)
        requires
            old(self).spec_next_id() < usize::MAX,
        ensures
            final(self).spec_notes() == old(self).spec_notes().insert(
                old(self).spec_next_id(),
                Node { x, y, data: NoteData { content: text, color, selected } },
            ),
            final(self).spec_render_order() == old(self).spec_render_order().push(
                old(self).spec_next_id(),
            ),
            final(self).spec_next_id() == old(self).spec_next_id() + 1,
            final(self).spec_selected() == Some(old(self).spec_next_id()),
            final(self).spec_cursor() == old(self).spec_cursor(),
            old(self).wf() ==> final(self).wf(),
            old(self).wf() ==> !old(self).spec_notes().contains_key(old(self).spec_next_id()),
    {
        let id = self.next_note_id_counter;
        self.notes.insert(id, Node { x, y, data: NoteData { content: text, color, selected } });
        self.render_order.push(id);
        self.next_note_id_counter = self.next_note_id_counter + 1;
        self.selected_note_id = Some(id);
        proof {
            if old(self).wf() {
                let ro = self.render_order@;
                assert forall|i: int, j: int|
                    0 <= i < ro.len() && 0 <= j < ro.len() && i != j implies ro[i] != ro[j] by {
                    if j == ro.len() - 1 {
                        assert(old(self).spec_notes().contains_key(ro[i]));
                    } else if i == ro.len() - 1 {
                        assert(old(self).spec_notes().contains_key(ro[j]));
                    }
                }
                assert forall|k: usize| #[trigger] self.notes@.contains_key(k) implies ro.contains(k) by {
                    if k == id {
                        assert(ro[ro.len() - 1] == id);
                    } else {
                        assert(old(self).spec_notes().contains_key(k));
                        assert(old(self).spec_render_order().contains(k));
                        let w = choose|w: int| 0 <= w < old(self).render_order@.len() && old(self).render_order@[w] == k;
                        assert(ro[w] == k);
                    }
                }
            }
        }
    }

    /// Removes a note by ID, takes it out of the render order and clears the selection.
    pub fn remove(&mut self, id: usize)
        ensures
            final(self).spec_notes() == old(self).spec_notes().remove(id),
            final(self).spec_render_order() == without_first(old(self).spec_render_order(), id),
            final(self).spec_next_id() == old(self).spec_next_id(),
            final(self).spec_selected() is None,
            final(self).spec_cursor() == old(self).spec_cursor(),
            old(self).wf() ==> final(self).wf(),
    {
        self.notes.remove(&id);
        if let Some(pos) = position_of(&self.render_order, id) {
            proof {
                lemma_first_index_unique(self.render_order@, id, pos as int);
            }
            self.render_order.remove(pos);
        }
        self.selected_note_id = None;
        proof {
            if old(self).wf() {
                assert forall|k: usize| #[trigger] old(self).notes@.contains_key(k) implies old(self).render_order@.contains(k) by {
                    assert(old(self).spec_notes().contains_key(k));
                }
                lemma_without_first_wf(old(self).render_order@, old(self).notes@, id);
            }
        }
    }

    /// Selects a note: records the selection, brings the note to the front of
    /// the render order and sets its selection flag (where it exists).
    pub fn select(&mut self, id: usize)
        ensures
            final(self).spec_selected() == Some(id),
            final(self).spec_render_order() == moved_to_back(old(self).spec_render_order(), id),
            final(self).spec_notes() == (if old(self).spec_notes().contains_key(id) {
                old(self).spec_notes().insert(id, with_selected(old(self).spec_notes()[id], true))
            } else {
                old(self).spec_notes()
            }),
            final(self).spec_next_id() == old(self).spec_next_id(),
            final(self).spec_cursor() == old(self).spec_cursor(),
            old(self).wf() ==> final(self).wf(),
    {
        proof {
            if old(self).wf() {
                assert forall|k: usize| #[trigger] old(self).notes@.contains_key(k) implies old(self).render_order@.contains(k) by {
                    assert(old(self).spec_notes().contains_key(k));
                }
                lemma_without_first_wf(old(self).render_order@, old(self).notes@, id);
            }
        }
        self.selected_note_id = Some(id);
        if let Some(pos) = position_of(&self.render_order, id) {
            proof {
                lemma_first_index_unique(self.render_order@, id, pos as int);
            }
            let item = self.render_order.remove(pos);
            self.render_order.push(item);
        }
        if let Some(mut note) = self.notes.remove(&id) {
            note.data.selected = true;
            self.notes.insert(id, note);
        }
        proof {
            if old(self).wf() {
                let ro = self.render_order@;
                let w = without_first(old(self).render_order@, id);
                if old(self).render_order@.contains(id) {
                    assert(ro == w.push(id));
                    assert forall|i: int| 0 <= i < w.len() implies w[i] != id by {
                        assert(old(self).notes@.remove(id).contains_key(w[i]));
                    }
                    assert forall|k: usize| #[trigger] self.notes@.contains_key(k) implies ro.contains(k) by {
                        if k == id {
                            assert(ro[ro.len() - 1] == id);
                        } else {
                            assert(old(self).notes@.remove(id).contains_key(k));
                            let j = choose|j: int| 0 <= j < w.len() && w[j] == k;
                            assert(ro[j] == k);
                        }
                    }
                } else {
                    assert(!old(self).spec_notes().contains_key(id));
                }
            }
        }
    }

    /// Clears the selection and the note's selection flag; a note must be selected and exist.
    pub fn deselect(&mut self)
        requires
            old(self).has_selected_note(),
        ensures
            final(self).spec_selected() is None,
            final(self).spec_notes() == old(self).spec_notes().insert(
                old(self).spec_selected()->0,
                with_selected(old(self).selected_note(), false),
            ),
            final(self).spec_render_order() == old(self).spec_render_order(),
            final(self).spec_next_id() == old(self).spec_next_id(),
            final(self).spec_cursor() == old(self).spec_cursor(),
            old(self).wf() ==> final(self).wf(),
    {
        let id = self.expect_selected_note_id();
        self.selected_note_id = None;
        let mut note = self.notes.remove(&id).unwrap();
        note.data.selected = false;
        self.notes.insert(id, note);
    }

    /// Finds the note closest to (x, y) by Manhattan distance to its
    /// top-left corner; `None` when there are no notes. Among equally close
    /// notes, which one comes back depends on the map's iteration order.
    pub fn find_closest_note(&self, x: usize, y: usize) -> (r: Option<usize>)
        ensures
            closest_choice(self.spec_notes(), x, y, r),
    {
        let mut best: Option<(usize, u128)> = None;
        for (id, note) in it: self.notes.iter()
            invariant
                best is None <==> it.index() == 0,
                best matches Some(b) ==> {
                    &&& self.notes@.contains_key(b.0)
                    &&& b.1 as int == manhattan(self.notes@[b.0], x, y)
                    &&& forall|j: int|
                        0 <= j < it.index() ==> b.1 <= manhattan(*(#[trigger] it.seq()[j]).1, x, y)
                },
                it.seq() == vstd::std_specs::hash::spec_hash_map_iter(&self.notes).remaining(),
        {
            let dx: usize = if note.x >= x { note.x - x } else { x - note.x };
            let dy: usize = if note.y >= y { note.y - y } else { y - note.y };
            let d: u128 = dx as u128 + dy as u128;
            match best {
                Some(b) => {
                    if d < b.1 {
                        best = Some((*id, d));
                    }
                },
                None => {
                    best = Some((*id, d));
                },
            }
        }
        match best {
            Some(b) => Some(b.0),
            None => None,
        }
    }

    /// Replaces the text of the selected note; a note must be selected and exist.
    pub fn set_selected_content(&mut self, content: String)
        requires
            old(self).has_selected_note(),
        ensures
            final(self).spec_notes() == old(self).spec_notes().insert(
                old(self).spec_selected()->0,
                Node {
                    data: NoteData { content, ..old(self).selected_note().data },
                    ..old(self).selected_note()
                },
            ),
            final(self).spec_selected() == old(self).spec_selected(),
            final(self).spec_render_order() == old(self).spec_render_order(),
            final(self).spec_next_id() == old(self).spec_next_id(),
            final(self).spec_cursor() == old(self).spec_cursor(),
            old(self).wf() ==> final(self).wf(),
    {
        let id = self.expect_selected_note_id();
        let mut note = self.notes.remove(&id).unwrap();
        note.data.content = content;
        self.notes.insert(id, note);
    }

    /// Moves the selected note to (x, y); a note must be selected and exist.
    pub fn set_selected_position(&mut self, x: usize, y: usize)
        requires
            old(self).has_selected_note(),
        ensures
            final(self).spec_notes() == old(self).spec_notes().insert(
                old(self).spec_selected()->0,
                Node { x, y, ..old(self).selected_note() },
            ),
            final(self).spec_selected() == old(self).spec_selected(),
            final(self).spec_render_order() == old(self).spec_render_order(),
            final(self).spec_next_id() == old(self).spec_next_id(),
            final(self).spec_cursor() == old(self).spec_cursor(),
            old(self).wf() ==> final(self).wf(),
    {
        let id = self.expect_selected_note_id();
        let mut note = self.notes.remove(&id).unwrap();
        note.x = x;
        note.y = y;
        self.notes.insert(id, note);
    }

    /// Sets the color of the selected note; a note must be selected and exist.
    pub fn set_selected_color(&mut self, color: Color)
        requires
            old(self).has_selected_note(),
        ensures
            final(self).spec_notes() == old(self).spec_notes().insert(
                old(self).spec_selected()->0,
                Node { data: NoteData { color, ..old(self).selected_note().data }, ..old(self).selected_note() },
            ),
            final(self).spec_selected() == old(self).spec_selected(),
            final(self).spec_render_order() == old(self).spec_render_order(),
            final(self).spec_next_id() == old(self).spec_next_id(),
            final(self).spec_cursor() == old(self).spec_cursor(),
            old(self).wf() ==> final(self).wf(),
    {
        let id = self.expect_selected_note_id();
        let mut note = self.notes.remove(&id).unwrap();
        note.data.color = color;
        self.notes.insert(id, note);
    }

    /// Sets the text cursor, clamped to the length of the selected note's
    /// text; a note must be selected and exist.
    ///
    /// The cursor counts characters, not bytes: in "世界" the end of the
    /// text is 2. Positions are character indexes throughout the library, so
    /// that every position is a character boundary by construction.
    pub fn set_cursor_pos(&mut self, pos: usize)
        requires
            old(self).has_selected_note(),
        ensures
            final(self).spec_cursor() == (if pos <= old(self).selected_note().data.content@.len() {
                pos as int
            } else {
                old(self).selected_note().data.content@.len() as int
            }),
            final(self).spec_notes() == old(self).spec_notes(),
            final(self).spec_render_order() == old(self).spec_render_order(),
            final(self).spec_next_id() == old(self).spec_next_id(),
            final(self).spec_selected() == old(self).spec_selected(),
            final(self).spec_cursor() <= old(self).selected_note().data.content@.len(),
            old(self).wf() ==> final(self).wf(),
    {
        let len = self.expect_selected_note().data.content.unicode_len();
        self.cursor_pos = if pos <= len { pos } else { len };
    }
}

} // verus!
