//! Modal (vim-style) editing of the selected note. Moves that go by
//! "characters" go by grapheme clusters, as `unicode-segmentation` splits
//! the text; the cursor stays a character index.

use vstd::prelude::*;
use vstd::string::*;

use crate::input::map::text_editing::{
    cursor_in_text, cursor_moved_to, min, rest_kept_dirty, sel_text, text_edited,
};
use crate::states::map::{MapState, Mode, NotesState};
use crate::text::{concat_all, grapheme_clusters, graphemes, str_eq};

verus! {

/// The number of characters in the first `i` clusters: where cluster `i` starts.
pub open spec fn cluster_start(gs: Seq<Seq<char>>, i: int) -> int {
    concat_all(gs.take(i)).len() as int
}

/// Where the last grapheme cluster of `t` starts (0 for an empty text).
pub open spec fn last_cluster_start(t: Seq<char>) -> int {
    let gs = grapheme_clusters(t);
    if gs.len() == 0 {
        0
    } else {
        cluster_start(gs, gs.len() - 1)
    }
}

/// The position after the cluster at `p`: the start of the second cluster
/// of the text from `p` on, if it has two, else `otherwise`.
pub open spec fn next_cluster_pos(t: Seq<char>, p: int, otherwise: int) -> int {
    let gs = grapheme_clusters(t.subrange(p, t.len() as int));
    if gs.len() >= 2 {
        p + gs[0].len()
    } else {
        otherwise
    }
}

/// A space or a newline.
pub open spec fn is_delim(c: char) -> bool {
    c == ' ' || c == '\n'
}

/// A cluster that is a space or a newline.
pub open spec fn is_ws_cluster(g: Seq<char>) -> bool {
    g == " "@ || g == "\n"@
}

/// The position of the last delimiter before `p`, or -1.
pub open spec fn last_delim_before(t: Seq<char>, p: int) -> int
    decreases p,
{
    if p <= 0 {
        -1
    } else if is_delim(t[p - 1]) {
        p - 1
    } else {
        last_delim_before(t, p - 1)
    }
}

/// `p` moved back over the delimiters right before it.
pub open spec fn trim_delims_before(t: Seq<char>, p: int) -> int
    decreases p,
{
    if p <= 0 {
        0
    } else if is_delim(t[p - 1]) {
        trim_delims_before(t, p - 1)
    } else {
        p
    }
}

/// The start of the word the cursor at `p` is in: after the last delimiter before it.
pub open spec fn current_word_start(t: Seq<char>, p: int) -> int {
    last_delim_before(t, p) + 1
}

/// The start of the word before the delimiters that precede `p`.
pub open spec fn previous_word_start(t: Seq<char>, p: int) -> int {
    let word_end = trim_delims_before(t, p);
    if word_end == 0 {
        0
    } else {
        last_delim_before(t, word_end) + 1
    }
}

/// The cursor after the `b` motion from `p`.
pub open spec fn cursor_after_back_word(t: Seq<char>, p: int) -> int {
    if t.len() == 0 || p == 0 {
        p
    } else if is_delim(t[p - 1]) {
        previous_word_start(t, p)
    } else {
        current_word_start(t, p)
    }
}

/// The index of the first whitespace cluster at or after `k`, or `gs.len()`.
pub open spec fn first_ws_from(gs: Seq<Seq<char>>, k: int) -> int
    decreases gs.len() - k,
{
    if k < 0 || k >= gs.len() {
        gs.len() as int
    } else if is_ws_cluster(gs[k]) {
        k
    } else {
        first_ws_from(gs, k + 1)
    }
}

/// The index of the first cluster that is not whitespace, or `gs.len()`.
pub open spec fn first_non_ws(gs: Seq<Seq<char>>, k: int) -> int
    decreases gs.len() - k,
{
    if k < 0 || k >= gs.len() {
        gs.len() as int
    } else if !is_ws_cluster(gs[k]) {
        k
    } else {
        first_non_ws(gs, k + 1)
    }
}

/// Where the whitespace that the `w` motion skips begins, among the clusters
/// `gs` from the cursor on: at the cursor when it stands on whitespace, else
/// after the rest of the current word (at least one cluster).
pub open spec fn forward_ws_start(gs: Seq<Seq<char>>) -> int {
    if gs.len() > 0 && is_ws_cluster(gs[0]) {
        0
    } else {
        first_ws_from(gs, 1)
    }
}

/// The cursor after the `w` motion from `p`: past the rest of the current
/// word (at least one cluster) and the whitespace after it, to the start of
/// the next word; from whitespace, past that whitespace to the start of the
/// next word. It stays where no word follows the whitespace, and goes to
/// the last cluster where no whitespace follows.
pub open spec fn cursor_after_forward_word(t: Seq<char>, p: int) -> int {
    let gs = grapheme_clusters(t.subrange(p, t.len() as int));
    let k = forward_ws_start(gs);
    if t.len() == 0 {
        p
    } else if k < gs.len() {
        let ws_start = p + cluster_start(gs, k);
        let hs = grapheme_clusters(t.subrange(ws_start, t.len() as int));
        let m = first_non_ws(hs, 0);
        if m < hs.len() {
            ws_start + cluster_start(hs, m)
        } else {
            p
        }
    } else {
        last_cluster_start(t)
    }
}

proof fn lemma_concat_take(gs: Seq<Seq<char>>, i: int)
    requires
        0 <= i < gs.len(),
    ensures
        concat_all(gs.take(i + 1)) == concat_all(gs.take(i)) + gs[i],
{
    assert(gs.take(i + 1).drop_last() =~= gs.take(i));
}

proof fn lemma_concat_take_len(gs: Seq<Seq<char>>, i: int, j: int)
    requires
        0 <= i <= j <= gs.len(),
    ensures
        concat_all(gs.take(i)).len() <= concat_all(gs.take(j)).len(),
        concat_all(gs.take(j)).subrange(0, concat_all(gs.take(i)).len() as int) == concat_all(gs.take(i)),
    decreases j - i,
{
    if i < j {
        lemma_concat_take_len(gs, i, j - 1);
        lemma_concat_take(gs, j - 1);
        let a = concat_all(gs.take(j - 1));
        let b = concat_all(gs.take(i));
        assert((a + gs[j - 1]).subrange(0, b.len() as int) =~= a.subrange(0, b.len() as int));
    }
}

/// The clusters of `s`, by the wrapper's contract, concatenate back to `s`.
proof fn lemma_clusters_concat(s: Seq<char>, r: Seq<String>)
    requires
        r.len() == grapheme_clusters(s).len(),
        forall|i: int| 0 <= i < r.len() ==> (#[trigger] r[i])@ == grapheme_clusters(s)[i],
        concat_all(r.map_values(|g: String| g@)) == s,
    ensures
        concat_all(grapheme_clusters(s)) == s,
{
    assert(r.map_values(|g: String| g@) =~= grapheme_clusters(s));
}

/// The clusters of `s` and where each starts; `starts[i]` is `cluster_start(gs, i)`.
fn cluster_starts(s: &str) -> (r: (Vec<String>, Vec<usize>))
    ensures
        r.0@.len() == grapheme_clusters(s@).len() == r.1@.len(),
        forall|i: int| 0 <= i < r.0@.len() ==> (#[trigger] r.0@[i])@ == grapheme_clusters(s@)[i],
        forall|i: int| 0 <= i < r.1@.len() ==> (#[trigger] r.1@[i]) as int == cluster_start(grapheme_clusters(s@), i),
        forall|i: int| 0 <= i < r.1@.len() ==> r.1@[i] < s@.len(),
        concat_all(grapheme_clusters(s@)) == s@,
{
    let total = s.unicode_len();
    let gs = graphemes(s);
    let ghost g = grapheme_clusters(s@);
    proof {
        lemma_clusters_concat(s@, gs@);
        assert(g.take(g.len() as int) =~= g);
    }
    let mut starts: Vec<usize> = Vec::new();
    let mut acc: usize = 0;
    let mut i: usize = 0;
    proof {
        assert(g.take(0) =~= Seq::<Seq<char>>::empty());
    }
    while i < gs.len()
        invariant
            i <= gs@.len() == g.len(),
            forall|k: int| 0 <= k < gs@.len() ==> (#[trigger] gs@[k])@ == g[k],
            forall|k: int| 0 <= k < gs@.len() ==> (#[trigger] gs@[k])@.len() > 0,
            concat_all(g) == s@,
            s@.len() == total,
            acc as int == cluster_start(g, i as int),
            starts@.len() == i,
            forall|k: int| 0 <= k < i ==> (#[trigger] starts@[k]) as int == cluster_start(g, k),
            forall|k: int| 0 <= k < i ==> starts@[k] < s@.len(),
        decreases gs@.len() - i,
    {
        proof {
            lemma_concat_take(g, i as int);
            lemma_concat_take_len(g, i as int + 1, g.len() as int);
            assert(gs@[i as int]@.len() > 0);
            assert(g.take(g.len() as int) =~= g);
        }
        starts.push(acc);
        let l = gs[i].unicode_len();
        acc = acc + l;
        i = i + 1;
    }
    (gs, starts)
}

/// Where the last grapheme cluster of `s` starts.
fn last_grapheme_start(s: &str) -> (r: usize)
    ensures
        r == last_cluster_start(s@),
        r <= s@.len(),
{
    let (gs, starts) = cluster_starts(s);
    if starts.len() == 0 {
        0
    } else {
        starts[starts.len() - 1]
    }
}

/// The position after the cluster at `p`, or `otherwise`.
fn next_cluster(t: &str, p: usize, otherwise: usize) -> (r: usize)
    requires
        p <= t@.len(),
        otherwise <= t@.len(),
    ensures
        r == next_cluster_pos(t@, p as int, otherwise as int),
        r <= t@.len(),
{
    let n = t.unicode_len();
    let tail = t.substring_char(p, n);
    let (gs, starts) = cluster_starts(tail);
    if gs.len() >= 2 {
        proof {
            assert(starts@[1] as int == cluster_start(grapheme_clusters(tail@), 1));
            let g = grapheme_clusters(tail@);
            lemma_concat_take(g, 0);
            assert(g.take(0) =~= Seq::<Seq<char>>::empty());
            assert(concat_all(g.take(1)) =~= g[0]);
        }
        p + starts[1]
    } else {
        otherwise
    }
}

/// Moves the cursor onto the last grapheme cluster (vim `G`).
pub fn cursor_pos_end(notes_state: &mut NotesState)
    requires
        old(notes_state).has_selected_note(),
    ensures
        cursor_moved_to(*old(notes_state), *final(notes_state), last_cluster_start(sel_text(*old(notes_state)))),
        cursor_in_text(*final(notes_state)),
{
    let last = last_grapheme_start(notes_state.expect_selected_note().data.content.as_str());
    notes_state.set_cursor_pos(last);
}

/// Moves the cursor one grapheme cluster right, but not past the start of
/// the last cluster (vim `l` in normal mode).
pub fn move_cursor_right_norm(notes_state: &mut NotesState)
    requires
        cursor_in_text(*old(notes_state)),
    ensures
        ({
            let t = sel_text(*old(notes_state));
            let p = old(notes_state).spec_cursor() as int;
            cursor_moved_to(
                *old(notes_state),
                *final(notes_state),
                min(next_cluster_pos(t, p, p), last_cluster_start(t)),
            )
        }),
        cursor_in_text(*final(notes_state)),
{
    let cursor_pos = notes_state.cursor_pos();
    let content = notes_state.expect_selected_note().data.content.as_str();
    let last = last_grapheme_start(content);
    let new_pos = next_cluster(content, cursor_pos, cursor_pos);
    let target = if new_pos < last {
        new_pos
    } else {
        last
    };
    notes_state.set_cursor_pos(target);
}

/// Enters modal normal mode.
pub fn switch_to_modal_normal_mode(map_state: &mut MapState)
    ensures
        *final(map_state) == (MapState { current_mode: Mode::EditNormal, ..*old(map_state) }),
{
    map_state.current_mode = Mode::EditNormal;
}

/// Enters modal insert mode.
pub fn switch_to_modal_insert_mode(map_state: &mut MapState)
    ensures
        *final(map_state) == (MapState { current_mode: Mode::EditInsert, ..*old(map_state) }),
{
    map_state.current_mode = Mode::EditInsert;
}

/// Moves the cursor past the grapheme cluster under it and enters insert
/// mode (vim `a`).
pub fn append(map_state: &mut MapState)
    requires
        cursor_in_text(old(map_state).notes_state),
    ensures
        ({
            let a = old(map_state).notes_state;
            let t = sel_text(a);
            let p = a.spec_cursor() as int;
            cursor_moved_to(a, final(map_state).notes_state, next_cluster_pos(t, p, t.len() as int))
        }),
        final(map_state).current_mode == Mode::EditInsert,
        final(map_state).persistence == old(map_state).persistence,
        final(map_state).connections_state == old(map_state).connections_state,
        final(map_state).viewport == old(map_state).viewport,
        final(map_state).settings == old(map_state).settings,
        final(map_state).settings_err_msg == old(map_state).settings_err_msg,
        final(map_state).ui_state == old(map_state).ui_state,
        cursor_in_text(final(map_state).notes_state),
{
    let cursor_pos = map_state.notes_state.cursor_pos();
    let content = map_state.notes_state.expect_selected_note().data.content.as_str();
    let len = content.unicode_len();
    let new_pos = next_cluster(content, cursor_pos, len);
    map_state.notes_state.set_cursor_pos(new_pos);
    switch_to_modal_insert_mode(map_state);
}

/// The position of the last delimiter before `p`, or `None`.
fn rfind_delim(t: &str, p: usize) -> (r: Option<usize>)
    requires
        p <= t@.len(),
    ensures
        match r {
            Some(k) => k as int == last_delim_before(t@, p as int) && k < p,
            None => last_delim_before(t@, p as int) == -1,
        },
{
    let mut q: usize = p;
    while q > 0
        invariant
            q <= p <= t@.len(),
            last_delim_before(t@, q as int) == last_delim_before(t@, p as int),
        decreases q,
    {
        let c = t.get_char(q - 1);
        if c == ' ' || c == '\n' {
            return Some(q - 1);
        }
        q = q - 1;
    }
    None
}

/// Whether the character at `i` is a space or a newline.
fn delim_at(t: &str, i: usize) -> (r: bool)
    requires
        i < t@.len(),
    ensures
        r == is_delim(t@[i as int]),
{
    let c = t.get_char(i);
    c == ' ' || c == '\n'
}

proof fn lemma_last_delim_bounds(t: Seq<char>, p: int)
    ensures
        -1 <= last_delim_before(t, p),
        p > 0 ==> last_delim_before(t, p) < p,
    decreases p,
{
    if p > 0 {
        lemma_last_delim_bounds(t, p - 1);
    }
}

proof fn lemma_trim_bounds(t: Seq<char>, p: int)
    requires
        p >= 0,
    ensures
        0 <= trim_delims_before(t, p) <= p,
    decreases p,
{
    if p > 0 {
        lemma_trim_bounds(t, p - 1);
    }
}

/// The start of the word the cursor is in.
fn find_current_word_start(t: &str, cursor_pos: usize) -> (r: usize)
    requires
        cursor_pos <= t@.len(),
    ensures
        r as int == current_word_start(t@, cursor_pos as int),
{
    match rfind_delim(t, cursor_pos) {
        Some(pos) => pos + 1,
        None => 0,
    }
}

/// Finds the start of the previous word when the cursor is at a word boundary.
fn find_previous_word_start(t: &str, cursor_pos: usize) -> (r: usize)
    requires
        cursor_pos <= t@.len(),
    ensures
        r as int == previous_word_start(t@, cursor_pos as int),
{
    if cursor_pos == 0 {
        return 0;
    }
    // Skip backward over whitespace to find where the previous word ends.
    let mut word_end: usize = cursor_pos;
    while word_end > 0 && delim_at(t, word_end - 1)
        invariant
            word_end <= cursor_pos <= t@.len(),
            trim_delims_before(t@, word_end as int) == trim_delims_before(t@, cursor_pos as int),
        decreases word_end,
    {
        word_end = word_end - 1;
    }
    if word_end == 0 {
        return 0;
    }
    match rfind_delim(t, word_end) {
        Some(pos) => pos + 1,
        None => 0,
    }
}

/// `jump_back_a_word` on the selected note.
fn jump_back_a_word_in_note(notes_state: &mut NotesState)
    requires
        cursor_in_text(*old(notes_state)),
    ensures
        cursor_moved_to(
            *old(notes_state),
            *final(notes_state),
            cursor_after_back_word(sel_text(*old(notes_state)), old(notes_state).spec_cursor() as int),
        ),
        cursor_in_text(*final(notes_state)),
{
    let cursor_pos = notes_state.cursor_pos();
    let content = notes_state.expect_selected_note().data.content.as_str();
    if content.unicode_len() == 0 || cursor_pos == 0 {
        return;
    }
    let c = content.get_char(cursor_pos - 1);
    let at_word_beginning = c == ' ' || c == '\n';
    let target_pos = if at_word_beginning {
        find_previous_word_start(content, cursor_pos)
    } else {
        find_current_word_start(content, cursor_pos)
    };
    proof {
        let t = content@;
        lemma_last_delim_bounds(t, cursor_pos as int);
        lemma_trim_bounds(t, cursor_pos as int);
        lemma_last_delim_bounds(t, trim_delims_before(t, cursor_pos as int));
        assert(target_pos <= cursor_pos);
    }
    notes_state.set_cursor_pos(target_pos);
}

/// Jumps the cursor back to the start of the current word, or of the
/// previous word when it is at a word's start (vim `b`).
/// With no note selected, nothing changes.
pub fn jump_back_a_word(notes_state: &mut NotesState)
    requires
        old(notes_state).has_selected_note() ==> cursor_in_text(*old(notes_state)),
    ensures
        !old(notes_state).has_selected_note() ==> *final(notes_state) == *old(notes_state),
        old(notes_state).has_selected_note() ==> {
            &&& cursor_moved_to(
                *old(notes_state),
                *final(notes_state),
                cursor_after_back_word(sel_text(*old(notes_state)), old(notes_state).spec_cursor() as int),
            )
            &&& cursor_in_text(*final(notes_state))
        },
{
    if notes_state.has_selected() {
        jump_back_a_word_in_note(notes_state);
    }
}

/// Whether a cluster is a space or a newline.
fn is_ws(g: &String) -> (r: bool)
    ensures
        r == is_ws_cluster(g@),
{
    proof {
        reveal_strlit(" ");
        reveal_strlit("\n");
    }
    str_eq(g.as_str(), " ") || str_eq(g.as_str(), "\n")
}

/// `jump_forward_a_word` on the selected note.
fn jump_forward_a_word_in_note(notes_state: &mut NotesState)
    requires
        cursor_in_text(*old(notes_state)),
    ensures
        cursor_moved_to(
            *old(notes_state),
            *final(notes_state),
            min(
                cursor_after_forward_word(sel_text(*old(notes_state)), old(notes_state).spec_cursor() as int),
                sel_text(*old(notes_state)).len() as int,
            ),
        ),
        cursor_in_text(*final(notes_state)),
{
    let cursor_pos = notes_state.cursor_pos();
    let content = notes_state.expect_selected_note().data.content.as_str();
    let n = content.unicode_len();
    if n == 0 {
        proof {
            assert(cursor_pos == 0);
        }
        return;
    }
    let tail = content.substring_char(cursor_pos, n);
    let (gs, starts) = cluster_starts(tail);
    let ghost g = grapheme_clusters(tail@);
    // Phase 1: from whitespace, start skipping it at once; otherwise skip
    // the rest of the word, at least one cluster.
    let mut k: usize = 1;
    if gs.len() > 0 && is_ws(&gs[0]) {
        k = 0;
    } else {
        while k < gs.len() && !is_ws(&gs[k])
            invariant
                1 <= k,
                gs@.len() == g.len() == starts@.len(),
                forall|i: int| 0 <= i < gs@.len() ==> (#[trigger] gs@[i])@ == g[i],
                first_ws_from(g, k as int) == first_ws_from(g, 1),
            decreases gs@.len() - k,
        {
            k = k + 1;
        }
        proof {
            if k >= gs.len() {
                assert(first_ws_from(g, k as int) == g.len());
            } else {
                assert(first_ws_from(g, k as int) == k);
            }
        }
    }
    assert(k == forward_ws_start(g) || (k >= gs.len() && forward_ws_start(g) >= g.len()));
    if k < gs.len() {
        let ws_start = cursor_pos + starts[k];
        let rest = content.substring_char(ws_start, n);
        let (hs, hstarts) = cluster_starts(rest);
        let ghost h = grapheme_clusters(rest@);
        // Phase 2: skip whitespace to the next word start.
        let mut m: usize = 0;
        while m < hs.len() && is_ws(&hs[m])
            invariant
                hs@.len() == h.len() == hstarts@.len(),
                forall|i: int| 0 <= i < hs@.len() ==> (#[trigger] hs@[i])@ == h[i],
                first_non_ws(h, m as int) == first_non_ws(h, 0),
            decreases hs@.len() - m,
        {
            m = m + 1;
        }
        proof {
            if m >= hs.len() {
                assert(first_non_ws(h, m as int) == h.len());
            } else {
                assert(first_non_ws(h, m as int) == m);
            }
        }
        if m < hs.len() {
            notes_state.set_cursor_pos(ws_start + hstarts[m]);
        }
        return;
    }
    // No next word found; clamp to last grapheme.
    let last = last_grapheme_start(content);
    notes_state.set_cursor_pos(last);
}

/// Jumps the cursor forward to the beginning of the next word (vim `w`).
/// Treats spaces and newlines as word delimiters; crosses line boundaries.
/// If no next word exists the cursor stays at the last grapheme.
/// With no note selected, nothing changes.
pub fn jump_forward_a_word(notes_state: &mut NotesState)
    requires
        old(notes_state).has_selected_note() ==> cursor_in_text(*old(notes_state)),
    ensures
        !old(notes_state).has_selected_note() ==> *final(notes_state) == *old(notes_state),
        old(notes_state).has_selected_note() ==> {
            &&& cursor_moved_to(
                *old(notes_state),
                *final(notes_state),
                min(
                    cursor_after_forward_word(sel_text(*old(notes_state)), old(notes_state).spec_cursor() as int),
                    sel_text(*old(notes_state)).len() as int,
                ),
            )
            &&& cursor_in_text(*final(notes_state))
        },
{
    if notes_state.has_selected() {
        jump_forward_a_word_in_note(notes_state);
    }
}

/// `remove_char` on the selected note.
fn remove_char_in_note(map_state: &mut MapState)
    requires
        cursor_in_text(old(map_state).notes_state),
    ensures
        rest_kept_dirty(*old(map_state), *final(map_state)),
        ({
            let a = old(map_state).notes_state;
            let t = sel_text(a);
            let p = a.spec_cursor() as int;
            if p >= t.len() {
                final(map_state).notes_state == a
            } else {
                let end = next_cluster_pos(t, p, t.len() as int);
                let nt = t.subrange(0, p) + t.subrange(end, t.len() as int);
                text_edited(
                    a,
                    final(map_state).notes_state,
                    nt,
                    if nt.len() == 0 {
                        0
                    } else {
                        min(p, last_cluster_start(nt))
                    },
                )
            }
        }),
        old(map_state).notes_state.wf() ==> final(map_state).notes_state.wf(),
        cursor_in_text(final(map_state).notes_state),
{
    map_state.persistence.mark_dirty();
    let cursor_pos = map_state.notes_state.cursor_pos();
    let content = map_state.notes_state.expect_selected_note().data.content.as_str();
    let n = content.unicode_len();
    if n == 0 || cursor_pos >= n {
        return;
    }
    let grapheme_end = next_cluster(content, cursor_pos, n);
    let mut new_text = String::from_str(content.substring_char(0, cursor_pos));
    new_text.append(content.substring_char(grapheme_end, n));
    let new_cursor_pos = if new_text.unicode_len() == 0 {
        0
    } else {
        let last = last_grapheme_start(new_text.as_str());
        if cursor_pos < last {
            cursor_pos
        } else {
            last
        }
    };
    proof {
        assert(cursor_pos <= grapheme_end);
    }
    map_state.notes_state.set_selected_content(new_text);
    map_state.notes_state.set_cursor_pos(new_cursor_pos);
    proof {
        let a = old(map_state).notes_state;
        let id = a.spec_selected()->0;
        assert(map_state.notes_state.spec_notes().remove(id) =~= a.spec_notes().remove(id));
    }
}

/// Deletes the grapheme cluster under the cursor (vim `x`); the cursor
/// then stays, but not past the start of the last cluster. At the end of
/// the text nothing is deleted. The map has unsaved changes afterwards
/// either way.
/// With no note selected, only the unsaved-changes mark is set.
pub fn remove_char(map_state: &mut MapState)
    requires
        old(map_state).notes_state.has_selected_note() ==> cursor_in_text(old(map_state).notes_state),
    ensures
        !old(map_state).notes_state.has_selected_note() ==> rest_kept_dirty(*old(map_state), *final(map_state))
            && final(map_state).notes_state == old(map_state).notes_state,
        old(map_state).notes_state.has_selected_note() ==> {
            &&& rest_kept_dirty(*old(map_state), *final(map_state))
            &&& ({
                let a = old(map_state).notes_state;
                let t = sel_text(a);
                let p = a.spec_cursor() as int;
                if p >= t.len() {
                    final(map_state).notes_state == a
                } else {
                    let end = next_cluster_pos(t, p, t.len() as int);
                    let nt = t.subrange(0, p) + t.subrange(end, t.len() as int);
                    text_edited(
                        a,
                        final(map_state).notes_state,
                        nt,
                        if nt.len() == 0 {
                            0
                        } else {
                            min(p, last_cluster_start(nt))
                        },
                    )
                }
            })
            &&& old(map_state).notes_state.wf() ==> final(map_state).notes_state.wf()
            &&& cursor_in_text(final(map_state).notes_state)
        },
{
    if map_state.notes_state.has_selected() {
        remove_char_in_note(map_state);
    } else {
        map_state.persistence.mark_dirty();
    }
}

} // verus!
