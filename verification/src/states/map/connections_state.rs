use std::collections::HashMap;
use vstd::prelude::*;
use vstd::std_specs::iter::IteratorSpec;

use crate::color::Color;
use crate::graph::Side;
use super::notes_state::{is_first_index, lemma_first_index_unique, position_of, without_first};

verus! {

broadcast use vstd::std_specs::hash::group_hash_axioms;

/// Represents a directional connection between notes in the map.
///
/// Connections can be in-progress (only `from` specified) or complete (both `from` and `to`).
/// This allows drawing connections interactively before the user selects a target note.
#[derive(Copy, Clone, PartialEq, Eq, Debug, Structural)]
pub struct Connection {
    pub from_id: usize,
    pub from_side: Side,
    /// None for in-progress connections being drawn by the user
    pub to_id: Option<usize>,
    /// None for in-progress connections being drawn by the user
    pub to_side: Option<Side>,
    pub color: Color,
}

/// The connection has note `k` as one of its endpoints.
pub open spec fn touches(c: Connection, k: usize) -> bool {
    c.from_id == k || c.to_id == Some(k)
}

/// `l` lists, in increasing order, exactly the positions in `conns` of the
/// connections that touch note `k`.
pub open spec fn indexes_exactly(l: Seq<usize>, conns: Seq<Connection>, k: usize) -> bool {
    &&& forall|a: int, b: int| 0 <= a < b < l.len() ==> l[a] < l[b]
    &&& forall|a: int| 0 <= a < l.len() ==> l[a] < conns.len()
    &&& forall|i: int| 0 <= i < conns.len() ==> (touches(conns[i], k) <==> l.contains(i as usize))
}

/// The index is consistent with the connections: the entry of every note
/// lists exactly the connections touching it, and a note without an entry
/// is touched by none.
pub open spec fn index_consistent(conns: Seq<Connection>, index: Map<usize, Seq<usize>>) -> bool {
    &&& forall|k: usize| #[trigger] index.contains_key(k) ==> indexes_exactly(index[k], conns, k)
    &&& forall|k: usize, i: int|
        !index.contains_key(k) && 0 <= i < conns.len() ==> !#[trigger] touches(conns[i], k)
}

/// An index list after the connection at position `j` was removed: its first
/// entry `j` is dropped and the positions after `j` move down by one.
pub open spec fn shifted_list(l: Seq<usize>, j: usize) -> Seq<usize> {
    without_first(l, j).map_values(|x: usize| shift_down(x, j))
}

/// A position after the removal of position `j`.
pub open spec fn shift_down(x: usize, j: usize) -> usize {
    if x > j {
        (x - 1) as usize
    } else {
        x
    }
}

/// `conns` without the connections that touch note `k`, in their order.
pub open spec fn without_touching(conns: Seq<Connection>, k: usize) -> Seq<Connection>
    decreases conns.len(),
{
    if conns.len() == 0 {
        Seq::empty()
    } else {
        let p = without_touching(conns.drop_last(), k);
        if touches(conns.last(), k) {
            p
        } else {
            p.push(conns.last())
        }
    }
}

/// The number of connections in `conns` that touch note `k`.
pub open spec fn touching_count(conns: Seq<Connection>, k: usize) -> nat
    decreases conns.len(),
{
    if conns.len() == 0 {
        0
    } else {
        touching_count(conns.drop_last(), k) + if touches(conns.last(), k) {
            1nat
        } else {
            0nat
        }
    }
}

/// Removing the connections that touch `k` removes exactly `touching_count` of them.
proof fn lemma_without_touching_len(conns: Seq<Connection>, k: usize)
    ensures
        without_touching(conns, k).len() + touching_count(conns, k) == conns.len(),
    decreases conns.len(),
{
    if conns.len() > 0 {
        lemma_without_touching_len(conns.drop_last(), k);
    }
}

/// The connections that have an end point (`to_id`), in their order.
pub open spec fn complete_only(conns: Seq<Connection>) -> Seq<Connection>
    decreases conns.len(),
{
    if conns.len() == 0 {
        Seq::empty()
    } else {
        let p = complete_only(conns.drop_last());
        if conns.last().to_id is Some {
            p.push(conns.last())
        } else {
            p
        }
    }
}

/// No connection runs from a note to itself.
pub open spec fn no_self_connections(conns: Seq<Connection>) -> bool {
    forall|i: int| 0 <= i < conns.len() ==> (#[trigger] conns[i]).to_id != Some(conns[i].from_id)
}

proof fn lemma_without_touching_concat(a: Seq<Connection>, b: Seq<Connection>, k: usize)
    ensures
        without_touching(a + b, k) == without_touching(a, k) + without_touching(b, k),
    decreases b.len(),
{
    if b.len() == 0 {
        assert(a + b =~= a);
        assert(without_touching(a, k) + without_touching(b, k) =~= without_touching(a, k));
    } else {
        lemma_without_touching_concat(a, b.drop_last(), k);
        assert((a + b).drop_last() =~= a + b.drop_last());
        assert((a + b).last() == b.last());
        if touches(b.last(), k) {
        } else {
            assert(without_touching(a, k) + without_touching(b.drop_last(), k).push(b.last())
                =~= (without_touching(a, k) + without_touching(b.drop_last(), k)).push(b.last()));
        }
    }
}

proof fn lemma_without_touching_clean(a: Seq<Connection>, k: usize)
    ensures
        forall|i: int| 0 <= i < without_touching(a, k).len() ==> !touches(#[trigger] without_touching(a, k)[i], k),
    decreases a.len(),
{
    if a.len() > 0 {
        lemma_without_touching_clean(a.drop_last(), k);
        let p = without_touching(a.drop_last(), k);
        let w = without_touching(a, k);
        assert forall|i: int| 0 <= i < w.len() implies !touches(#[trigger] w[i], k) by {
            if i < p.len() {
                assert(w[i] == p[i]);
            }
        }
    }
}

/// Every connection kept by `without_touching` is one of the originals.
pub proof fn lemma_without_touching_elems(a: Seq<Connection>, k: usize)
    ensures
        forall|i: int|
            0 <= i < without_touching(a, k).len() ==> exists|j: int|
                0 <= j < a.len() && a[j] == #[trigger] without_touching(a, k)[i],
    decreases a.len(),
{
    if a.len() > 0 {
        lemma_without_touching_elems(a.drop_last(), k);
        let p = without_touching(a.drop_last(), k);
        let w = without_touching(a, k);
        assert forall|i: int| 0 <= i < w.len() implies exists|j: int| 0 <= j < a.len() && a[j] == #[trigger] w[i] by {
            if i < p.len() {
                let j = choose|j: int| 0 <= j < a.drop_last().len() && a.drop_last()[j] == p[i];
                assert(a[j] == w[i]);
            } else {
                assert(a[a.len() - 1] == w[i]);
            }
        }
    }
}

/// Law: removing the connections of note `k` keeps every connection that
/// does not touch it, and none that does.
pub proof fn lemma_without_touching_keeps_others(a: Seq<Connection>, k: usize)
    ensures
        forall|i: int| 0 <= i < a.len() && !c_touches(a[i], k) ==> #[trigger] without_touching(a, k).contains(a[i]),
        forall|i: int| 0 <= i < without_touching(a, k).len() ==> !(c_touches(#[trigger] without_touching(a, k)[i], k)),
    decreases a.len(),
{
    if a.len() > 0 {
        lemma_without_touching_keeps_others(a.drop_last(), k);
        let p = without_touching(a.drop_last(), k);
        let w = without_touching(a, k);
        assert forall|i: int| 0 <= i < a.len() && !c_touches(a[i], k) implies #[trigger] w.contains(a[i]) by {
            if i < a.len() - 1 {
                assert(a.drop_last()[i] == a[i]);
                assert(p.contains(a[i]));
                let j = choose|j: int| 0 <= j < p.len() && p[j] == a[i];
                assert(w[j] == a[i]);
            } else {
                assert(w[w.len() - 1] == a[i]);
            }
        }
        assert forall|i: int| 0 <= i < w.len() implies !(c_touches(#[trigger] w[i], k)) by {
            if i < p.len() {
                assert(w[i] == p[i]);
            }
        }
    }
}

/// Connection `c` has an end at note `k`, written out.
pub open spec fn c_touches(c: Connection, k: usize) -> bool {
    c.from_id == k || (c.to_id matches Some(t) && t == k)
}

proof fn lemma_without_touching_none(a: Seq<Connection>, k: usize)
    requires
        forall|i: int| 0 <= i < a.len() ==> !touches(#[trigger] a[i], k),
    ensures
        without_touching(a, k) == a,
    decreases a.len(),
{
    if a.len() > 0 {
        assert(forall|i: int| 0 <= i < a.drop_last().len() ==> a.drop_last()[i] == a[i]);
        lemma_without_touching_none(a.drop_last(), k);
        assert(!touches(a[a.len() - 1], k));
        assert(a.drop_last().push(a.last()) =~= a);
    }
}

/// The list of an index after position `j` is removed.
fn shift_list(l: &Vec<usize>, j: usize) -> (r: Vec<usize>)
    ensures
        r@ == shifted_list(l@, j),
{
    let pos = position_of(l, j);
    let ghost w = without_first(l@, j);
    proof {
        if let Some(p) = pos {
            lemma_first_index_unique(l@, j, p as int);
            assert(w == l@.remove(p as int));
        } else {
            assert(w == l@);
        }
    }
    let ghost f = |x: usize| shift_down(x, j);
    let mut r: Vec<usize> = Vec::new();
    let mut i: usize = 0;
    while i < l.len()
        invariant
            i <= l@.len(),
            w == (match pos {
                Some(p) => l@.remove(p as int),
                None => l@,
            }),
            pos matches Some(p) ==> p < l@.len(),
            f == (|x: usize| shift_down(x, j)),
            r@ == (match pos {
                Some(p) => if i <= p {
                    l@.take(i as int)
                } else {
                    l@.take(i as int).remove(p as int)
                },
                None => l@.take(i as int),
            }).map_values(f),
        decreases l@.len() - i,
    {
        let x = l[i];
        let skip = match pos {
            Some(p) => p == i,
            None => false,
        };
        if !skip {
            let y = if x > j {
                x - 1
            } else {
                x
            };
            r.push(y);
        }
        proof {
            let t1 = l@.take(i + 1);
            assert(t1 == l@.take(i as int).push(x));
            match pos {
                Some(p) => {
                    if i < p {
                        assert(r@ =~= t1.map_values(f));
                    } else if i == p {
                        assert(t1.remove(p as int) =~= l@.take(i as int));
                    } else {
                        let t0 = l@.take(i as int).remove(p as int);
                        assert(t1.remove(p as int) =~= t0.push(x));
                        assert(r@ =~= t0.push(x).map_values(f));
                    }
                },
                None => {
                    assert(r@ =~= t1.map_values(f));
                },
            }
        }
        i = i + 1;
    }
    proof {
        assert(l@.take(l@.len() as int) =~= l@);
    }
    r
}

/// Maintains the connections and, for each note, the positions of the
/// connections that touch it.
#[derive(PartialEq, Debug)]
pub struct ConnectionManager {
    connections: Vec<Connection>,
    /// Maps note IDs to indices in the connections vector.
    /// Both `from_id` and `to_id` are indexed for each connection.
    connection_index: HashMap<usize, Vec<usize>>,
}

impl ConnectionManager {
    /// The stored connections, in order.
    pub closed spec fn connections_view(&self) -> Seq<Connection> {
        self.connections@
    }

    /// The index, each list taken by its view.
    pub closed spec fn index_view(&self) -> Map<usize, Seq<usize>> {
        Map::new(
            |k: usize| self.connection_index@.contains_key(k),
            |k: usize| self.connection_index@[k]@,
        )
    }

    spec fn wf(&self) -> bool {
        index_consistent(self.connections@, self.index_view())
    }

    fn new() -> (r: Self)
        ensures
            r.connections@ == Seq::<Connection>::empty(),
            r.index_view() == Map::<usize, Seq<usize>>::empty(),
            r.wf(),
    {
        let r = Self { connections: Vec::new(), connection_index: HashMap::new() };
        proof {
            assert(r.index_view() =~= Map::<usize, Seq<usize>>::empty());
        }
        r
    }

    /// Appends `index` to the list of note `k`, creating the list if needed.
    fn index_push(&mut self, k: usize, index: usize)
        ensures
            final(self).connections == old(self).connections,
            final(self).index_view() == old(self).index_view().insert(
                k,
                if old(self).index_view().contains_key(k) {
                    old(self).index_view()[k].push(index)
                } else {
                    seq![index]
                },
            ),
    {
        let mut l = match self.connection_index.remove(&k) {
            Some(l) => l,
            None => Vec::new(),
        };
        l.push(index);
        self.connection_index.insert(k, l);
        proof {
            let target = old(self).index_view().insert(
                k,
                if old(self).index_view().contains_key(k) {
                    old(self).index_view()[k].push(index)
                } else {
                    seq![index]
                },
            );
            assert(self.index_view() =~= target);
        }
    }

    /// Adds a connection and indexes it under both endpoints; the connection
    /// must have an endpoint. Returns the position it was added at.
    fn add(&mut self, connection: Connection) -> (r: usize)
        requires
            connection.to_id is Some,
            old(self).connections@.len() < usize::MAX,
        ensures
            r == old(self).connections@.len(),
            final(self).connections@ == old(self).connections@.push(connection),
            old(self).wf() && connection.to_id != Some(connection.from_id) ==> final(self).wf(),
    {
        let index = self.connections.len();
        self.connections.push(connection);
        let ghost mid = self.index_view();
        self.index_push(connection.from_id, index);
        let to = match connection.to_id {
            Some(t) => t,
            None => 0,
        };
        self.index_push(to, index);
        proof {
            if old(self).wf() && connection.to_id != Some(connection.from_id) {
                lemma_add_consistent(old(self).connections@, old(self).index_view(), connection, self.index_view());
            }
        }
        index
    }

    /// The notes that have an entry in the index.
    fn index_keys(&self) -> (r: Vec<usize>)
        ensures
            r@.no_duplicates(),
            forall|k: usize| #[trigger] self.index_view().contains_key(k) <==> r@.contains(k),
    {
        let mut keys: Vec<usize> = Vec::new();
        for k in it: self.connection_index.keys()
            invariant
                keys@.len() == it.index(),
                forall|i: int| 0 <= i < it.index() ==> keys@[i] == *it.seq()[i],
                it.seq() == vstd::std_specs::hash::spec_keys_iter(&self.connection_index).remaining(),
        {
            keys.push(*k);
        }
        proof {
            let s = vstd::std_specs::hash::spec_keys_iter(&self.connection_index).remaining();
            assert(keys@ =~= s.unref());
            assert forall|k: usize| #[trigger] self.index_view().contains_key(k) <==> keys@.contains(k) by {
                if self.connection_index@.contains_key(k) {
                    assert(s.unref().to_set().contains(k));
                }
                if keys@.contains(k) {
                    let w = choose|w: int| 0 <= w < keys@.len() && keys@[w] == k;
                    assert(s.unref().to_set().contains(k));
                }
            }
            assert forall|a: int, b: int| 0 <= a < keys@.len() && 0 <= b < keys@.len() && a != b implies keys@[a]
                != keys@[b] by {
                assert(s[a] != s[b]);
            }
        }
        keys
    }

    /// Removes the connection at `index` and fixes the index: the position is
    /// dropped from every list and the later positions move down by one.
    fn remove(&mut self, index: usize) -> (r: Connection)
        requires
            index < old(self).connections@.len(),
        ensures
            r == old(self).connections@[index as int],
            final(self).connections@ == old(self).connections@.remove(index as int),
            final(self).index_view() == Map::new(
                |k: usize| old(self).index_view().contains_key(k),
                |k: usize| shifted_list(old(self).index_view()[k], index),
            ),
            old(self).wf() ==> final(self).wf(),
    {
        let n = self.connections.len();
        let connection = self.connections.remove(index);
        let keys = self.index_keys();
        let ghost old_view = self.index_view();
        proof {
            assert(old_view =~= old(self).index_view());
        }
        let mut t: usize = 0;
        while t < keys.len()
            invariant
                t <= keys@.len(),
                keys@.no_duplicates(),
                forall|k: usize| #[trigger] old_view.contains_key(k) <==> keys@.contains(k),
                forall|k: usize| #[trigger]
                    self.index_view().contains_key(k) <==> old_view.contains_key(k),
                forall|k: usize| #[trigger]
                    self.index_view().contains_key(k) ==> self.index_view()[k] == (if keys@.take(
                        t as int,
                    ).contains(k) {
                        shifted_list(old_view[k], index)
                    } else {
                        old_view[k]
                    }),
                self.connections@ == old(self).connections@.remove(index as int),
            decreases keys@.len() - t,
        {
            let k = keys[t];
            proof {
                assert(keys@.contains(k));
                assert(self.index_view().contains_key(k));
                assert(!keys@.take(t as int).contains(k)) by {
                    if keys@.take(t as int).contains(k) {
                        let w = choose|w: int| 0 <= w < t && keys@[w] == k;
                        assert(keys@[w] == keys@[t as int]);
                    }
                }
            }
            let l = self.connection_index.remove(&k).unwrap();
            let nl = shift_list(&l, index);
            self.connection_index.insert(k, nl);
            proof {
                assert forall|k2: usize| #[trigger] self.index_view().contains_key(k2) implies self.index_view()[k2]
                    == (if keys@.take(t + 1).contains(k2) {
                    shifted_list(old_view[k2], index)
                } else {
                    old_view[k2]
                }) by {
                    if k2 == k {
                        assert(keys@.take(t + 1)[t as int] == k);
                    } else {
                        if keys@.take(t + 1).contains(k2) {
                            let w = choose|w: int| 0 <= w < t + 1 && keys@[w] == k2;
                            assert(keys@.take(t as int)[w] == k2);
                        }
                        if keys@.take(t as int).contains(k2) {
                            let w = choose|w: int| 0 <= w < t && keys@[w] == k2;
                            assert(keys@.take(t + 1)[w] == k2);
                        }
                    }
                }
            }
            t = t + 1;
        }
        proof {
            assert(keys@.take(keys@.len() as int) =~= keys@);
            let target = Map::new(
                |k: usize| old_view.contains_key(k),
                |k: usize| shifted_list(old_view[k], index),
            );
            assert(self.index_view() =~= target);
            if old(self).wf() {
                assert(old(self).connections@.len() == n);
                lemma_remove_consistent(old(self).connections@, old_view, index);
            }
        }
        connection
    }

    /// Gets the positions of the connections that touch a note: its index list.
    fn get_indices_for_note(&self, note_id: usize) -> (r: &[usize])
        ensures
            r@ == (if self.index_view().contains_key(note_id) {
                self.index_view()[note_id]
            } else {
                Seq::empty()
            }),
            self.wf() ==> indexes_exactly(r@, self.connections@, note_id),
    {
        match self.connection_index.get(&note_id) {
            Some(v) => {
                proof {
                    assert(self.index_view().contains_key(note_id));
                    assert(self.index_view()[note_id] == v@);
                }
                v.as_slice()
            },
            None => {
                let e: &[usize] = &[];
                proof {
                    assert(e@ =~= Seq::<usize>::empty());
                    assert(!self.index_view().contains_key(note_id));
                    if self.wf() {
                        assert forall|i: int| 0 <= i < self.connections@.len() implies (touches(
                            self.connections@[i],
                            note_id,
                        ) <==> e@.contains(i as usize)) by {
                            assert(!touches(self.connections@[i], note_id));
                        }
                    }
                }
                e
            },
        }
    }

    /// Removes all connections involving the given note, from the last to
    /// the first so that the positions still to remove stay valid. Returns
    /// the number of connections removed.
    fn remove_all_for_note(&mut self, note_id: usize) -> (r: usize)
        requires
            old(self).wf(),
        ensures
            final(self).connections@ == without_touching(old(self).connections@, note_id),
            r == old(self).connections@.len() - final(self).connections@.len(),
            final(self).wf(),
    {
        let ghost old_conns = self.connections@;
        let n0 = self.connections.len();
        let ind = vstd::slice::slice_to_vec(self.get_indices_for_note(note_id));
        let ghost l = ind@;
        let m = ind.len();
        let mut t: usize = m;
        proof {
            assert(old_conns.len() == n0);
            assert(old_conns.skip(old_conns.len() as int) =~= Seq::<Connection>::empty());
            assert(old_conns.take(old_conns.len() as int) =~= old_conns);
            assert(old_conns.take(old_conns.len() as int) + without_touching(Seq::<Connection>::empty(), note_id) =~= old_conns);
        }
        while t > 0
            invariant
                t <= m == l.len(),
                ind@ == l,
                indexes_exactly(l, old_conns, note_id),
                old_conns.len() <= usize::MAX,
                self.wf(),
                ({
                    let b = if t < m { l[t as int] as int } else { old_conns.len() as int };
                    self.connections@ == old_conns.take(b) + without_touching(old_conns.skip(b), note_id)
                }),
                self.connections@.len() + (m - t) == old_conns.len(),
            decreases t,
        {
            t = t - 1;
            let p = ind[t];
            let ghost b = if t + 1 < m { l[t + 1] as int } else { old_conns.len() as int };
            let ghost cur = self.connections@;
            proof {
                assert(p < b);
                // the connections strictly between p and b do not touch the note
                let mid = old_conns.subrange(p + 1, b);
                assert forall|i: int| 0 <= i < mid.len() implies !touches(#[trigger] mid[i], note_id) by {
                    let g = p + 1 + i;
                    assert(mid[i] == old_conns[g]);
                    if touches(old_conns[g], note_id) {
                        assert(l.contains(g as usize));
                        let w = choose|w: int| 0 <= w < l.len() && l[w] == g as usize;
                        if w <= t {
                            assert(l[w] <= l[t as int]);
                        } else {
                            assert(l[t + 1] <= l[w]);
                        }
                    }
                }
                lemma_without_touching_none(mid, note_id);
                assert(l.contains(p));
                assert(touches(old_conns[p as int], note_id));
                let first = seq![old_conns[p as int]];
                assert(without_touching(first, note_id) =~= Seq::<Connection>::empty()) by {
                    assert(first.drop_last() =~= Seq::<Connection>::empty());
                    assert(first.last() == old_conns[p as int]);
                    assert(touches(first.last(), note_id));
                    assert(without_touching(first.drop_last(), note_id) =~= Seq::<Connection>::empty());
                }
                assert(old_conns.skip(p as int) =~= first + mid + old_conns.skip(b));
                lemma_without_touching_concat(first + mid, old_conns.skip(b), note_id);
                lemma_without_touching_concat(first, mid, note_id);
                assert(cur.len() > p);
            }
            self.remove(p);
            proof {
                let mid = old_conns.subrange(p + 1, b);
                assert(self.connections@ =~= old_conns.take(p as int) + without_touching(old_conns.skip(p as int), note_id));
            }
        }
        proof {
            if m > 0 {
                let b = l[0] as int;
                let pre = old_conns.take(b);
                assert forall|i: int| 0 <= i < pre.len() implies !touches(#[trigger] pre[i], note_id) by {
                    assert(pre[i] == old_conns[i]);
                    if touches(old_conns[i], note_id) {
                        assert(l.contains(i as usize));
                        let w = choose|w: int| 0 <= w < l.len() && l[w] == i as usize;
                        assert(l[0] <= l[w]);
                    }
                }
                lemma_without_touching_none(pre, note_id);
                assert(old_conns =~= pre + old_conns.skip(b));
                lemma_without_touching_concat(pre, old_conns.skip(b), note_id);
            } else {
                assert forall|i: int| 0 <= i < old_conns.len() implies !touches(#[trigger] old_conns[i], note_id) by {
                    assert(!l.contains(i as usize));
                }
                lemma_without_touching_none(old_conns, note_id);
            }
        }
        m
    }

    /// Removes all connections of a note and its entry in the index.
    fn remove_note(&mut self, note_id: usize)
        requires
            old(self).wf(),
        ensures
            final(self).connections@ == without_touching(old(self).connections@, note_id),
            !final(self).index_view().contains_key(note_id),
            final(self).wf(),
    {
        self.remove_all_for_note(note_id);
        let ghost mid = self.index_view();
        self.connection_index.remove(&note_id);
        proof {
            assert(self.index_view() =~= mid.remove(note_id));
            let conns = self.connections@;
            lemma_without_touching_clean(old(self).connections@, note_id);
            assert forall|k: usize, i: int| !self.index_view().contains_key(k) && 0 <= i < conns.len() implies !#[trigger] touches(
                conns[i],
                k,
            ) by {
                if k != note_id {
                    assert(!mid.contains_key(k));
                }
            }
        }
    }

    /// Gets references to all connections of a note, in the order of its index list.
    fn get_connections_for_note(&self, note_id: usize) -> (r: Vec<&Connection>)
        requires
            self.wf(),
        ensures
            ({
                let l = if self.index_view().contains_key(note_id) {
                    self.index_view()[note_id]
                } else {
                    Seq::empty()
                };
                &&& r@.len() == l.len()
                &&& forall|a: int| 0 <= a < l.len() ==> *r@[a] == self.connections@[l[a] as int]
            }),
    {
        let ind = self.get_indices_for_note(note_id);
        let mut r: Vec<&Connection> = Vec::new();
        let mut a: usize = 0;
        while a < ind.len()
            invariant
                a <= ind@.len(),
                indexes_exactly(ind@, self.connections@, note_id),
                r@.len() == a,
                forall|b: int| 0 <= b < a ==> *r@[b] == self.connections@[ind@[b] as int],
            decreases ind@.len() - a,
        {
            let i = ind[a];
            r.push(&self.connections[i]);
            a = a + 1;
        }
        r
    }

    /// Creates a manager from loaded connections, keeping those with an end
    /// point and rebuilding the index.
    fn from_connections(connections: Vec<Connection>) -> (r: Self)
        ensures
            r.connections@ == complete_only(connections@),
            no_self_connections(connections@) ==> r.wf(),
    {
        let mut manager = Self::new();
        let mut i: usize = 0;
        while i < connections.len()
            invariant
                i <= connections@.len(),
                manager.connections@ == complete_only(connections@.take(i as int)),
                manager.connections@.len() <= i,
                no_self_connections(connections@) ==> manager.wf(),
                no_self_connections(connections@) ==> no_self_connections(manager.connections@),
            decreases connections@.len() - i,
        {
            let connection = connections[i];
            proof {
                assert(connections@.take(i + 1).drop_last() =~= connections@.take(i as int));
            }
            if connection.to_id.is_some() {
                manager.add(connection);
                proof {
                    if no_self_connections(connections@) {
                        assert(connections@[i as int].to_id != Some(connections@[i as int].from_id));
                        let mc = manager.connections@;
                        assert forall|a: int| 0 <= a < mc.len() implies (#[trigger] mc[a]).to_id != Some(mc[a].from_id) by {
                            if a < mc.len() - 1 {
                                assert(mc[a] == complete_only(connections@.take(i as int))[a]);
                            }
                        }
                    }
                }
            } else {
            }
            i = i + 1;
        }
        proof {
            assert(connections@.take(connections@.len() as int) =~= connections@);
        }
        manager
    }
}

/// Dropping position `j` from an exact index list and moving the later
/// positions down gives the exact list of the connections without `j`.
proof fn lemma_shifted_exact(l: Seq<usize>, conns: Seq<Connection>, k: usize, j: usize)
    requires
        indexes_exactly(l, conns, k),
        j < conns.len() <= usize::MAX,
    ensures
        indexes_exactly(shifted_list(l, j), conns.remove(j as int), k),
{
    let w = without_first(l, j);
    let nl = shifted_list(l, j);
    let nc = conns.remove(j as int);
    // w is l without j, still increasing
    if l.contains(j) {
        let q = choose|q: int| 0 <= q < l.len() && l[q] == j;
        super::notes_state::lemma_exists_first_index(l, j, q);
        let p = choose|i: int| is_first_index(l, j, i);
        lemma_first_index_unique(l, j, p);
        assert(w == l.remove(p));
    } else {
        assert(w == l);
    }
    assert(forall|a: int, b: int| 0 <= a < b < w.len() ==> w[a] < w[b]) by {
        if l.contains(j) {
            let p = choose|i: int| is_first_index(l, j, i);
            assert forall|a: int, b: int| 0 <= a < b < w.len() implies w[a] < w[b] by {
                let a2 = if a < p { a } else { a + 1 };
                let b2 = if b < p { b } else { b + 1 };
                assert(w[a] == l[a2] && w[b] == l[b2]);
            }
        }
    }
    assert(forall|x: usize| #[trigger] w.contains(x) <==> (l.contains(x) && x != j)) by {
        if l.contains(j) {
            let p = choose|i: int| is_first_index(l, j, i);
            assert forall|x: usize| w.contains(x) <==> (l.contains(x) && x != j) by {
                if w.contains(x) {
                    let a = choose|a: int| 0 <= a < w.len() && w[a] == x;
                    let a2 = if a < p { a } else { a + 1 };
                    assert(l[a2] == x);
                    if a2 < p {
                        assert(l[a2] < l[p]);
                    } else {
                        assert(l[p] < l[a2]);
                    }
                }
                if l.contains(x) && x != j {
                    let a = choose|a: int| 0 <= a < l.len() && l[a] == x;
                    assert(a != p);
                    if a < p {
                        assert(w[a] == x);
                    } else {
                        assert(w[a - 1] == x);
                    }
                }
            }
        }
    }
    assert(nl.len() == w.len());
    assert forall|a: int| 0 <= a < nl.len() implies nl[a] == shift_down(#[trigger] w[a], j) by {}
    assert forall|a: int, b: int| 0 <= a < b < nl.len() implies nl[a] < nl[b] by {
        assert(nl[a] == shift_down(w[a], j));
        assert(nl[b] == shift_down(w[b], j));
        assert(w.contains(w[a]) && w.contains(w[b]));
    }
    assert forall|a: int| 0 <= a < nl.len() implies nl[a] < nc.len() by {
        assert(nl[a] == shift_down(w[a], j));
        assert(w.contains(w[a]));
        assert(l.contains(w[a]));
        let a2 = choose|a2: int| 0 <= a2 < l.len() && l[a2] == w[a];
    }
    assert forall|i: int| 0 <= i < nc.len() implies (touches(nc[i], k) <==> nl.contains(i as usize)) by {
        let src: int = if i < j { i } else { i + 1 };
        assert(nc[i] == conns[src]);
        assert(touches(conns[src], k) <==> l.contains(src as usize));
        if nl.contains(i as usize) {
            let a = choose|a: int| 0 <= a < nl.len() && nl[a] == i as usize;
            assert(nl[a] == shift_down(w[a], j));
            assert(w.contains(w[a]));
            assert(w[a] != j);
            assert(w[a] == src);
        }
        if l.contains(src as usize) {
            assert(src != j);
            assert(w.contains(src as usize));
            let a = choose|a: int| 0 <= a < w.len() && w[a] == src as usize;
            assert(nl[a] == shift_down(w[a], j));
            assert(nl[a] == i as usize);
        }
    }
}

/// Removing a connection and shifting every list keeps the index consistent.
proof fn lemma_remove_consistent(conns: Seq<Connection>, index: Map<usize, Seq<usize>>, j: usize)
    requires
        index_consistent(conns, index),
        j < conns.len() <= usize::MAX,
    ensures
        index_consistent(
            conns.remove(j as int),
            Map::new(|k: usize| index.contains_key(k), |k: usize| shifted_list(index[k], j)),
        ),
{
    let ni = Map::new(|k: usize| index.contains_key(k), |k: usize| shifted_list(index[k], j));
    let nc = conns.remove(j as int);
    assert forall|k: usize| #[trigger] ni.contains_key(k) implies indexes_exactly(ni[k], nc, k) by {
        lemma_shifted_exact(index[k], conns, k, j);
    }
    assert forall|k: usize, i: int| !ni.contains_key(k) && 0 <= i < nc.len() implies !#[trigger] touches(
        nc[i],
        k,
    ) by {
        let src: int = if i < j { i } else { i + 1 };
        assert(nc[i] == conns[src]);
        assert(!touches(conns[src], k));
    }
}

/// Indexing a new last connection under its two distinct endpoints keeps the index consistent.
proof fn lemma_add_consistent(
    conns: Seq<Connection>,
    index: Map<usize, Seq<usize>>,
    c: Connection,
    new_index: Map<usize, Seq<usize>>,
)
    requires
        index_consistent(conns, index),
        c.to_id matches Some(t) && t != c.from_id,
        ({
            let t = c.to_id->0;
            let n = conns.len() as usize;
            let i1 = index.insert(
                c.from_id,
                if index.contains_key(c.from_id) {
                    index[c.from_id].push(n)
                } else {
                    seq![n]
                },
            );
            new_index == i1.insert(
                t,
                if i1.contains_key(t) {
                    i1[t].push(n)
                } else {
                    seq![n]
                },
            )
        }),
        conns.len() < usize::MAX,
    ensures
        index_consistent(conns.push(c), new_index),
{
    let nc = conns.push(c);
    let n = conns.len() as usize;
    let t = c.to_id->0;
    assert forall|k: usize| #[trigger] new_index.contains_key(k) implies indexes_exactly(new_index[k], nc, k) by {
        let l = new_index[k];
        if k == c.from_id || k == t {
            let old_l = if index.contains_key(k) { index[k] } else { Seq::<usize>::empty() };
            assert(l == old_l.push(n));
            assert forall|i: int| 0 <= i < nc.len() implies (touches(nc[i], k) <==> l.contains(i as usize)) by {
                if i < conns.len() {
                    assert(nc[i] == conns[i]);
                    if index.contains_key(k) {
                        assert(indexes_exactly(index[k], conns, k));
                        if old_l.contains(i as usize) {
                            let w = choose|w: int| 0 <= w < old_l.len() && old_l[w] == i as usize;
                            assert(l[w] == i as usize);
                        }
                        if l.contains(i as usize) {
                            let w = choose|w: int| 0 <= w < l.len() && l[w] == i as usize;
                            if w < old_l.len() {
                                assert(old_l.contains(i as usize));
                            }
                        }
                    } else {
                        assert(!touches(conns[i], k));
                    }
                } else {
                    assert(l[l.len() - 1] == n);
                }
            }
            if index.contains_key(k) {
                assert(indexes_exactly(index[k], conns, k));
            }
        } else {
            assert(index.contains_key(k));
            assert(l == index[k]);
            assert(indexes_exactly(index[k], conns, k));
            assert forall|i: int| 0 <= i < nc.len() implies (touches(nc[i], k) <==> l.contains(i as usize)) by {
                if i < conns.len() {
                    assert(nc[i] == conns[i]);
                } else {
                    if l.contains(i as usize) {
                        let w = choose|w: int| 0 <= w < l.len() && l[w] == i as usize;
                        assert(l[w] < conns.len());
                    }
                }
            }
        }
    }
    assert forall|k: usize, i: int| !new_index.contains_key(k) && 0 <= i < nc.len() implies !#[trigger] touches(
        nc[i],
        k,
    ) by {
        if i < conns.len() {
            assert(nc[i] == conns[i]);
        }
    }
}

/// The connections of a map, the connection being drawn or edited, and
/// for each note the positions of the connections that touch it.
#[derive(PartialEq, Debug)]
pub struct ConnectionsState {
    /// The connections and their index, kept consistent by the methods below.
    pub manager: ConnectionManager,
    /// Connection currently being created or edited by the user.
    pub focused_connection: Option<Connection>,
    /// Original position in the connections vector when a connection was removed for editing.
    pub editing_connection_index: Option<usize>,
}

impl ConnectionsState {
    /// The stored connections, in order.
    pub open spec fn spec_connections(&self) -> Seq<Connection> {
        self.manager.connections_view()
    }

    /// The index: for each note with an entry, the positions of its connections.
    pub open spec fn spec_index(&self) -> Map<usize, Seq<usize>> {
        self.manager.index_view()
    }

    /// The index is consistent with the stored connections.
    pub open spec fn wf(&self) -> bool {
        index_consistent(self.spec_connections(), self.spec_index())
    }

    pub fn new() -> (r: Self)
        ensures
            r.spec_connections() == Seq::<Connection>::empty(),
            r.spec_index() == Map::<usize, Seq<usize>>::empty(),
            r.focused_connection is None,
            r.editing_connection_index is None,
            r.wf(),
    {
        Self { manager: ConnectionManager::new(), focused_connection: None, editing_connection_index: None }
    }

    /// The stored connections, for serialization.
    pub fn connections(&self) -> (r: &[Connection])
        ensures
            r@ == self.spec_connections(),
    {
        self.manager.connections.as_slice()
    }

    /// The index from note IDs to connection positions.
    pub fn connection_index(&self) -> (r: &HashMap<usize, Vec<usize>>)
        ensures
            forall|k: usize| #[trigger] r@.contains_key(k) <==> self.spec_index().contains_key(k),
            forall|k: usize| #[trigger] r@.contains_key(k) ==> r@[k]@ == self.spec_index()[k],
    {
        &self.manager.connection_index
    }

    /// Builds the state from loaded connections: those without an end point
    /// are dropped and the index is rebuilt.
    pub fn from_connections(connections: Vec<Connection>) -> (r: Self)
        ensures
            r.spec_connections() == complete_only(connections@),
            r.focused_connection is None,
            r.editing_connection_index is None,
            no_self_connections(connections@) ==> r.wf(),
    {
        Self {
            manager: ConnectionManager::from_connections(connections),
            focused_connection: None,
            editing_connection_index: None,
        }
    }

    /// The connections of a map file, when none runs from a note to itself:
    /// then the state is built as `from_connections` builds it; otherwise `None`.
    pub fn checked_from_connections(connections: Vec<Connection>) -> (r: Option<Self>)
        ensures
            r is Some <==> no_self_connections(connections@),
            r matches Some(s) ==> {
                &&& s.spec_connections() == complete_only(connections@)
                &&& s.focused_connection is None
                &&& s.editing_connection_index is None
                &&& s.wf()
            },
    {
        let mut i: usize = 0;
        while i < connections.len()
            invariant
                i <= connections@.len(),
                forall|a: int| 0 <= a < i ==> (#[trigger] connections@[a]).to_id != Some(connections@[a].from_id),
            decreases connections@.len() - i,
        {
            let c = &connections[i];
            let self_connected = match c.to_id {
                Some(t) => t == c.from_id,
                None => false,
            };
            if self_connected {
                return None;
            }
            i = i + 1;
        }
        Some(Self::from_connections(connections))
    }

    /// Finalizes the focused connection by adding it to the permanent connections list.
    /// Incomplete connections (missing `to_id`) are discarded.
    pub fn stash_connection(&mut self)
        requires
            old(self).spec_connections().len() < usize::MAX,
        ensures
            final(self).focused_connection is None,
            final(self).spec_connections() == (match old(self).focused_connection {
                Some(c) => if c.to_id is Some {
                    old(self).spec_connections().push(c)
                } else {
                    old(self).spec_connections()
                },
                None => old(self).spec_connections(),
            }),
            final(self).editing_connection_index == old(self).editing_connection_index,
            old(self).wf() && (old(self).focused_connection matches Some(c) ==> c.to_id != Some(
                c.from_id,
            )) ==> final(self).wf(),
    {
        if let Some(connection) = self.focused_connection.take() {
            if connection.to_id.is_some() {
                self.manager.add(connection);
            }
        }
    }

    /// Removes a connection from permanent storage and makes it the focused connection for editing.
    pub fn take_out_connection(&mut self, index: usize)
        requires
            index < old(self).spec_connections().len(),
        ensures
            final(self).focused_connection == Some(old(self).spec_connections()[index as int]),
            final(self).spec_connections() == old(self).spec_connections().remove(index as int),
            final(self).spec_index() == Map::new(
                |k: usize| old(self).spec_index().contains_key(k),
                |k: usize| shifted_list(old(self).spec_index()[k], index),
            ),
            final(self).editing_connection_index == old(self).editing_connection_index,
            old(self).wf() ==> final(self).wf(),
    {
        let connection = self.manager.remove(index);
        self.focused_connection = Some(connection);
    }

    /// Gets the positions of all connections of a note, in increasing order.
    pub fn get_indices_for_note(&self, note_id: usize) -> (r: &[usize])
        ensures
            r@ == (if self.spec_index().contains_key(note_id) {
                self.spec_index()[note_id]
            } else {
                Seq::empty()
            }),
            self.wf() ==> indexes_exactly(r@, self.spec_connections(), note_id),
    {
        self.manager.get_indices_for_note(note_id)
    }

    /// Removes all connections involving the given note.
    /// Returns the number of connections removed.
    pub fn remove_all_for_note(&mut self, note_id: usize) -> (r: usize)
        requires
            old(self).wf(),
        ensures
            final(self).spec_connections() == without_touching(old(self).spec_connections(), note_id),
            r == old(self).spec_connections().len() - final(self).spec_connections().len(),
            r == touching_count(old(self).spec_connections(), note_id),
            final(self).spec_index().contains_key(note_id) ==> final(self).spec_index()[note_id].len() == 0,
            final(self).focused_connection == old(self).focused_connection,
            final(self).editing_connection_index == old(self).editing_connection_index,
            final(self).wf(),
    {
        let r = self.manager.remove_all_for_note(note_id);
        proof {
            lemma_without_touching_len(old(self).spec_connections(), note_id);
            lemma_without_touching_clean(old(self).spec_connections(), note_id);
            let conns = self.spec_connections();
            if self.spec_index().contains_key(note_id) {
                let l = self.spec_index()[note_id];
                assert(indexes_exactly(l, conns, note_id));
                if l.len() > 0 {
                    assert(l.contains(l[0]));
                    assert(touches(conns[l[0] as int], note_id));
                }
            }
        }
        r
    }

    /// Removes all connections of a note and its entry in the index.
    pub fn remove_note(&mut self, note_id: usize)
        requires
            old(self).wf(),
        ensures
            final(self).spec_connections() == without_touching(old(self).spec_connections(), note_id),
            !final(self).spec_index().contains_key(note_id),
            final(self).focused_connection == old(self).focused_connection,
            final(self).editing_connection_index == old(self).editing_connection_index,
            final(self).wf(),
    {
        self.manager.remove_note(note_id);
    }

    /// Gets all connections touching a note (for rendering junction chars).
    pub fn get_connections_for_note(&self, note_id: usize) -> (r: Vec<&Connection>)
        requires
            self.wf(),
        ensures
            ({
                let l = if self.spec_index().contains_key(note_id) {
                    self.spec_index()[note_id]
                } else {
                    Seq::empty()
                };
                &&& r@.len() == l.len()
                &&& forall|a: int| 0 <= a < l.len() ==> *r@[a] == self.spec_connections()[l[a] as int]
            }),
    {
        self.manager.get_connections_for_note(note_id)
    }
}

} // verus!
