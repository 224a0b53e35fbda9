use vstd::prelude::*;
use vstd::string::*;

use crate::color::Color;
use crate::graph::{Node, NodeLayout};
use crate::text::{display_width, str_width};

verus! {

/// The app-specific payload stored inside a graph node.
#[derive(PartialEq, Debug)]
pub struct NoteData {
    pub content: String,
    pub color: Color,
    /// Whether the note is the selected one (drawn highlighted).
    pub selected: bool,
}

impl NoteData {
    pub fn new(content: String, color: Color) -> (r: Self)
        ensures
            r.content == content,
            r.color == color,
            !r.selected,
    {
        Self { content, color, selected: false }
    }
}

/// A note is a graph node whose data is NoteData.
pub type Note = Node<NoteData>;

/// The pieces of a text between newline characters: one more piece than
/// there are newlines, the last one possibly empty.
pub open spec fn newline_pieces(s: Seq<char>) -> Seq<Seq<char>>
    decreases s.len(),
{
    if s.len() == 0 {
        seq![Seq::empty()]
    } else {
        let p = newline_pieces(s.drop_last());
        if s.last() == '\n' {
            p.push(Seq::empty())
        } else {
            p.update(p.len() - 1, p.last().push(s.last()))
        }
    }
}

/// A line without the carriage return that may end it.
pub open spec fn strip_cr(l: Seq<char>) -> Seq<char> {
    if l.len() > 0 && l.last() == '\r' {
        l.drop_last()
    } else {
        l
    }
}

/// The lines of a text as `str::lines` yields them: the newline pieces
/// without a final empty piece, each without a trailing carriage return.
pub open spec fn text_lines(s: Seq<char>) -> Seq<Seq<char>> {
    let p = newline_pieces(s);
    let q = if p.last().len() == 0 {
        p.drop_last()
    } else {
        p
    };
    q.map_values(|l: Seq<char>| strip_cr(l))
}

/// The widest of the lines (0 when there are none).
pub open spec fn max_line_width(ls: Seq<Seq<char>>) -> usize
    decreases ls.len(),
{
    if ls.len() == 0 {
        0
    } else {
        let m = max_line_width(ls.drop_last());
        let w = display_width(ls.last());
        if w > m {
            w
        } else {
            m
        }
    }
}

/// The size of a note: at least 20 columns wide (with borders), one more
/// column for the cursor, and at least 4 rows high (with borders). The
/// additions wrap around as `u16` arithmetic does in a release build.
pub open spec fn spec_enforce_note_dimensions(width: u16, height: u16) -> (u16, u16) {
    let w = vstd::wrapping::u16_specs::wrapping_add(width, 2);
    let w = if w >= 20 {
        w
    } else {
        20
    };
    let h = vstd::wrapping::u16_specs::wrapping_add(height, 2);
    let h = if h >= 4 {
        h
    } else {
        4
    };
    (vstd::wrapping::u16_specs::wrapping_add(w, 1), h)
}

/// The rendered size of a note whose text is `s`: its widest line by height
/// of one row per newline piece, with borders, minimum and cursor space.
pub open spec fn note_dimensions(s: Seq<char>) -> (u16, u16) {
    spec_enforce_note_dimensions(
        (max_line_width(text_lines(s)) % 0x10000) as u16,
        (newline_pieces(s).len() % 0x10000) as u16,
    )
}

/// Adds borders, minimum size and cursor space to a text size.
pub fn enforce_note_dimensions(width: u16, height: u16) -> (r: (u16, u16))
    ensures
        r == spec_enforce_note_dimensions(width, height),
{
    let w = width.wrapping_add(2);
    let w = if w >= 20 {
        w
    } else {
        20
    };
    let h = height.wrapping_add(2);
    let h = if h >= 4 {
        h
    } else {
        4
    };
    (w.wrapping_add(1), h)
}

proof fn lemma_pieces_nonempty(s: Seq<char>)
    ensures
        newline_pieces(s).len() >= 1,
    decreases s.len(),
{
    if s.len() > 0 {
        lemma_pieces_nonempty(s.drop_last());
    }
}

/// The width of a line as `str::lines` gives it, without its carriage return.
fn line_width(content: &str, start: usize, end: usize) -> (r: usize)
    requires
        start <= end <= content@.len(),
    ensures
        r == display_width(strip_cr(content@.subrange(start as int, end as int))),
{
    let stripped_end = if end > start && content.get_char(end - 1) == '\r' {
        end - 1
    } else {
        end
    };
    proof {
        let l = content@.subrange(start as int, end as int);
        if end > start && content@[end - 1] == '\r' {
            assert(l.drop_last() =~= content@.subrange(start as int, stripped_end as int));
        } else {
            assert(l =~= content@.subrange(start as int, stripped_end as int));
        }
    }
    str_width(content.substring_char(start, stripped_end))
}

/// The text size (widest line, number of lines) of a note's content.
fn text_size(content: &str) -> (r: (u16, u16))
    ensures
        r == ((max_line_width(text_lines(content@)) % 0x10000) as u16, (newline_pieces(content@).len()
            % 0x10000) as u16),
{
    let ghost s = content@;
    let n = content.unicode_len();
    let mut i: usize = 0;
    let mut start: usize = 0;
    let mut max_w: usize = 0;
    let mut h: u16 = 1;
    proof {
        assert(s.take(0) =~= Seq::<char>::empty());
    }
    while i < n
        invariant
            n == s.len(),
            s == content@,
            start <= i <= n,
            newline_pieces(s.take(i as int)).last() =~= s.subrange(start as int, i as int),
            h as int == newline_pieces(s.take(i as int)).len() % 0x10000,
            max_w == max_line_width(
                newline_pieces(s.take(i as int)).drop_last().map_values(|l: Seq<char>| strip_cr(l)),
            ),
        decreases n - i,
    {
        let c = content.get_char(i);
        let ghost p = newline_pieces(s.take(i as int));
        proof {
            lemma_pieces_nonempty(s.take(i as int));
            assert(s.take(i + 1).drop_last() =~= s.take(i as int));
            assert(s.take(i + 1).last() == c);
        }
        if c == '\n' {
            let w = line_width(content, start, i);
            proof {
                let f = |l: Seq<char>| strip_cr(l);
                let p2 = newline_pieces(s.take(i + 1));
                assert(p2 == p.push(Seq::empty()));
                assert(p2.drop_last() =~= p);
                assert(p.map_values(f).drop_last() =~= p.drop_last().map_values(f));
                assert(p.map_values(f).last() == strip_cr(p.last()));
            }
            if w > max_w {
                max_w = w;
            }
            proof {
                let p2 = newline_pieces(s.take(i + 1));
                assert(p2.len() == p.len() + 1);
                assert((p.len() + 1) % 0x10000 == if h == 0xffff { 0 } else { h + 1 }) by {
                    assert(h as int == p.len() % 0x10000);
                    vstd::arithmetic::div_mod::lemma_add_mod_noop(p.len() as int, 1, 0x10000);
                }
            }
            h = h.wrapping_add(1);
            start = i + 1;
            proof {
                let p2 = newline_pieces(s.take(i + 1));
                assert(p2.last() =~= s.subrange(start as int, i + 1));
            }
        } else {
            proof {
                let p2 = newline_pieces(s.take(i + 1));
                assert(p2.drop_last() =~= p.drop_last());
                assert(p2.last() =~= s.subrange(start as int, i + 1));
            }
        }
        i = i + 1;
    }
    proof {
        lemma_pieces_nonempty(s);
        assert(s.take(n as int) =~= s);
    }
    let ghost p = newline_pieces(s);
    let ghost f = |l: Seq<char>| strip_cr(l);
    if start < n {
        let w = line_width(content, start, n);
        proof {
            assert(p.map_values(f).drop_last() =~= p.drop_last().map_values(f));
            assert(p.last().len() > 0);
        }
        if w > max_w {
            max_w = w;
        }
    } else {
        proof {
            assert(p.last().len() == 0);
        }
    }
    ((max_w % 0x10000) as u16, h)
}

/// The number of characters of each line of a text, as `str::lines` splits it.
pub open spec fn line_lengths(s: Seq<char>) -> Seq<usize> {
    text_lines(s).map_values(|l: Seq<char>| l.len() as usize)
}

/// The character count of each line of `content`, as `str::lines` splits it.
pub fn text_line_lengths(content: &str) -> (r: Vec<usize>)
    ensures
        r@ == line_lengths(content@),
{
    let ghost s = content@;
    let ghost g = |l: Seq<char>| strip_cr(l).len() as usize;
    let n = content.unicode_len();
    let mut i: usize = 0;
    let mut start: usize = 0;
    let mut r: Vec<usize> = Vec::new();
    proof {
        assert(s.take(0) =~= Seq::<char>::empty());
        assert(newline_pieces(s.take(0)).drop_last() =~= Seq::<Seq<char>>::empty());
    }
    while i < n
        invariant
            n == s.len(),
            s == content@,
            start <= i <= n,
            g == (|l: Seq<char>| strip_cr(l).len() as usize),
            newline_pieces(s.take(i as int)).last() =~= s.subrange(start as int, i as int),
            r@ == newline_pieces(s.take(i as int)).drop_last().map_values(g),
        decreases n - i,
    {
        let c = content.get_char(i);
        let ghost p = newline_pieces(s.take(i as int));
        proof {
            lemma_pieces_nonempty(s.take(i as int));
            assert(s.take(i + 1).drop_last() =~= s.take(i as int));
            assert(s.take(i + 1).last() == c);
        }
        if c == '\n' {
            let stripped_end = if i > start && content.get_char(i - 1) == '\r' {
                i - 1
            } else {
                i
            };
            proof {
                let l = s.subrange(start as int, i as int);
                if i > start && s[i - 1] == '\r' {
                    assert(l.drop_last() =~= s.subrange(start as int, stripped_end as int));
                } else {
                    assert(l =~= s.subrange(start as int, stripped_end as int));
                }
                assert(strip_cr(l).len() == stripped_end - start);
            }
            r.push(stripped_end - start);
            proof {
                let p2 = newline_pieces(s.take(i + 1));
                assert(p2 == p.push(Seq::empty()));
                assert(p2.drop_last() =~= p);
                assert(p.drop_last().push(p.last()) =~= p);
                assert(r@ =~= p.map_values(g));
            }
            start = i + 1;
            proof {
                let p2 = newline_pieces(s.take(i + 1));
                assert(p2.last() =~= s.subrange(start as int, i + 1));
            }
        } else {
            proof {
                let p2 = newline_pieces(s.take(i + 1));
                assert(p2.drop_last() =~= p.drop_last());
                assert(p2.last() =~= s.subrange(start as int, i + 1));
            }
        }
        i = i + 1;
    }
    proof {
        lemma_pieces_nonempty(s);
        assert(s.take(n as int) =~= s);
    }
    let ghost p = newline_pieces(s);
    if start < n {
        let stripped_end = if content.get_char(n - 1) == '\r' {
            n - 1
        } else {
            n
        };
        proof {
            let l = s.subrange(start as int, n as int);
            if s[n - 1] == '\r' {
                assert(l.drop_last() =~= s.subrange(start as int, stripped_end as int));
            } else {
                assert(l =~= s.subrange(start as int, stripped_end as int));
            }
            assert(strip_cr(l).len() == stripped_end - start);
        }
        r.push(stripped_end - start);
        proof {
            assert(p.last().len() > 0);
            assert(p.drop_last().push(p.last()) =~= p);
            assert(r@ =~= p.map_values(g));
            assert(line_lengths(s) =~= p.map_values(g));
        }
    } else {
        proof {
            assert(p.last().len() == 0);
            assert(line_lengths(s) =~= p.drop_last().map_values(g));
        }
    }
    r
}

/// NoteData knows how large it renders. Position-dependent geometry
/// (connection_point) is handled by Node<T: NodeLayout>.
impl NodeLayout for NoteData {
    open spec fn spec_dimensions(&self) -> (u16, u16) {
        note_dimensions(self.content@)
    }

    fn dimensions(&self) -> (r: (u16, u16)) {
        let (width, height) = text_size(self.content.as_str());
        enforce_note_dimensions(width, height)
    }
}

} // verus!
