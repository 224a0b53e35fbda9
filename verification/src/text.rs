//! Text measurement and segmentation, and path composition.
//!
//! The display width of text comes from `unicode-width`, its grapheme
//! clusters from `unicode-segmentation`, and path composition from
//! `std::path`; each is reached through one trusted wrapper below.

use std::path::Path;
use unicode_segmentation::UnicodeSegmentation;
use unicode_width::UnicodeWidthStr;
use vstd::prelude::*;
use vstd::string::*;

verus! {

/// The number of terminal columns that `unicode-width` gives a text.
pub uninterp spec fn display_width(s: Seq<char>) -> usize;

/// The extended grapheme clusters of a text, as `unicode-segmentation` splits it.
pub uninterp spec fn grapheme_clusters(s: Seq<char>) -> Seq<Seq<char>>;

/// The path that `std::path::Path::join` makes of a base and a further path
/// on Unix: an absolute second path replaces the base; otherwise the second
/// path follows the base, with a `/` between them where the base is not
/// empty and does not already end in one.
pub open spec fn joined_path(base: Seq<char>, rel: Seq<char>) -> Seq<char> {
    if rel.len() > 0 && rel[0] == '/' {
        rel
    } else if base.len() > 0 && base.last() != '/' {
        base + seq!['/'] + rel
    } else {
        base + rel
    }
}

/// The path that `std::path::Path::with_extension` makes of a path and an extension.
pub uninterp spec fn path_with_extension(path: Seq<char>, ext: Seq<char>) -> Seq<char>;

/// The texts of `p` between its slashes, in order, empty ones included.
pub open spec fn slash_parts(p: Seq<char>) -> Seq<Seq<char>>
    decreases p.len(),
{
    if p.len() == 0 {
        seq![Seq::empty()]
    } else {
        let init = slash_parts(p.drop_last());
        if p.last() == '/' {
            init.push(Seq::empty())
        } else {
            init.update(init.len() - 1, init.last().push(p.last()))
        }
    }
}

/// The components of a path as `std::path::Path` reads them on Unix: the
/// root (written `/`) where the path starts with a slash, a leading `.` of a
/// relative path, then the parts between slashes that are neither empty nor `.`.
pub open spec fn path_components(p: Seq<char>) -> Seq<Seq<char>> {
    let parts = slash_parts(p);
    let rooted = p.len() > 0 && p[0] == '/';
    let root: Seq<Seq<char>> = if rooted { seq![seq!['/']] } else { Seq::empty() };
    let lead: Seq<Seq<char>> = if !rooted && parts[0] == seq!['.'] { seq![seq!['.']] } else { Seq::empty() };
    root + lead + parts.filter(|s: Seq<char>| s.len() > 0 && s != seq!['.'])
}

/// Whether `std::path::Path` compares the two paths equal: component by component.
pub open spec fn same_path(a: Seq<char>, b: Seq<char>) -> bool {
    path_components(a) == path_components(b)
}

/// The concatenation of a sequence of texts.
pub open spec fn concat_all(parts: Seq<Seq<char>>) -> Seq<char>
    decreases parts.len(),
{
    if parts.len() == 0 {
        Seq::empty()
    } else {
        concat_all(parts.drop_last()) + parts.last()
    }
}

/// Calls `UnicodeWidthStr::width`: the contract names its result
/// `display_width` and claims nothing else of it.
#[verifier::external_body]
pub(crate) fn str_width(s: &str) -> (r: usize)
    ensures
        r == display_width(s@),
{
    s.width()
}

/// Calls `UnicodeSegmentation::graphemes(s, true)` and collects the clusters.
/// The contract names the split `grapheme_clusters` and states what the
/// crate's iterator shows: the clusters are non-empty consecutive slices of
/// `s` from its start to its end, so that they concatenate back to `s`.
#[verifier::external_body]
pub(crate) fn graphemes(s: &str) -> (r: Vec<String>)
    ensures
        r@.len() == grapheme_clusters(s@).len(),
        forall|i: int| 0 <= i < r@.len() ==> (#[trigger] r@[i])@ == grapheme_clusters(s@)[i],
        forall|i: int| 0 <= i < r@.len() ==> (#[trigger] r@[i])@.len() > 0,
        concat_all(r@.map_values(|g: String| g@)) == s@,
{
    s.graphemes(true).map(|g| g.to_string()).collect()
}

/// Calls `Path::join` on UTF-8 paths. The contract states what `PathBuf::push`
/// does on Unix, the platform this library is built for (Windows prefixes
/// and verbatim paths are not covered); the UTF-8 conversion back is lossless.
#[verifier::external_body]
pub(crate) fn path_join(base: &str, rel: &str) -> (r: String)
    ensures
        r@ == joined_path(base@, rel@),
{
    Path::new(base).join(rel).to_string_lossy().into_owned()
}

/// Calls `Path::with_extension` on a UTF-8 path; the result is named
/// `path_with_extension`. `PathBuf::set_extension`, which it uses, panics on
/// an extension that holds a path separator, so such extensions are excluded.
#[verifier::external_body]
pub(crate) fn with_extension(path: &str, ext: &str) -> (r: String)
    requires
        !ext@.contains('/'),
    ensures
        r@ == path_with_extension(path@, ext@),
{
    Path::new(path).with_extension(ext).to_string_lossy().into_owned()
}

/// Calls `PartialEq::eq` of `Path`, which compares the two paths component
/// by component. The contract states the components as Unix reads them, the
/// platform this library is built for (Windows prefixes are not covered).
#[verifier::external_body]
pub(crate) fn paths_equal(a: &str, b: &str) -> (r: bool)
    ensures
        r == same_path(a@, b@),
{
    Path::new(a) == Path::new(b)
}

/// Calls `String::push`: the character is appended.
#[verifier::external_body]
pub(crate) fn push_char(s: &mut String, c: char)
    ensures
        final(s)@ == old(s)@.push(c),
{
    s.push(c)
}

/// Whether two texts are equal, character by character.
pub fn str_eq(a: &str, b: &str) -> (r: bool)
    ensures
        r == (a@ == b@),
{
    let n = a.unicode_len();
    if n != b.unicode_len() {
        return false;
    }
    let mut i: usize = 0;
    while i < n
        invariant
            n == a@.len() == b@.len(),
            i <= n,
            forall|j: int| 0 <= j < i ==> a@[j] == b@[j],
        decreases n - i,
    {
        if a.get_char(i) != b.get_char(i) {
            return false;
        }
        i = i + 1;
    }
    proof {
        assert(a@ =~= b@);
    }
    true
}

} // verus!
