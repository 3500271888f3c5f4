//! Screen-layout rules: which slice of the list is in view, how option
//! names are padded into a column, and how a text cursor splits a buffer.

use vstd::prelude::*;

use crate::text::{all_ascii, string_push};

verus! {

/// The column width that option names are padded to, in terminal cells.
pub const KIND_COL_WIDTH: usize = 20;

/// The offset of the first list row in view, so that row `selected` is in
/// view: it moves only as far as it must from `current_offset`.
pub open spec fn offset_spec(selected: usize, current_offset: usize, visible: usize) -> int {
    if visible == 0 {
        0
    } else if selected < current_offset {
        selected as int
    } else if selected >= current_offset + visible {
        selected + 1 - visible
    } else {
        current_offset as int
    }
}

pub fn compute_offset(selected: usize, current_offset: usize, visible: usize) -> (r: usize)
    requires
        current_offset + visible <= usize::MAX,
        visible > 0 ==> selected < usize::MAX,
    ensures
        r == offset_spec(selected, current_offset, visible),
        visible > 0 ==> r <= selected < r + visible,
        visible > 0 && current_offset <= selected < current_offset + visible ==> r == current_offset,
{
    if visible == 0 {
        return 0;
    }
    if selected < current_offset {
        selected
    } else if selected >= current_offset + visible {
        selected + 1 - visible
    } else {
        current_offset
    }
}

/// How many terminal cells a text takes, as `unicode_width` measures it.
pub uninterp spec fn display_width(s: Seq<char>) -> usize;

/// `UnicodeWidthStr::width`: the text's display width in terminal cells.
/// Its value is named, not stated.
#[verifier::external_body]
fn str_width(s: &str) -> (w: usize)
    ensures
        w == display_width(s@),
{
    unicode_width::UnicodeWidthStr::width(s)
}

/// `n` spaces.
pub open spec fn spaces(n: nat) -> Seq<char> {
    Seq::new(n, |i: int| ' ')
}

/// `s` followed by as many spaces as bring it to `KIND_COL_WIDTH` cells.
pub open spec fn padded(s: Seq<char>, width: usize) -> Seq<char> {
    if width >= KIND_COL_WIDTH {
        s
    } else {
        s + spaces((KIND_COL_WIDTH - width) as nat)
    }
}

/// Pads a text that takes `width` terminal cells with spaces to
/// `KIND_COL_WIDTH` cells; a text at least that wide is kept as it is.
pub fn pad_to(s: &str, width: usize) -> (r: String)
    ensures
        r@ == padded(s@, width),
{
    let mut r = String::from_str(s);
    if width >= KIND_COL_WIDTH {
        return r;
    }
    let fill = KIND_COL_WIDTH - width;
    let mut i: usize = 0;
    while i < fill
        invariant
            i <= fill,
            fill == KIND_COL_WIDTH - width,
            r@ == s@ + spaces(i as nat),
        decreases fill - i,
    {
        string_push(&mut r, ' ');
        i = i + 1;
        assert(r@ =~= s@ + spaces(i as nat));
    }
    r
}

/// Pads a name with spaces to `KIND_COL_WIDTH` terminal cells, so that the
/// values after it line up.
pub fn pad_kind(s: &str) -> (r: String)
    ensures
        r@ == padded(s@, display_width(s@)),
{
    pad_to(s, str_width(s))
}

/// The three parts a text cursor splits a buffer into: the text before it,
/// the character under it (a space past the end), and the text after it.
pub open spec fn cursor_split(buf: Seq<char>, cursor: usize) -> (Seq<char>, Seq<char>, Seq<char>) {
    if cursor >= buf.len() {
        (buf, seq![' '], Seq::empty())
    } else {
        (
            buf.subrange(0, cursor as int),
            buf.subrange(cursor as int, cursor + 1),
            buf.subrange(cursor + 1, buf.len() as int),
        )
    }
}

/// Splits an ASCII buffer at a text cursor, for drawing the cursor.
pub fn cursor_parts(buf: &str, cursor: usize) -> (r: (String, String, String))
    requires
        all_ascii(buf@),
    ensures
        (r.0@, r.1@, r.2@) == cursor_split(buf@, cursor),
{
    let n = buf.unicode_len();
    proof {
        reveal_strlit(" ");
    }
    if cursor >= n {
        (String::from_str(buf), String::from_str(" "), String::new())
    } else {
        (
            String::from_str(buf.substring_ascii(0, cursor)),
            String::from_str(buf.substring_ascii(cursor, cursor + 1)),
            String::from_str(buf.substring_ascii(cursor + 1, n)),
        )
    }
}

} // verus!
