//! The prompt's text field as it is drawn: masking for secret prompts, the
//! horizontal window that keeps the cursor visible in a narrow field, and
//! the split of the visible text into the parts before, under and after the
//! cursor. Turning these plain values into styled terminal cells is the
//! rendering backend's business.
use vstd::prelude::*;
use crate::util::copy_vec;

verus! {

/// A drawn single-line field: the visible characters before the cursor,
/// the character shown in the cursor cell, and the visible characters
/// after it.
pub struct FieldView {
    pub before: Vec<char>,
    pub at: char,
    pub after: Vec<char>,
}

/// The mask of a text: one mask glyph per character, as long as the text.
pub open spec fn masked(s: Seq<char>) -> Seq<char> {
    Seq::new(s.len(), |i: int| '*')
}

/// One mask glyph per character of the text.
pub fn mask_text(s: &Vec<char>) -> (r: Vec<char>)
    ensures
        r@ == masked(s@),
{
    let mut r: Vec<char> = Vec::new();
    let n = s.len();
    for i in 0..n
        invariant
            n == s@.len(),
            r@.len() == i,
            forall|j: int| 0 <= j < i ==> r@[j] == '*',
    {
        r.push('*');
    }
    proof {
        assert(r@ =~= masked(s@));
    }
    r
}

/// The visible text from `off` on.
fn tail_from(v: &Vec<char>, off: usize) -> (r: Vec<char>)
    requires
        off <= v@.len(),
    ensures
        r@ == v@.skip(off as int),
{
    let mut r: Vec<char> = Vec::new();
    let n = v.len();
    let mut i: usize = off;
    while i < n
        invariant
            n == v@.len(),
            off <= i <= n,
            r@ == v@.subrange(off as int, i as int),
        decreases n - i,
    {
        r.push(v[i]);
        proof {
            assert(r@ =~= v@.subrange(off as int, i + 1));
        }
        i = i + 1;
    }
    proof {
        assert(r@ =~= v@.skip(off as int));
    }
    r
}

/// Split the visible text at the cursor; the cursor cell shows the
/// character under it, or a space when the cursor sits past the end.
pub fn add_cursor(s: &Vec<char>, c: usize) -> (r: FieldView)
    requires
        c <= s@.len(),
    ensures
        r.before@ == s@.subrange(0, c as int),
        r.at == (if c < s@.len() {
            s@[c as int]
        } else {
            ' '
        }),
        r.after@ == (if c < s@.len() {
            s@.subrange(c as int + 1, s@.len() as int)
        } else {
            Seq::<char>::empty()
        }),
{
    let before = prefix_to(s, c);
    if c < s.len() {
        FieldView { before, at: s[c], after: tail_from(s, c + 1) }
    } else {
        FieldView { before, at: ' ', after: Vec::new() }
    }
}

/// Split the visible (masked) text at the cursor, but show the given
/// underlying character in the cursor cell.
pub fn add_reveal_cursor(s: &Vec<char>, c: usize, cc: char) -> (r: FieldView)
    requires
        c <= s@.len(),
    ensures
        r.before@ == s@.subrange(0, c as int),
        r.at == cc,
        r.after@ == (if c < s@.len() {
            s@.subrange(c as int + 1, s@.len() as int)
        } else {
            Seq::<char>::empty()
        }),
{
    let before = prefix_to(s, c);
    if c < s.len() {
        FieldView { before, at: cc, after: tail_from(s, c + 1) }
    } else {
        FieldView { before, at: cc, after: Vec::new() }
    }
}

/// The visible text up to `c`.
fn prefix_to(v: &Vec<char>, c: usize) -> (r: Vec<char>)
    requires
        c <= v@.len(),
    ensures
        r@ == v@.subrange(0, c as int),
{
    let mut r: Vec<char> = Vec::new();
    for i in 0..c
        invariant
            c <= v@.len(),
            r@ == v@.subrange(0, i as int),
    {
        r.push(v[i]);
        proof {
            assert(r@ =~= v@.subrange(0, i + 1));
        }
    }
    r
}

/// How far the visible window scrolls: once the field is narrower than the
/// text and the cursor has moved past it, the window starts so that the
/// cursor stays within the last few columns.
pub open spec fn window_offset(len: int, cursor: int, cols: int) -> int {
    if cols < len + 3 && cursor > cols {
        cursor - cols + 3
    } else {
        0
    }
}

/// The drawn field for a text, cursor and width: the window scrolls by
/// `window_offset`, a secret field shows mask glyphs everywhere but the
/// cursor cell, and the cursor cell shows the character under the cursor
/// itself (a space when the cursor sits past the end of the text).
pub open spec fn rendered_spec(
    secret: bool,
    value: Seq<char>,
    cursor: int,
    cols: int,
    r: FieldView,
) -> bool {
    let off = window_offset(value.len() as int, cursor, cols);
    let visible = if secret {
        masked(value).skip(off)
    } else {
        value.skip(off)
    };
    let c2 = cursor - off;
    &&& r.before@ == visible.subrange(0, c2)
    &&& r.at == (if secret {
        if cursor < value.len() {
            value[cursor]
        } else {
            ' '
        }
    } else {
        if c2 < visible.len() {
            visible[c2]
        } else {
            ' '
        }
    })
    &&& r.after@ == (if c2 < visible.len() {
        visible.subrange(c2 + 1, visible.len() as int)
    } else {
        Seq::<char>::empty()
    })
}

/// The text-field widget: all it carries is whether the entered characters
/// are masked on render.
#[derive(Clone, Copy)]
pub struct Input {
    pub secret: bool,
}

impl Input {
    pub fn new(secret: bool) -> (r: Self)
        ensures
            r.secret == secret,
    {
        Input { secret }
    }

    /// Compute the drawn field for the current editor state and the
    /// available width. A cursor already inside the field needs no
    /// scrolling; a scrolled window presumes at least the few columns the
    /// cursor is kept within.
    pub fn rendered(&self, cursor: usize, value: &Vec<char>, cols: usize) -> (r: FieldView)
        requires
            cursor <= value@.len(),
            cursor > cols ==> cols >= 3,
        ensures
            rendered_spec(self.secret, value@, cursor as int, cols as int, r),
    {
        let val = if self.secret {
            mask_text(value)
        } else {
            copy_vec(value)
        };
        let scroll = (cols < 3 || cols - 3 < val.len()) && cursor > cols;
        let offset: usize = if scroll {
            cursor - cols + 3
        } else {
            0
        };
        proof {
            assert(offset as int == window_offset(value@.len() as int, cursor as int, cols as int));
        }
        let slice = tail_from(&val, offset);
        let c2 = cursor - offset;
        if self.secret {
            let cc = if cursor < value.len() {
                value[cursor]
            } else {
                ' '
            };
            add_reveal_cursor(&slice, c2, cc)
        } else {
            add_cursor(&slice, c2)
        }
    }
}

/// Secrecy of a drawn secret field: the mask is exactly as long as the
/// text, every masked cell is a mask glyph, and every visible character
/// left or right of the cursor is a mask glyph — no entered character shows
/// anywhere but the single cursor cell.
pub proof fn lemma_secret_masks(value: Seq<char>, cursor: int, cols: int, r: FieldView)
    requires
        0 <= cursor <= value.len(),
        cursor > cols ==> cols >= 3,
        rendered_spec(true, value, cursor, cols, r),
    ensures
        masked(value).len() == value.len(),
        forall|i: int| 0 <= i < masked(value).len() ==> masked(value)[i] == '*',
        forall|i: int| 0 <= i < r.before@.len() ==> r.before@[i] == '*',
        forall|i: int| 0 <= i < r.after@.len() ==> r.after@[i] == '*',
{
}

} // verus!
