//! Display columns of text on a terminal, measured character by character.

use unicode_width::UnicodeWidthChar;
use vstd::prelude::*;
use vstd::std_specs::iter::IteratorSpec;
use vstd::string::*;

verus! {

/// The width that `unicode_width` gives a character: the number of terminal
/// columns it takes, and no width for a control character.
pub uninterp spec fn char_width(c: char) -> Option<usize>;

/// `UnicodeWidthChar::width` of `unicode_width`: the character's displayed
/// width in columns, depending on the character alone; `None` for a control
/// character.
#[verifier::external_body]
pub(crate) fn measure_char(c: char) -> (width: Option<usize>)
    ensures
        width == char_width(c),
{
    UnicodeWidthChar::width(c)
}

/// The columns that a measured width takes: none where the character has no
/// width.
pub open spec fn columns_of(width: Option<usize>) -> nat {
    match width {
        Some(w) => w as nat,
        None => 0,
    }
}

/// The columns that `text` takes, one character after the other.
pub open spec fn text_columns(text: Seq<char>) -> nat
    decreases text.len(),
{
    if text.len() == 0 {
        0
    } else {
        text_columns(text.drop_last()) + columns_of(char_width(text.last()))
    }
}

/// A column count as a machine integer: the count itself where it fits, else
/// the largest value.
pub open spec fn capped(columns: nat) -> usize {
    if columns <= usize::MAX {
        columns as usize
    } else {
        usize::MAX
    }
}

/// The column reached from `column` after a character of the given width,
/// held at the largest value where the sum does not fit.
pub fn advance_column(column: usize, width: Option<usize>) -> (next: usize)
    ensures
        next == capped(column as nat + columns_of(width)),
{
    match width {
        Some(w) => column.saturating_add(w),
        None => column,
    }
}

/// The columns that the first `count` characters of `text` take, or all of
/// them where `text` has fewer; held at the largest value where the sum does
/// not fit.
pub fn columns_before(text: &str, count: usize) -> (columns: usize)
    ensures
        count <= text@.len() ==> columns == capped(text_columns(text@.take(count as int))),
        count > text@.len() ==> columns == capped(text_columns(text@)),
{
    let mut chars = text.chars();
    let mut seen: usize = 0;
    let mut columns: usize = 0;
    loop
        invariant
            seen <= count,
            seen <= text@.len(),
            chars.remaining() == text@.skip(seen as int),
            columns == capped(text_columns(text@.take(seen as int))),
        decreases text@.len() - seen,
    {
        if seen == count {
            return columns;
        }
        match chars.next() {
            None => {
                proof {
                    assert(text@.take(text@.len() as int) =~= text@);
                }
                return columns;
            },
            Some(c) => {
                proof {
                    assert(text@.take(seen + 1).drop_last() =~= text@.take(seen as int));
                }
                columns = advance_column(columns, measure_char(c));
                seen = seen + 1;
            },
        }
    }
}

} // verus!
