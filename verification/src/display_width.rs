//! Display width: how many terminal cells a run of characters occupies.

use unicode_width::UnicodeWidthChar;
use vstd::prelude::*;

verus! {

/// The answer of `unicode_width::UnicodeWidthChar::width` for `c`: the number
/// of columns the character is displayed in, or `None` for a control
/// character. The answer is read from the Unicode tables compiled into that
/// crate and depends on the character alone.
pub uninterp spec fn unicode_width_of(c: char) -> Option<usize>;

/// Terminal cells occupied by `c`. A character without a reported width
/// occupies none.
pub open spec fn cells(c: char) -> nat {
    match unicode_width_of(c) {
        Some(w) => w as nat,
        None => 0,
    }
}

/// Terminal cells occupied by all of `chars`, laid out side by side.
pub open spec fn total_cells(chars: Seq<char>) -> nat
    decreases chars.len(),
{
    if chars.len() == 0 {
        0
    } else {
        total_cells(chars.drop_last()) + cells(chars.last())
    }
}

/// Calls `unicode_width::UnicodeWidthChar::width` on `c`.
///
/// Trusted: the result is the value named [`unicode_width_of`]; nothing else
/// is claimed about it.
#[verifier::external_body]
pub(crate) fn reported_width(c: char) -> (w: Option<usize>)
    ensures
        w == unicode_width_of(c),
{
    UnicodeWidthChar::width(c)
}

/// Terminal cells occupied by `c`.
pub fn cell_count(c: char) -> (w: usize)
    ensures
        w == cells(c),
{
    match reported_width(c) {
        Some(w) => w,
        None => 0,
    }
}

/// One more character adds its own cells to the total.
pub proof fn lemma_total_cells_push(chars: Seq<char>, c: char)
    ensures
        total_cells(chars.push(c)) == total_cells(chars) + cells(c),
{
    assert(chars.push(c).drop_last() =~= chars);
}

/// A prefix never occupies more cells than the whole.
pub proof fn lemma_total_cells_prefix(chars: Seq<char>, n: int)
    requires
        0 <= n <= chars.len(),
    ensures
        total_cells(chars.take(n)) <= total_cells(chars),
    decreases chars.len() - n,
{
    if n == chars.len() {
        assert(chars.take(n) =~= chars);
    } else {
        assert(chars.take(n + 1).drop_last() =~= chars.take(n));
        lemma_total_cells_prefix(chars, n + 1);
    }
}

} // verus!
