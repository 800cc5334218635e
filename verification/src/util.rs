//! Text helpers of the command line tool: display widths and padding.
use vstd::prelude::*;
use unicode_width::UnicodeWidthStr;
use crate::text::{push_repeat, repeat_char};

verus! {

/// The number of terminal columns that `unicode_width` gives a string when
/// ambiguous-width characters count as wide.
pub uninterp spec fn cjk_width(s: Seq<char>) -> usize;

/// The number of terminal columns a string takes, ambiguous-width
/// characters counted as wide.
pub fn char_width(value: &str) -> (r: usize)
    ensures
        r == cjk_width(value@),
{
    width_cjk_of(value)
}

/// A wrapper for `unicode_width::UnicodeWidthStr::width_cjk`. Its result is
/// only named: it depends on the string alone, and the Unicode width tables
/// behind it are not restated.
#[verifier::external_body]
fn width_cjk_of(value: &str) -> (r: usize)
    ensures
        r == cjk_width(value@),
{
    UnicodeWidthStr::width_cjk(value)
}

/// `len` copies of `ch`.
pub fn padding(ch: char, len: u16) -> (r: String)
    ensures
        r@ == repeat_char(ch, len as nat),
{
    let mut s = String::new();
    push_repeat(&mut s, ch, len as usize);
    assert(s@ =~= repeat_char(ch, len as nat));
    s
}

} // verus!
