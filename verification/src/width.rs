//! The width of text on a terminal.

use unicode_width::UnicodeWidthStr;
use vstd::prelude::*;
use vstd::string::*;

verus! {

/// The number of terminal columns that a text takes, by the rules of the Unicode standard
/// for the width of characters.
pub uninterp spec fn display_width(text: Seq<char>) -> nat;

/// `UnicodeWidthStr::width` of the `unicode-width` crate. The width is taken to depend on
/// the characters of the text alone.
#[verifier::external_body]
pub(crate) fn width_of(text: &str) -> (width: usize)
    ensures
        width == display_width(text@),
{
    UnicodeWidthStr::width(text)
}

/// What is kept of a width when it is stored in sixteen bits.
pub open spec fn stored_width(width: nat) -> u16 {
    (width % 65536) as u16
}

/// Stores a width in sixteen bits.
pub fn store_width(width: usize) -> (stored: u16)
    ensures
        stored == stored_width(width as nat),
{
    (width % 65536) as u16
}

} // verus!
