//! Substitutions for characters that have an obvious ASCII counterpart.

use vstd::prelude::*;

verus! {

/// The ASCII stand-in for a punctuation mark that has one: the inverted
/// exclamation mark becomes a plain one.
pub open spec fn spec_unicode_to_ascii(c: char) -> Option<char> {
    if c == '\u{00a1}' {
        Some('!')
    } else {
        None
    }
}

/// Maps a character to its ASCII stand-in, if it has one.
pub fn unicode_to_ascii(c: char) -> (r: Option<char>)
    ensures
        r == spec_unicode_to_ascii(c),
{
    if c == '\u{00a1}' {
        Some('!')
    } else {
        None
    }
}

} // verus!
