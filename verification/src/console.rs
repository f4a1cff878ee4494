//! The text that a routine shows, kept in a `String` that the caller prints.

use vstd::prelude::*;

verus! {

/// `text` followed by the line break that ends a shown line.
pub open spec fn line(text: Seq<char>) -> Seq<char> {
    text.push('\n')
}

/// Adds `text` to `shown` as one complete line.
pub fn show_line(shown: &mut String, text: &str)
    ensures
        final(shown)@ == old(shown)@ + line(text@),
{
    proof {
        reveal_strlit("\n");
    }
    shown.append(text);
    shown.append("\n");
}

} // verus!
