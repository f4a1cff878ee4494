//! Shared and exclusive borrows of one text value.

use vstd::prelude::*;
use crate::console::{line, show_line};

verus! {

/// Reads `s` through two shared references at once and shows both on one
/// line, with a comma and a space between them. Only after that joint use
/// does it take an exclusive reference to `s`, through which it shows the
/// text once more, this time without ending the line.
pub fn borrowing_with(s: String) -> (shown: String)
    ensures
        shown@ == line(s@ + ", "@ + s@) + s@,
{
    let mut s = s;
    let r1 = &s;
    let r2 = &s;
    let mut joint = r1.clone();
    joint.append(", ");
    joint.append(r2.as_str());
    let mut shown = String::new();
    show_line(&mut shown, joint.as_str());
    let r3 = &mut s;
    shown.append(r3.as_str());
    shown
}

/// The borrowing demonstration on the text `hello`.
pub fn borrowing() -> (shown: String)
    ensures
        shown@ == line("hello, hello"@) + "hello"@,
{
    assert("hello"@ + ", "@ + "hello"@ == "hello, hello"@) by {
        reveal_strlit("hello");
        reveal_strlit(", ");
        reveal_strlit("hello, hello");
    }
    borrowing_with("hello".to_owned())
}

/// Appends the fixed suffix to the caller's text through an exclusive
/// reference.
pub fn change(some_string: &mut String)
    ensures
        final(some_string)@ == old(some_string)@ + ", pushed_string"@,
{
    some_string.append(", pushed_string");
}

} // verus!
