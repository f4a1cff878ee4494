//! Duplicating a text value, handing a duplicate over to another routine,
//! and passing a number by copy.

use vstd::prelude::*;
use crate::console::{line, show_line};
use crate::decimal::{decimal_digits, decimal_text};

verus! {

/// Duplicates `s1` and shows the duplicate, then `s1` itself: the two are
/// independent values with the same content, so both lines hold the text
/// that came in.
pub fn ownership_with(s1: String) -> (shown: String)
    ensures
        shown@ == line(s1@) + line(s1@),
{
    let s2 = s1.clone();
    let mut shown = String::new();
    show_line(&mut shown, s2.as_str());
    show_line(&mut shown, s1.as_str());
    shown
}

/// The duplication demonstration on the text `hello`.
pub fn ownership() -> (shown: String)
    ensures
        shown@ == line("hello"@) + line("hello"@),
{
    ownership_with("hello".to_owned())
}

/// Hands a duplicate of `s` over to [`takes_ownership`] and shows `s`
/// afterwards, then passes `x` to [`makes_copy`] and shows `x` afterwards.
/// Neither call alters the caller's own text or number: each is shown as it
/// was before the call.
pub fn main_call_01_with(s: String, x: u32) -> (shown: String)
    ensures
        shown@ == line(s@) + line(s@) + line(decimal_digits(x as nat)) + line(
            decimal_digits(x as nat),
        ),
{
    let mut shown = takes_ownership(s.clone());
    show_line(&mut shown, s.as_str());
    let copied = makes_copy(x);
    shown.append(copied.as_str());
    let number = decimal_text(x);
    show_line(&mut shown, number.as_str());
    shown
}

/// The hand-over demonstration on the text `hello` and the number 65.
pub fn main_call_01() -> (shown: String)
    ensures
        shown@ == line("hello"@) + line("hello"@) + line("65"@) + line("65"@),
{
    assert(decimal_digits(65) == "65"@) by {
        reveal_strlit("65");
        reveal_with_fuel(decimal_digits, 2);
    }
    main_call_01_with("hello".to_owned(), 65)
}

/// Takes the text over from the caller and shows it on a line of its own.
pub fn takes_ownership(some_string: String) -> (shown: String)
    ensures
        shown@ == line(some_string@),
{
    let mut shown = String::new();
    show_line(&mut shown, some_string.as_str());
    shown
}

/// Receives a copy of the number and shows it, in decimal notation, on a
/// line of its own.
pub fn makes_copy(some_integer: u32) -> (shown: String)
    ensures
        shown@ == line(decimal_digits(some_integer as nat)),
{
    let number = decimal_text(some_integer);
    let mut shown = String::new();
    show_line(&mut shown, number.as_str());
    shown
}

} // verus!
