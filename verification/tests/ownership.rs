use ownership_demo::ownership::{
    main_call_01, main_call_01_with, makes_copy, ownership, ownership_with, takes_ownership,
};

#[test]
fn ownership_shows_hello_twice() {
    assert_eq!(ownership(), "hello\nhello\n");
}

#[test]
fn ownership_with_shows_the_text_once_for_each_owner() {
    assert_eq!(ownership_with(String::from("hello")), "hello\nhello\n");
    assert_eq!(ownership_with(String::from("a b")), "a b\na b\n");
}

#[test]
fn ownership_with_empty_text_shows_two_empty_lines() {
    assert_eq!(ownership_with(String::new()), "\n\n");
}

#[test]
fn ownership_with_keeps_text_outside_ascii() {
    assert_eq!(ownership_with(String::from("héllo ✓")), "héllo ✓\nhéllo ✓\n");
}

#[test]
fn main_call_01_shows_the_text_twice_and_the_number_twice() {
    assert_eq!(main_call_01(), "hello\nhello\n65\n65\n");
}

#[test]
fn main_call_01_with_hello_and_65() {
    assert_eq!(
        main_call_01_with(String::from("hello"), 65),
        "hello\nhello\n65\n65\n"
    );
}

#[test]
fn main_call_01_with_the_smallest_and_the_largest_number() {
    assert_eq!(main_call_01_with(String::from("x"), 0), "x\nx\n0\n0\n");
    assert_eq!(
        main_call_01_with(String::new(), u32::MAX),
        "\n\n4294967295\n4294967295\n"
    );
}

#[test]
fn takes_ownership_shows_its_argument_on_one_line() {
    assert_eq!(takes_ownership(String::from("hello")), "hello\n");
    assert_eq!(takes_ownership(String::new()), "\n");
}

#[test]
fn a_duplicate_handed_over_leaves_the_callers_text_usable() {
    let s = String::from("hello");
    let shown = takes_ownership(s.clone());
    assert_eq!(shown, "hello\n");
    assert_eq!(s, "hello");
}

#[test]
fn makes_copy_shows_the_number_in_decimal() {
    assert_eq!(makes_copy(65), "65\n");
    assert_eq!(makes_copy(0), "0\n");
    assert_eq!(makes_copy(1000), "1000\n");
}

#[test]
fn a_number_passed_on_is_unchanged_afterwards() {
    let x: u32 = 65;
    let shown = makes_copy(x);
    assert_eq!(shown, "65\n");
    assert_eq!(x, 65);
}
