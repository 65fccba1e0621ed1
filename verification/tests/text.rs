use qbz::text::{
    append_decimal, append_signed_decimal, lowered_has_text, lowered_is, parse_u64, replace_all,
    same_text, trim,
};

#[test]
fn white_space_is_trimmed_at_both_ends_only() {
    assert_eq!(trim(" \t locked \u{3000}\n"), "locked");
    assert_eq!(trim("a b"), "a b");
    assert_eq!(trim("\u{a0}\u{2028}"), "");
    assert_eq!(trim(""), "");
}

#[test]
fn texts_are_the_same_character_by_character() {
    assert!(same_text("caf\u{e9}", "caf\u{e9}"));
    assert!(!same_text("cafe", "caf\u{e9}"));
    assert!(!same_text("abc", "ab"));
}

#[test]
fn letters_are_lowered_before_a_comparison() {
    assert!(lowered_is("LiNeAr", "linear"));
    assert!(!lowered_is("linear ", "linear"));
    assert!(lowered_has_text("Too Many HEADERS here", "many headers"));
    assert!(!lowered_has_text("many header", "many headers"));
}

#[test]
fn numbers_are_read_as_they_are_spelled() {
    assert_eq!(parse_u64("0"), Some(0));
    assert_eq!(parse_u64("+17"), Some(17));
    assert_eq!(parse_u64("007"), Some(7));
    assert_eq!(parse_u64("18446744073709551615"), Some(u64::MAX));
    for bad in ["", "+", "-1", " 1", "1 ", "1a", "18446744073709551616"] {
        assert_eq!(parse_u64(bad), None, "{bad:?}");
    }
}

#[test]
fn numbers_are_spelled_in_decimal() {
    let mut out = String::from("n=");
    append_decimal(&mut out, 0);
    append_decimal(&mut out, u64::MAX);
    assert_eq!(out, "n=018446744073709551615");
    let mut out = String::new();
    append_signed_decimal(&mut out, -12);
    append_signed_decimal(&mut out, 7);
    append_signed_decimal(&mut out, i32::MIN);
    assert_eq!(out, "-127-2147483648");
}

#[test]
fn every_occurrence_is_replaced_from_the_left() {
    assert_eq!(replace_all("a/$S$/b/$S$", "$S$", "12"), "a/12/b/12");
    assert_eq!(replace_all("aaa", "aa", "b"), "ba");
    assert_eq!(replace_all("none", "$S$", "1"), "none");
}
