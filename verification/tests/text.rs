use ezstripe::text::str_eq;

#[test]
fn equal_strings_are_equal() {
    assert!(str_eq("", ""));
    assert!(str_eq("card_declined", "card_declined"));
    assert!(str_eq("d\u{e9}clin\u{e9}", "d\u{e9}clin\u{e9}"));
}

#[test]
fn different_strings_are_not_equal() {
    assert!(!str_eq("", "a"));
    assert!(!str_eq("a", ""));
    assert!(!str_eq("card_declined", "card_declinee"));
    assert!(!str_eq("card_declined", "card_decline"));
    assert!(!str_eq("Card", "card"));
    assert!(!str_eq("e", "\u{e9}"));
}
