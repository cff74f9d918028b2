use switchboard_core::text::{
    chars_of, decimal_text, digit_char, eq_ignore_case, escape_single_quotes, lower_char, quote,
    to_lower,
};

#[test]
fn chars_of_keeps_order_and_unicode() {
    assert_eq!(chars_of(""), Vec::<char>::new());
    assert_eq!(chars_of("aé\n"), vec!['a', 'é', '\n']);
}

#[test]
fn lower_folds_ascii_letters_only() {
    assert_eq!(lower_char('A'), 'a');
    assert_eq!(lower_char('Z'), 'z');
    assert_eq!(lower_char('a'), 'a');
    assert_eq!(lower_char('@'), '@');
    assert_eq!(lower_char('['), '[');
    assert_eq!(lower_char('É'), 'É');
    assert_eq!(to_lower("LocalHOST.1"), "localhost.1");
    assert_eq!(to_lower("ÄB"), "Äb");
    assert_eq!(to_lower(""), "");
}

#[test]
fn eq_ignore_case_compares_folded_texts() {
    assert!(eq_ignore_case("LOCAL", "local"));
    assert!(eq_ignore_case("", ""));
    assert!(!eq_ignore_case("local", "locals"));
    assert!(!eq_ignore_case("É", "é"));
}

#[test]
fn single_quotes_are_escaped_for_the_shell() {
    assert_eq!(escape_single_quotes("plain"), "plain");
    assert_eq!(escape_single_quotes(""), "");
    assert_eq!(escape_single_quotes("it's"), "it'\\''s");
    assert_eq!(escape_single_quotes("'"), "'\\''");
    assert_eq!(escape_single_quotes("''"), "'\\'''\\''");
    assert_eq!(escape_single_quotes("a\"b\\c"), "a\"b\\c");
    // what the standard library's replace gives
    let samples = ["x'y'z", "'lead", "trail'", "no quotes", "'\\''"];
    for s in samples {
        assert_eq!(escape_single_quotes(s), s.replace('\'', "'\\''"));
    }
}

#[test]
fn decimal_text_matches_display() {
    assert_eq!(digit_char(0), '0');
    assert_eq!(digit_char(9), '9');
    assert_eq!(decimal_text(0), "0");
    assert_eq!(decimal_text(7), "7");
    assert_eq!(decimal_text(10), "10");
    assert_eq!(decimal_text(22), "22");
    assert_eq!(decimal_text(65535), "65535");
    assert_eq!(decimal_text(u64::MAX), u64::MAX.to_string());
}

#[test]
fn quote_wraps_the_escaped_text() {
    assert_eq!(quote(""), "''");
    assert_eq!(quote("a b"), "'a b'");
    assert_eq!(quote("it's"), "'it'\\''s'");
    assert_eq!(quote("$HOME; rm"), "'$HOME; rm'");
}
