use coordinator::text::{
    chars_of, contains_token, parse_unsigned_in, parse_usize, same_text, to_ascii_upper,
};

#[test]
fn chars_of_keeps_every_character_in_order() {
    assert_eq!(chars_of(""), Vec::<char>::new());
    assert_eq!(chars_of("a.b"), vec!['a', '.', 'b']);
    assert_eq!(chars_of("é7"), vec!['é', '7']);
}

#[test]
fn same_text_compares_character_by_character() {
    assert!(same_text("", ""));
    assert!(same_text("PALADIN_RUNTIME", "PALADIN_RUNTIME"));
    assert!(!same_text("PALADIN_RUNTIME", "PALADIN_RUNTIM"));
    assert!(!same_text("PALADIN_RUNTIME", "paladin_runtime"));
    assert!(!same_text("ab", "ac"));
}

#[test]
fn ascii_upper_touches_lower_case_letters_only() {
    assert_eq!(to_ascii_upper('a'), 'A');
    assert_eq!(to_ascii_upper('z'), 'Z');
    assert_eq!(to_ascii_upper('m'), 'M');
    assert_eq!(to_ascii_upper('A'), 'A');
    assert_eq!(to_ascii_upper('`'), '`');
    assert_eq!(to_ascii_upper('{'), '{');
    assert_eq!(to_ascii_upper('_'), '_');
    assert_eq!(to_ascii_upper('5'), '5');
    assert_eq!(to_ascii_upper('é'), 'é');
}

#[test]
fn token_is_found_anywhere_in_the_text() {
    assert!(contains_token("CBOR", "CBOR"));
    assert!(contains_token("use CBOR please", "CBOR"));
    assert!(contains_token("xxCBOR", "CBOR"));
    assert!(contains_token("CBORxx", "CBOR"));
    assert!(!contains_token("CBO", "CBOR"));
    assert!(!contains_token("C-BOR", "CBOR"));
    assert!(!contains_token("", "CBOR"));
}

#[test]
fn token_is_found_whatever_the_case() {
    assert!(contains_token("cbor", "CBOR"));
    assert!(contains_token("Postcard", "POSTCARD"));
    assert!(contains_token("on_demand", "ON_DEMAND"));
    assert!(contains_token("In-Memory", "MEMORY"));
    assert!(contains_token("AMQP", "amqp"));
    assert!(!contains_token("on-demand", "ON_DEMAND"));
}

#[test]
fn empty_token_is_in_every_text() {
    assert!(contains_token("", ""));
    assert!(contains_token("abc", ""));
}

#[test]
fn token_search_handles_text_outside_ascii() {
    assert!(contains_token("séríalizer=cbor", "CBOR"));
    assert!(!contains_token("ｃｂｏｒ", "CBOR"));
}

#[test]
fn unsigned_decimals_parse_to_their_value() {
    assert_eq!(parse_usize("0"), Some(0));
    assert_eq!(parse_usize("7"), Some(7));
    assert_eq!(parse_usize("42"), Some(42));
    assert_eq!(parse_usize("007"), Some(7));
    assert_eq!(parse_usize("+15"), Some(15));
    assert_eq!(parse_usize("1234567890"), Some(1234567890));
}

#[test]
fn text_that_is_no_unsigned_decimal_does_not_parse() {
    assert_eq!(parse_usize(""), None);
    assert_eq!(parse_usize("+"), None);
    assert_eq!(parse_usize("-1"), None);
    assert_eq!(parse_usize("++1"), None);
    assert_eq!(parse_usize("1+"), None);
    assert_eq!(parse_usize(" 1"), None);
    assert_eq!(parse_usize("1 "), None);
    assert_eq!(parse_usize("1_000"), None);
    assert_eq!(parse_usize("0x10"), None);
    assert_eq!(parse_usize("four"), None);
    assert_eq!(parse_usize("1.5"), None);
    assert_eq!(parse_usize("٣"), None);
}

#[test]
fn the_greatest_machine_number_parses_and_the_next_does_not() {
    let max = usize::MAX.to_string();
    assert_eq!(parse_usize(&max), Some(usize::MAX));
    let mut beyond = max.clone();
    beyond.push('0');
    assert_eq!(parse_usize(&beyond), None);
    assert_eq!(parse_usize("18446744073709551616"), None);
    assert_eq!(parse_usize("99999999999999999999999999999999999999999"), None);
}

#[test]
fn parse_agrees_with_the_standard_parser() {
    let samples = [
        "", "0", "1", "+1", "-1", "+", "10", "0010", "18446744073709551615",
        "18446744073709551616", "12a", "a12", "1 2", "+-3", "+0", "００",
    ];
    for sample in samples {
        assert_eq!(parse_usize(sample), sample.parse::<usize>().ok(), "{:?}", sample);
    }
}

#[test]
fn a_part_of_the_text_parses_by_itself() {
    let chars: Vec<char> = "16..23".chars().collect();
    assert_eq!(parse_unsigned_in(&chars, 0, 2), Some(16));
    assert_eq!(parse_unsigned_in(&chars, 4, 6), Some(23));
    assert_eq!(parse_unsigned_in(&chars, 0, 3), None);
    assert_eq!(parse_unsigned_in(&chars, 2, 2), None);
    assert_eq!(parse_unsigned_in(&chars, 1, 2), Some(6));
}
