use obst::text::{
    chars_of, check_identifier, decimal_text, digit_of, parse_decimal, same_text, starts_with,
    string_of,
};

fn parse(text: &str, bound: usize) -> Option<usize> {
    parse_decimal(&text.chars().collect(), bound)
}

#[test]
fn strings_and_character_vectors_convert_both_ways() {
    assert_eq!(chars_of("a_ü"), vec!['a', '_', 'ü']);
    assert_eq!(string_of(&vec!['a', '_', 'ü']), "a_ü");
    assert_eq!(string_of(&vec![]), "");
    assert_eq!(string_of(&chars_of("reading")), "reading");
}

#[test]
fn same_text_compares_characters() {
    assert!(same_text("FLOAT", "FLOAT"));
    assert!(!same_text("FLOAT", "float"));
    assert!(!same_text("FLOAT", "FLOA"));
    assert!(same_text("", ""));
}

#[test]
fn starts_with_compares_the_beginning() {
    assert!(starts_with("sqlite_sequence", "sqlite_"));
    assert!(starts_with("sqlite_", "sqlite_"));
    assert!(starts_with("anything", ""));
    assert!(!starts_with("sqlite", "sqlite_"));
    assert!(!starts_with("my_sqlite_table", "sqlite_"));
    assert!(!starts_with("", "s"));
}

#[test]
fn identifiers_are_letters_digits_and_underscores() {
    assert!(check_identifier("Temperature"));
    assert!(check_identifier("reading"));
    assert!(check_identifier("_x1"));
    assert!(check_identifier("a"));
    assert!(check_identifier("Z9_"));
}

#[test]
fn other_texts_are_no_identifiers() {
    assert!(!check_identifier(""));
    assert!(!check_identifier("1abc"));
    assert!(!check_identifier("a b"));
    assert!(!check_identifier("a;b"));
    assert!(!check_identifier("x); DROP TABLE y; --"));
    assert!(!check_identifier("a'b"));
    assert!(!check_identifier("a\"b"));
    assert!(!check_identifier("a-b"));
    assert!(!check_identifier("größe"));
    assert!(!check_identifier("a,b"));
    assert!(!check_identifier("a("));
}

#[test]
fn digits_have_their_values() {
    assert_eq!(digit_of('0'), Some(0));
    assert_eq!(digit_of('7'), Some(7));
    assert_eq!(digit_of('9'), Some(9));
    assert_eq!(digit_of('/'), None);
    assert_eq!(digit_of(':'), None);
    assert_eq!(digit_of('a'), None);
    assert_eq!(digit_of('٣'), None);
}

#[test]
fn decimal_numbers_below_the_bound_are_read() {
    assert_eq!(parse("0", 256), Some(0));
    assert_eq!(parse("7", 256), Some(7));
    assert_eq!(parse("42", 256), Some(42));
    assert_eq!(parse("255", 256), Some(255));
    assert_eq!(parse("007", 256), Some(7));
    assert_eq!(parse("0000000000000000000000000000000000255", 256), Some(255));
}

#[test]
fn other_texts_are_no_numbers() {
    assert_eq!(parse("", 256), None);
    assert_eq!(parse("abc", 256), None);
    assert_eq!(parse("12a", 256), None);
    assert_eq!(parse("a12", 256), None);
    assert_eq!(parse("-1", 256), None);
    assert_eq!(parse("+1", 256), None);
    assert_eq!(parse(" 1", 256), None);
    assert_eq!(parse("1.5", 256), None);
    assert_eq!(parse("256", 256), None);
    assert_eq!(parse("1000", 256), None);
    assert_eq!(parse("99999999999999999999999999999999999999", 256), None);
    assert_eq!(parse("0", 0), None);
}

#[test]
fn decimal_text_writes_numbers_without_leading_zeros() {
    assert_eq!(decimal_text(0), "0");
    assert_eq!(decimal_text(7), "7");
    assert_eq!(decimal_text(10), "10");
    assert_eq!(decimal_text(256), "256");
    assert_eq!(decimal_text(1234567890), "1234567890");
}

#[test]
fn reading_what_was_written_gives_the_number_back() {
    for n in 0..300usize {
        assert_eq!(parse(&decimal_text(n), 1000), Some(n));
    }
}
