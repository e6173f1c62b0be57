use bile::utils::text::{
    chars_of, find, parse_number, push_decimal, rfind, same_text, string_of,
};

fn decimal(n: u128) -> String {
    let mut out = Vec::new();
    push_decimal(&mut out, n);
    out.into_iter().collect()
}

fn parse(s: &str) -> Option<usize> {
    parse_number(&chars_of(s), 0)
}

#[test]
fn numbers_are_written_in_base_ten() {
    assert_eq!(decimal(0), "0");
    assert_eq!(decimal(7), "7");
    assert_eq!(decimal(10), "10");
    assert_eq!(decimal(109), "109");
    assert_eq!(decimal(18_446_744_073_709_551_615), "18446744073709551615");
    assert_eq!(decimal(36_893_488_147_419_103_230), "36893488147419103230");
    assert_eq!(decimal(u128::MAX), "340282366920938463463374607431768211455");
}

#[test]
fn push_decimal_appends_to_what_is_there() {
    let mut out = vec!['a', '~'];
    push_decimal(&mut out, 42);
    assert_eq!(out, vec!['a', '~', '4', '2']);
}

#[test]
fn a_number_is_digits_and_nothing_else() {
    assert_eq!(parse("0"), Some(0));
    assert_eq!(parse("7"), Some(7));
    assert_eq!(parse("007"), Some(7));
    assert_eq!(parse("42"), Some(42));
    assert_eq!(parse("18446744073709551615"), Some(usize::MAX));
    for case in [
        "", "+42", "+", "-", "-1", "++1", "1+", " 1", "1 ", "4a", "a4", "+0",
        "18446744073709551616", "99999999999999999999999", "٣", "１",
    ] {
        assert_eq!(parse(case), None, "reading {case:?}");
    }
    // Without a sign it reads what the standard library reads.
    for case in ["", "0", "7", "007", "42", "1 ", "4a", "18446744073709551616", "１"] {
        assert_eq!(parse(case), case.parse::<usize>().ok(), "reading {case:?}");
    }
}

#[test]
fn parse_number_reads_from_the_given_position() {
    let chars = chars_of("main~12");
    assert_eq!(parse_number(&chars, 5), Some(12));
    assert_eq!(parse_number(&chars, 6), Some(2));
    assert_eq!(parse_number(&chars, 7), None);
    assert_eq!(parse_number(&chars, 0), None);
}

#[test]
fn what_is_written_is_read_back() {
    for n in [0usize, 1, 9, 10, 99, 100, 12345, usize::MAX] {
        assert_eq!(parse(&decimal(n as u128)), Some(n));
    }
}

#[test]
fn rfind_finds_the_last_occurrence() {
    assert_eq!(rfind(&chars_of("a~b~c"), '~'), Some(3));
    assert_eq!(rfind(&chars_of("~"), '~'), Some(0));
    assert_eq!(rfind(&chars_of("abc"), '~'), None);
    assert_eq!(rfind(&chars_of(""), '~'), None);
    assert_eq!(rfind(&chars_of("é~ü"), '~'), Some(1));
}

#[test]
fn chars_and_strings_convert_into_each_other() {
    let chars = chars_of("héllo");
    assert_eq!(chars, vec!['h', 'é', 'l', 'l', 'o']);
    assert_eq!(string_of(&chars, 0, 5), "héllo");
    assert_eq!(string_of(&chars, 1, 3), "él");
    assert_eq!(string_of(&chars, 2, 2), "");
    assert_eq!(chars_of(""), Vec::<char>::new());
}

#[test]
fn same_text_compares_character_by_character() {
    assert!(same_text("", ""));
    assert!(same_text("abc", "abc"));
    assert!(!same_text("abc", "abd"));
    assert!(!same_text("abc", "ab"));
    assert!(!same_text("", "a"));
}

#[test]
fn find_finds_the_first_occurrence_or_the_end() {
    assert_eq!(find(&chars_of("a/b/c"), '/'), 1);
    assert_eq!(find(&chars_of("/"), '/'), 0);
    assert_eq!(find(&chars_of("abc"), '/'), 3);
    assert_eq!(find(&chars_of(""), '/'), 0);
}
