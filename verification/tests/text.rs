use organizator::text::{find_line_break, parse_i32, rfind_char, str_eq};

#[test]
fn equal_texts() {
    assert!(str_eq("", ""));
    assert!(str_eq("/login", "/login"));
    assert!(str_eq("žluťoučký", "žluťoučký"));
    assert!(!str_eq("/login", "/logij"));
    assert!(!str_eq("/login", "/login "));
    assert!(!str_eq("", " "));
    assert!(!str_eq("a", "á"));
}

#[test]
fn last_position_of_a_character() {
    assert_eq!(rfind_char("a.b.c", '.'), Some(3));
    assert_eq!(rfind_char(".", '.'), Some(0));
    assert_eq!(rfind_char("abc", '.'), None);
    assert_eq!(rfind_char("", '.'), None);
    assert_eq!(rfind_char("žš.č", '.'), Some(2));
    assert_eq!(rfind_char("žš.č", 'č'), Some(3));
}

#[test]
fn first_line_break() {
    assert_eq!(find_line_break("ab\ncd\ref"), 2);
    assert_eq!(find_line_break("ab\rcd\nef"), 2);
    assert_eq!(find_line_break("\n"), 0);
    assert_eq!(find_line_break("abc"), 3);
    assert_eq!(find_line_break(""), 0);
    assert_eq!(find_line_break("žš\n"), 2);
}

#[test]
fn numbers_in_decimal_notation() {
    assert_eq!(parse_i32("0"), Some(0));
    assert_eq!(parse_i32("42"), Some(42));
    assert_eq!(parse_i32("+42"), Some(42));
    assert_eq!(parse_i32("-42"), Some(-42));
    assert_eq!(parse_i32("007"), Some(7));
    assert_eq!(parse_i32("-0"), Some(0));
    assert_eq!(parse_i32("2147483647"), Some(i32::MAX));
    assert_eq!(parse_i32("-2147483648"), Some(i32::MIN));
    assert_eq!(parse_i32("00000000000000000000000000000000000012"), Some(12));
}

#[test]
fn texts_that_spell_no_number() {
    for text in [
        "", "+", "-", "--1", "+-1", "1-", "1 ", " 1", "1_000", "0x10", "1.0", "１２", "a", "12a",
        "2147483648", "-2147483649", "99999999999999999999999999999999", "-99999999999999999999",
    ] {
        assert_eq!(parse_i32(text), None);
    }
}

#[test]
fn numbers_are_read_as_the_standard_library_reads_them() {
    for text in [
        "", "0", "-", "+", "+0", "-0", "12", "-12", "+12", "2147483647", "2147483648",
        "-2147483648", "-2147483649", "0000", "-0001", "1e3", "٣", "4294967296", "١",
        "18446744073709551616", "+2147483647", "+2147483648", "1+", "- 1",
    ] {
        assert_eq!(parse_i32(text), text.parse::<i32>().ok());
    }
    for value in [-1000, -1, 0, 1, 9, 10, 99, 100, 65535, 1 << 30, i32::MAX, i32::MIN] {
        assert_eq!(parse_i32(&value.to_string()), Some(value));
    }
}
