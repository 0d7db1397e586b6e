use exercise_runner::text::{collect_chars, parse_i32, parse_usize, same_text};

fn numerals() -> Vec<String> {
    let mut all: Vec<String> = [
        "", "0", "7", "42", "-42", "+42", "-0", "+0", "007", "-007", "+", "-", "--1", "+-1", "1-",
        "1+", "1 ", " 1", "1_000", "12a", "a12", "0x10", "1.5", "1e3", "٣", "１２", "2147483647",
        "2147483648", "-2147483648", "-2147483649", "+2147483647", "00000000002147483647",
        "99999999999999999999", "-99999999999999999999", "4294967295", "4294967296",
        "18446744073709551615", "18446744073709551616", "+18446744073709551615",
        "000018446744073709551615", "340282366920938463463374607431768211456", "\n", "1\n",
    ]
    .iter()
    .map(|s| s.to_string())
    .collect();
    for n in -30..30 {
        all.push(format!("{}", n));
    }
    all
}

#[test]
fn signed_numbers_are_read_as_the_standard_library_reads_them() {
    for numeral in numerals() {
        assert_eq!(parse_i32(&numeral), numeral.parse::<i32>().ok(), "{:?}", numeral);
    }
}

#[test]
fn unsigned_numbers_are_read_as_the_standard_library_reads_them() {
    for numeral in numerals() {
        assert_eq!(parse_usize(&numeral), numeral.parse::<usize>().ok(), "{:?}", numeral);
    }
}

#[test]
fn signed_numbers_have_their_value() {
    assert_eq!(parse_i32("42"), Some(42));
    assert_eq!(parse_i32("-42"), Some(-42));
    assert_eq!(parse_i32("+42"), Some(42));
    assert_eq!(parse_i32("2147483647"), Some(i32::MAX));
    assert_eq!(parse_i32("-2147483648"), Some(i32::MIN));
    assert_eq!(parse_i32("2147483648"), None);
    assert_eq!(parse_i32("-2147483649"), None);
    assert_eq!(parse_i32(""), None);
    assert_eq!(parse_i32("-"), None);
    assert_eq!(parse_i32("4 2"), None);
}

#[test]
fn unsigned_numbers_have_their_value() {
    assert_eq!(parse_usize("0"), Some(0));
    assert_eq!(parse_usize("+15"), Some(15));
    assert_eq!(parse_usize("-15"), None);
    assert_eq!(parse_usize("-0"), None);
    assert_eq!(parse_usize(""), None);
    assert_eq!(parse_usize("eleven"), None);
}

#[test]
fn texts_are_the_same_when_their_characters_are() {
    assert!(same_text("main", "main"));
    assert!(same_text("", ""));
    assert!(same_text("größe", "größe"));
    assert!(!same_text("main", "Main"));
    assert!(!same_text("main", "main "));
    assert!(!same_text("main", "mai"));
    assert!(!same_text("", "x"));
}

#[test]
fn characters_are_collected_in_order() {
    assert_eq!(collect_chars("aß日"), vec!['a', 'ß', '日']);
    assert_eq!(collect_chars(""), Vec::<char>::new());
}
