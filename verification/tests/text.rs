use rust_tour::text::decimal_string;
use rust_tour::text::digit_char;
use rust_tour::text::push_decimal;
use rust_tour::text::push_signed_decimal;

#[test]
fn digit_char_gives_the_ten_digits() {
    let digits: Vec<char> = (0u8..10).map(digit_char).collect();
    assert_eq!(digits, vec!['0', '1', '2', '3', '4', '5', '6', '7', '8', '9']);
}

#[test]
fn decimal_string_of_small_numbers() {
    assert_eq!(decimal_string(0), "0");
    assert_eq!(decimal_string(7), "7");
    assert_eq!(decimal_string(10), "10");
    assert_eq!(decimal_string(666), "666");
    assert_eq!(decimal_string(1000), "1000");
}

#[test]
fn decimal_string_of_negative_numbers() {
    assert_eq!(decimal_string(-1), "-1");
    assert_eq!(decimal_string(-120), "-120");
}

#[test]
fn decimal_string_at_the_ends_of_the_range() {
    assert_eq!(decimal_string(i64::MAX), "9223372036854775807");
    assert_eq!(decimal_string(i64::MIN), "-9223372036854775808");
}

#[test]
fn decimal_string_agrees_with_display() {
    let samples: [i64; 9] = [0, 1, -1, 9, 10, 99, 100, -4096, 2147483647];
    for n in samples {
        assert_eq!(decimal_string(n), format!("{}", n));
    }
}

#[test]
fn push_decimal_appends_to_what_is_there() {
    let mut s = String::from("n = ");
    push_decimal(&mut s, 42);
    assert_eq!(s, "n = 42");
    push_decimal(&mut s, 0);
    assert_eq!(s, "n = 420");
}

#[test]
fn push_decimal_of_the_largest_number() {
    let mut s = String::new();
    push_decimal(&mut s, u64::MAX);
    assert_eq!(s, "18446744073709551615");
}

#[test]
fn push_signed_decimal_puts_the_sign_first() {
    let mut s = String::from("[");
    push_signed_decimal(&mut s, -5);
    push_signed_decimal(&mut s, 5);
    assert_eq!(s, "[-55");
}

#[test]
fn numerals_read_back_as_the_number() {
    for n in [0u64, 5, 10, 99, 100, 1234567890, u64::MAX] {
        let mut s = String::new();
        push_decimal(&mut s, n);
        assert_eq!(s.parse::<u64>(), Ok(n));
    }
}

#[test]
fn numerals_have_no_leading_zero() {
    for n in [1i64, 10, 100, 1000, 10_000] {
        assert!(!decimal_string(n).starts_with('0'));
    }
    assert_eq!(decimal_string(0), "0");
}
