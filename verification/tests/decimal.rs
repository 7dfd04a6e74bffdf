use fib_progress::decimal::{
    append_decimal, append_hundredths, append_padded, digit_text, to_decimal,
};

#[test]
fn digits_of_small_numbers() {
    assert_eq!(to_decimal(0), "0");
    assert_eq!(to_decimal(7), "7");
    assert_eq!(to_decimal(10), "10");
    assert_eq!(to_decimal(1548008755920), "1548008755920");
}

#[test]
fn digits_of_the_largest_number() {
    assert_eq!(to_decimal(u128::MAX), "340282366920938463463374607431768211455");
}

#[test]
fn each_digit_has_its_text() {
    let all: Vec<&str> = (0u8..10).map(digit_text).collect();
    assert_eq!(all, vec!["0", "1", "2", "3", "4", "5", "6", "7", "8", "9"]);
}

#[test]
fn appending_keeps_what_was_there() {
    let mut text = String::from("n=");
    append_decimal(&mut text, 405);
    assert_eq!(text, "n=405");
}

#[test]
fn padding_fills_with_zeros_and_cuts_in_front() {
    let mut text = String::new();
    append_padded(&mut text, 7, 3);
    assert_eq!(text, "007");
    let mut text = String::new();
    append_padded(&mut text, 12345, 3);
    assert_eq!(text, "345");
    let mut text = String::new();
    append_padded(&mut text, 9, 0);
    assert_eq!(text, "");
}

#[test]
fn hundredths_have_two_places() {
    let mut text = String::new();
    append_hundredths(&mut text, 0);
    assert_eq!(text, "0.00");
    let mut text = String::new();
    append_hundredths(&mut text, 1205);
    assert_eq!(text, "12.05");
    let mut text = String::new();
    append_hundredths(&mut text, 10000);
    assert_eq!(text, "100.00");
}
