use fib_progress::input::DEFAULT_NTH;
use fib_progress::ordinal::{get_ordinal_suffix, ordinal};

#[test]
fn small_ordinals() {
    assert_eq!(ordinal(1), "1st");
    assert_eq!(ordinal(2), "2nd");
    assert_eq!(ordinal(3), "3rd");
    assert_eq!(ordinal(4), "4th");
}

#[test]
fn teens_take_th() {
    assert_eq!(ordinal(11), "11th");
    assert_eq!(ordinal(12), "12th");
    assert_eq!(ordinal(13), "13th");
    for n in 4u8..=20 {
        assert_eq!(get_ordinal_suffix(n), "th", "number {}", n);
    }
}

#[test]
fn last_digit_decides_beyond_twenty() {
    assert_eq!(ordinal(21), "21st");
    assert_eq!(ordinal(22), "22nd");
    assert_eq!(ordinal(23), "23rd");
    assert_eq!(ordinal(24), "24th");
    assert_eq!(ordinal(60), "60th");
    assert_eq!(ordinal(101), "101st");
}

#[test]
fn default_index_is_thirtieth() {
    assert_eq!(ordinal(DEFAULT_NTH), "30th");
}

#[test]
fn zero_takes_th() {
    assert_eq!(ordinal(0), "0th");
    assert_eq!(ordinal(10), "10th");
    assert_eq!(ordinal(100), "100th");
}

#[test]
fn hundreds_follow_their_last_two_digits() {
    assert_eq!(ordinal(111), "111th");
    assert_eq!(ordinal(112), "112th");
    assert_eq!(ordinal(113), "113th");
    assert_eq!(ordinal(121), "121st");
    assert_eq!(ordinal(213), "213th");
    assert_eq!(ordinal(255), "255th");
}
