use fib_progress::report::{
    append_seconds, exit_prompt, result_line, slowdown_line, Method, NANOS_PER_SECOND,
};

#[test]
fn result_lines_name_index_value_method_and_time() {
    assert_eq!(
        result_line(10, 55, Method::Iterative, 1_500),
        "The 10th fibonacci number is 55, calculated iteratively in 0.000001500 seconds"
    );
    assert_eq!(
        result_line(10, 55, Method::Recursive, 2 * NANOS_PER_SECOND + 5),
        "The 10th fibonacci number is 55, calculated recursively in 2.000000005 seconds"
    );
    assert_eq!(
        result_line(1, 1, Method::Iterative, 0),
        "The 1st fibonacci number is 1, calculated iteratively in 0.000000000 seconds"
    );
}

#[test]
fn seconds_keep_nine_places() {
    let mut text = String::new();
    append_seconds(&mut text, 123_456_789_012);
    assert_eq!(text, "123.456789012");
    let mut text = String::new();
    append_seconds(&mut text, u64::MAX);
    assert_eq!(text, "18446744073.709551615");
}

#[test]
fn slowdown_only_when_recursion_took_longer() {
    assert_eq!(slowdown_line(1000, 1000), None);
    assert_eq!(slowdown_line(1000, 999), None);
    assert_eq!(slowdown_line(0, 0), None);
    assert_eq!(
        slowdown_line(1000, 1001),
        Some(String::from("The recursive implementation was 1.00 times slower, than iterative!"))
    );
}

#[test]
fn slowdown_ratio_has_two_places_rounded_down() {
    assert_eq!(
        slowdown_line(1000, 2500),
        Some(String::from("The recursive implementation was 2.50 times slower, than iterative!"))
    );
    assert_eq!(
        slowdown_line(3, 10),
        Some(String::from("The recursive implementation was 3.33 times slower, than iterative!"))
    );
    assert_eq!(
        slowdown_line(1, u64::MAX),
        Some(String::from(
            "The recursive implementation was 18446744073709551615.00 times slower, than iterative!"
        ))
    );
}

#[test]
fn slowdown_without_a_measured_iteration() {
    assert_eq!(
        slowdown_line(0, 5),
        Some(String::from("The recursive implementation was inf times slower, than iterative!"))
    );
}

#[test]
fn exit_prompt_words() {
    assert_eq!(exit_prompt(), "Press Enter to exit...");
}
