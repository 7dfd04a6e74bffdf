use fib_progress::input::{
    notice, parse_number_text, prompt, resolve_index, resolve_unreadable, DefaultReason,
    ParseFault, Resolution, DEFAULT_NTH,
};

#[test]
fn default_is_thirty() {
    assert_eq!(DEFAULT_NTH, 30);
}

#[test]
fn absent_input_uses_the_default() {
    let resolution = resolve_index(None);
    assert_eq!(
        resolution,
        Resolution { index: 30, defaulted: Some(DefaultReason::NotProvided) }
    );
    assert_eq!(
        notice(DefaultReason::NotProvided, ""),
        "Fibonacci Number is not provided, defaulting to 30"
    );
}

#[test]
fn empty_input_uses_the_default() {
    let resolution = resolve_index(Some(""));
    assert_eq!(
        resolution,
        Resolution {
            index: 30,
            defaulted: Some(DefaultReason::Unparseable(ParseFault::Empty)),
        }
    );
    assert_eq!(
        notice(DefaultReason::Unparseable(ParseFault::Empty), ""),
        "Error processing number from the given input: (cannot parse integer from empty string), defaulting to 30"
    );
}

#[test]
fn number_out_of_range_uses_the_default() {
    let expected = Resolution { index: 30, defaulted: Some(DefaultReason::OutOfRange) };
    assert_eq!(resolve_index(Some("999")), expected);
    assert_eq!(resolve_index(Some("0")), expected);
    assert_eq!(resolve_index(Some("61")), expected);
    assert_eq!(resolve_index(Some("256")), expected);
    assert_eq!(resolve_index(Some("340282366920938463463374607431768211456")), expected);
    assert_eq!(
        notice(DefaultReason::OutOfRange, ""),
        "Provided number is outside of 1-60 range, defaulting to 30"
    );
}

#[test]
fn number_in_range_is_used() {
    assert_eq!(resolve_index(Some("12")), Resolution { index: 12, defaulted: None });
    assert_eq!(resolve_index(Some("1")), Resolution { index: 1, defaulted: None });
    assert_eq!(resolve_index(Some("60")), Resolution { index: 60, defaulted: None });
    assert_eq!(resolve_index(Some("+7")), Resolution { index: 7, defaulted: None });
    assert_eq!(resolve_index(Some("0030")), Resolution { index: 30, defaulted: None });
}

#[test]
fn text_that_is_no_number_uses_the_default() {
    let expected = Resolution {
        index: 30,
        defaulted: Some(DefaultReason::Unparseable(ParseFault::InvalidDigit)),
    };
    assert_eq!(resolve_index(Some("twelve")), expected);
    assert_eq!(resolve_index(Some(" 12")), expected);
    assert_eq!(resolve_index(Some("12 ")), expected);
    assert_eq!(resolve_index(Some("-5")), expected);
    assert_eq!(resolve_index(Some("+")), expected);
    assert_eq!(resolve_index(Some("1.5")), expected);
    assert_eq!(resolve_index(Some("999x")), expected);
    assert_eq!(resolve_index(Some("1\u{663}")), expected);
    assert_eq!(
        notice(DefaultReason::Unparseable(ParseFault::InvalidDigit), ""),
        "Error processing number from the given input: (invalid digit found in string), defaulting to 30"
    );
}

#[test]
fn unreadable_input_uses_the_default() {
    assert_eq!(
        resolve_unreadable(),
        Resolution { index: 30, defaulted: Some(DefaultReason::ReadFailed) }
    );
    assert_eq!(
        notice(DefaultReason::ReadFailed, "stream did not contain valid UTF-8"),
        "Something has gone terribly wrong: (stream did not contain valid UTF-8), defaulting to 30"
    );
}

#[test]
fn numbers_are_read_to_their_end() {
    assert_eq!(parse_number_text("0"), Ok(Some(0)));
    assert_eq!(parse_number_text("255"), Ok(Some(255)));
    assert_eq!(parse_number_text("256"), Ok(None));
    assert_eq!(parse_number_text("+000255"), Ok(Some(255)));
    assert_eq!(parse_number_text("2560"), Ok(None));
    assert_eq!(parse_number_text("2560a"), Err(ParseFault::InvalidDigit));
    assert_eq!(parse_number_text(""), Err(ParseFault::Empty));
    assert_eq!(parse_number_text("++1"), Err(ParseFault::InvalidDigit));
}

#[test]
fn prompt_names_the_range() {
    assert_eq!(prompt(), "Enter which Fibonacci Number to calculate (1-60): ");
}
