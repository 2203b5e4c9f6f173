use break_timer::{check_idle_time, strip_trailing_newline, ProbeError};

#[test]
fn reads_plain_decimal_numbers() {
    assert_eq!(check_idle_time("0"), Ok(0));
    assert_eq!(check_idle_time("7"), Ok(7));
    assert_eq!(check_idle_time("42"), Ok(42));
    assert_eq!(check_idle_time("1500"), Ok(1500));
    assert_eq!(check_idle_time("4294967295"), Ok(u32::MAX));
}

#[test]
fn accepts_one_leading_plus_and_leading_zeros() {
    assert_eq!(check_idle_time("+12"), Ok(12));
    assert_eq!(check_idle_time("007"), Ok(7));
    assert_eq!(check_idle_time("+000"), Ok(0));
    assert_eq!(check_idle_time("000000000000000000004294967295"), Ok(u32::MAX));
}

#[test]
fn empty_output_is_reported_as_empty() {
    assert_eq!(check_idle_time(""), Err(ProbeError::Empty));
}

#[test]
fn anything_but_digits_is_an_invalid_digit() {
    assert_eq!(check_idle_time("+"), Err(ProbeError::InvalidDigit));
    assert_eq!(check_idle_time("-"), Err(ProbeError::InvalidDigit));
    assert_eq!(check_idle_time("-3"), Err(ProbeError::InvalidDigit));
    assert_eq!(check_idle_time("++3"), Err(ProbeError::InvalidDigit));
    assert_eq!(check_idle_time("12\n"), Err(ProbeError::InvalidDigit));
    assert_eq!(check_idle_time(" 12"), Err(ProbeError::InvalidDigit));
    assert_eq!(check_idle_time("1_000"), Err(ProbeError::InvalidDigit));
    assert_eq!(check_idle_time("12a"), Err(ProbeError::InvalidDigit));
    assert_eq!(check_idle_time("/"), Err(ProbeError::InvalidDigit));
    assert_eq!(check_idle_time(":"), Err(ProbeError::InvalidDigit));
    assert_eq!(check_idle_time("٣"), Err(ProbeError::InvalidDigit));
    assert_eq!(check_idle_time("1é"), Err(ProbeError::InvalidDigit));
    assert_eq!(check_idle_time("9x99999999999"), Err(ProbeError::InvalidDigit));
    assert_eq!(check_idle_time("429496729x"), Err(ProbeError::InvalidDigit));
}

#[test]
fn numbers_beyond_32_bits_are_too_large() {
    assert_eq!(check_idle_time("4294967296"), Err(ProbeError::TooLarge));
    assert_eq!(check_idle_time("4294967300"), Err(ProbeError::TooLarge));
    assert_eq!(check_idle_time("+99999999999999999999999"), Err(ProbeError::TooLarge));
}

#[test]
fn the_first_fault_from_the_left_names_the_error() {
    assert_eq!(check_idle_time("99999999999x"), Err(ProbeError::TooLarge));
    assert_eq!(check_idle_time("4294967296é"), Err(ProbeError::TooLarge));
    assert_eq!(check_idle_time("4294967295x"), Err(ProbeError::InvalidDigit));
    assert_eq!(check_idle_time("42949672950x"), Err(ProbeError::TooLarge));
    assert_eq!(check_idle_time("é4294967296"), Err(ProbeError::InvalidDigit));
    assert_eq!(check_idle_time("+x99999999999"), Err(ProbeError::InvalidDigit));
}

fn standard_reading(text: &str) -> Result<u32, ProbeError> {
    match text.parse::<u32>() {
        Ok(n) => Ok(n),
        Err(why) => match why.kind() {
            std::num::IntErrorKind::Empty => Err(ProbeError::Empty),
            std::num::IntErrorKind::InvalidDigit => Err(ProbeError::InvalidDigit),
            std::num::IntErrorKind::PosOverflow => Err(ProbeError::TooLarge),
            other => panic!("{:?}", other),
        },
    }
}

#[test]
fn agrees_with_the_standard_parser_on_every_error() {
    let samples = [
        "", "+", "-", "0", "+0", "-0", "12", "12\n", " 12", "1_000", "٣", "1é", "é1",
        "4294967295", "4294967296", "4294967295x", "4294967296x", "99999999999x",
        "9x99999999999", "+99999999999999999999999", "+x99999999999", "42949672950x",
        "0000000000000000000000x", "00000000000000000000004294967296", "++1", "+-1",
    ];
    for text in samples {
        assert_eq!(check_idle_time(text), standard_reading(text), "{:?}", text);
    }
}

#[test]
fn agrees_with_the_standard_parser_on_what_is_a_number() {
    let samples = [
        "", "0", "1", "9", "10", "+", "-", "+0", "-0", "+-1", "00", "4294967295", "4294967296",
        "42949672950", "12 ", " 12", "1.5", "0x10", "١٢", "12\n", "+4294967295", "+4294967296",
        "2147483648", "99999999999999999999",
    ];
    for text in samples {
        assert_eq!(check_idle_time(text).ok(), text.parse::<u32>().ok(), "{:?}", text);
    }
    for n in (0..=u32::MAX).step_by(9_973_331) {
        assert_eq!(check_idle_time(&n.to_string()), Ok(n));
    }
}

#[test]
fn probe_errors_have_their_wording() {
    assert_eq!(ProbeError::Empty.message(), "cannot parse integer from empty string");
    assert_eq!(ProbeError::InvalidDigit.message(), "invalid digit found in string");
    assert_eq!(ProbeError::TooLarge.message(), "number too large to fit in target type");
}

#[test]
fn strips_one_trailing_line_feed() {
    assert_eq!(strip_trailing_newline("12\n"), "12");
    assert_eq!(strip_trailing_newline("12\n\n"), "12\n");
    assert_eq!(strip_trailing_newline("12"), "12");
    assert_eq!(strip_trailing_newline("\n"), "");
    assert_eq!(strip_trailing_newline(""), "");
    assert_eq!(strip_trailing_newline("\n12"), "\n12");
    assert_eq!(strip_trailing_newline("12\r\n"), "12\r");
    assert_eq!(strip_trailing_newline("héllo wörld\n"), "héllo wörld");
    assert_eq!(strip_trailing_newline("日本語"), "日本語");
}

#[test]
fn stripped_probe_output_is_read() {
    assert_eq!(check_idle_time(strip_trailing_newline("37\n")), Ok(37));
}
