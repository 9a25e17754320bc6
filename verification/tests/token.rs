use volume_notify::{parse_percent, percent_text, MixerError};

#[test]
fn plain_token_reads_as_its_number() {
    assert_eq!(parse_percent(b"50%"), Ok(50));
    assert_eq!(parse_percent(b"0%"), Ok(0));
    assert_eq!(parse_percent(b"100%"), Ok(100));
    assert_eq!(parse_percent(b"153%"), Ok(153));
}

#[test]
fn signed_token_reads_with_its_sign() {
    assert_eq!(parse_percent(b"-5%"), Ok(-5));
    assert_eq!(parse_percent(b"+5%"), Ok(5));
    assert_eq!(parse_percent(b"-0%"), Ok(0));
}

#[test]
fn leading_zeros_do_not_count() {
    assert_eq!(parse_percent(b"007%"), Ok(7));
    assert_eq!(parse_percent(b"+000%"), Ok(0));
    assert_eq!(parse_percent(b"-00000000000000000000012%"), Ok(-12));
}

#[test]
fn token_at_the_limits_of_the_volume_type() {
    assert_eq!(parse_percent(b"2147483647%"), Ok(i32::MAX));
    assert_eq!(parse_percent(b"-2147483648%"), Ok(i32::MIN));
    assert_eq!(parse_percent(b"+2147483647%"), Ok(i32::MAX));
}

#[test]
fn token_beyond_the_limits_is_out_of_range() {
    assert_eq!(parse_percent(b"2147483648%"), Err(MixerError::OutOfRange));
    assert_eq!(parse_percent(b"-2147483649%"), Err(MixerError::OutOfRange));
    assert_eq!(parse_percent(b"99999999999999999999999999999999%"), Err(MixerError::OutOfRange));
    assert_eq!(parse_percent(b"-99999999999999999999999999999999%"), Err(MixerError::OutOfRange));
}

#[test]
fn what_is_no_token_is_refused() {
    assert_eq!(parse_percent(b""), Err(MixerError::MissingPercent));
    assert_eq!(parse_percent(b"%"), Err(MixerError::MissingPercent));
    assert_eq!(parse_percent(b"+%"), Err(MixerError::MissingPercent));
    assert_eq!(parse_percent(b"-%"), Err(MixerError::MissingPercent));
    assert_eq!(parse_percent(b"50"), Err(MixerError::MissingPercent));
    assert_eq!(parse_percent(b"5a%"), Err(MixerError::MissingPercent));
    assert_eq!(parse_percent(b"+-5%"), Err(MixerError::MissingPercent));
    assert_eq!(parse_percent(b" 5%"), Err(MixerError::MissingPercent));
    assert_eq!(parse_percent(b"5%%"), Err(MixerError::MissingPercent));
    assert_eq!(parse_percent(b"5% "), Err(MixerError::MissingPercent));
}

#[test]
fn number_is_written_as_a_token() {
    assert_eq!(percent_text(60), "60%");
    assert_eq!(percent_text(100), "100%");
    assert_eq!(percent_text(0), "0%");
    assert_eq!(percent_text(7), "7%");
    assert_eq!(percent_text(-5), "-5%");
    assert_eq!(percent_text(-4294967296), "-4294967296%");
}

#[test]
fn extreme_numbers_are_written_in_full() {
    assert_eq!(percent_text(i64::MAX), "9223372036854775807%");
    assert_eq!(percent_text(i64::MIN), "-9223372036854775808%");
}

#[test]
fn written_token_reads_back() {
    let numbers =
        [i32::MIN, -2147483647, -101, -100, -10, -9, -1, 0, 1, 9, 10, 99, 100, 101, i32::MAX];
    for number in numbers {
        let text = percent_text(number as i64);
        assert_eq!(parse_percent(text.as_bytes()), Ok(number));
    }
}
