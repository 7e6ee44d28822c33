use sensor_program::thermometer::{
    find, is_space_byte, parse_report, read_outcome, report_path, sensor_id, ThermometerError,
};

const REPORT: &str =
    "72 01 4b 46 7f ff 0e 10 57 : crc=57 YES\n72 01 4b 46 7f ff 0e 10 57 t=23125\n";

#[test]
fn confirmed_report_gives_millidegrees() {
    assert_eq!(parse_report(b"YES t=23456"), Ok(23456));
    let celsius = 23456 as f32 / 1000.0;
    assert_eq!(celsius, 23.456);
    assert_eq!(parse_report(REPORT.as_bytes()), Ok(23125));
}

#[test]
fn report_without_confirmation_fails() {
    assert_eq!(parse_report(b"t=23456"), Err(ThermometerError::Unconfirmed));
    assert_eq!(
        parse_report(b"72 01 4b 46 7f ff 0e 10 57 : crc=57 NO\n72 01 t=23125\n"),
        Err(ThermometerError::Unconfirmed)
    );
    assert_eq!(parse_report(b""), Err(ThermometerError::Unconfirmed));
    assert_eq!(parse_report(b"YE"), Err(ThermometerError::Unconfirmed));
    assert_eq!(parse_report(b"yes t=1"), Err(ThermometerError::Unconfirmed));
    assert_eq!(parse_report(b"Y E S t=1"), Err(ThermometerError::Unconfirmed));
}

#[test]
fn confirmed_report_without_marker_fails() {
    assert_eq!(parse_report(b"YES"), Err(ThermometerError::ValueMissing));
    assert_eq!(parse_report(b"crc=57 YES\n23125\n"), Err(ThermometerError::ValueMissing));
    assert_eq!(parse_report(b"YES t 23125"), Err(ThermometerError::ValueMissing));
    assert_eq!(parse_report(b"YES T=23125"), Err(ThermometerError::ValueMissing));
}

#[test]
fn value_that_is_no_integer_fails() {
    assert_eq!(parse_report(b"YES t="), Err(ThermometerError::ValueMalformed));
    assert_eq!(parse_report(b"YES t=  \n"), Err(ThermometerError::ValueMalformed));
    assert_eq!(parse_report(b"YES t=abc"), Err(ThermometerError::ValueMalformed));
    assert_eq!(parse_report(b"YES t=12a"), Err(ThermometerError::ValueMalformed));
    assert_eq!(parse_report(b"YES t=12 34"), Err(ThermometerError::ValueMalformed));
    assert_eq!(parse_report(b"YES t=-"), Err(ThermometerError::ValueMalformed));
    assert_eq!(parse_report(b"YES t=+"), Err(ThermometerError::ValueMalformed));
    assert_eq!(parse_report(b"YES t=--5"), Err(ThermometerError::ValueMalformed));
    assert_eq!(parse_report(b"YES t=5-"), Err(ThermometerError::ValueMalformed));
    assert_eq!(parse_report(b"YES t=23125\nmore"), Err(ThermometerError::ValueMalformed));
}

#[test]
fn marker_before_confirmation_takes_the_rest() {
    // The value runs from the first marker to the end of the report.
    assert_eq!(parse_report(b"t=1 YES"), Err(ThermometerError::ValueMalformed));
    assert_eq!(parse_report(b"YES t=1 t=2"), Err(ThermometerError::ValueMalformed));
    assert_eq!(parse_report(b"YESt=42"), Ok(42));
}

#[test]
fn signs_and_zeros() {
    assert_eq!(parse_report(b"YES t=0"), Ok(0));
    assert_eq!(parse_report(b"YES t=-0"), Ok(0));
    assert_eq!(parse_report(b"YES t=-1250"), Ok(-1250));
    assert_eq!(parse_report(b"YES t=+85000"), Ok(85000));
    assert_eq!(parse_report(b"YES t=000123"), Ok(123));
    assert_eq!(parse_report(b"YES t=-55000\n"), Ok(-55000));
}

#[test]
fn white_space_around_the_value_is_set_aside() {
    assert_eq!(parse_report(b"YES t= 23125"), Ok(23125));
    assert_eq!(parse_report(b"YES t=23125 \t\r\n"), Ok(23125));
    assert_eq!(parse_report(b"YES t=\n\n 23125\x0B\x0C"), Ok(23125));
    assert_eq!(parse_report(b"YES t=- 5"), Err(ThermometerError::ValueMalformed));
    for byte in 0..=255u8 {
        let expected = byte == b' ' || (9..=13).contains(&byte);
        assert_eq!(is_space_byte(byte), expected);
    }
}

#[test]
fn value_must_fit_in_32_bits() {
    assert_eq!(parse_report(b"YES t=2147483647"), Ok(i32::MAX));
    assert_eq!(parse_report(b"YES t=-2147483648"), Ok(i32::MIN));
    assert_eq!(parse_report(b"YES t=2147483648"), Err(ThermometerError::ValueMalformed));
    assert_eq!(parse_report(b"YES t=-2147483649"), Err(ThermometerError::ValueMalformed));
    assert_eq!(
        parse_report(b"YES t=99999999999999999999999999"),
        Err(ThermometerError::ValueMalformed)
    );
    assert_eq!(parse_report(b"YES t=00000000000000000000000007"), Ok(7));
}

#[test]
fn find_gives_the_first_occurrence() {
    assert_eq!(find(b"abcabc", b"bc"), Some(1));
    assert_eq!(find(b"abcabc", b"abc"), Some(0));
    assert_eq!(find(b"abcabc", b"cab"), Some(2));
    assert_eq!(find(b"abcabc", b"abcabc"), Some(0));
    assert_eq!(find(b"abcabc", b"abcabcd"), None);
    assert_eq!(find(b"abcabc", b"x"), None);
    assert_eq!(find(b"aab", b"ab"), Some(1));
    assert_eq!(find(b"abc", b""), Some(0));
    assert_eq!(find(b"", b""), Some(0));
    assert_eq!(find(b"", b"a"), None);
}

#[test]
fn thermometers_have_fixed_identifiers() {
    assert_eq!(sensor_id(0), "28-277a480a6461");
    assert_eq!(sensor_id(1), "28-7c7a480a6461");
}

#[test]
fn report_path_names_the_device_node() {
    assert_eq!(report_path("28-277a480a6461"), "/sys/bus/w1/devices/28-277a480a6461/w1_slave");
    assert_eq!(report_path(sensor_id(1)), "/sys/bus/w1/devices/28-7c7a480a6461/w1_slave");
    assert_eq!(report_path(""), "/sys/bus/w1/devices//w1_slave");
}

#[test]
fn missing_report_is_an_unreadable_thermometer() {
    assert_eq!(read_outcome(None), Err(ThermometerError::Unreadable));
    assert_eq!(read_outcome(Some(b"YES t=23456")), Ok(23456));
    assert_eq!(read_outcome(Some(b"NO t=23456")), Err(ThermometerError::Unconfirmed));
    assert_eq!(read_outcome(Some(b"YES")), Err(ThermometerError::ValueMissing));
    assert_eq!(read_outcome(Some(b"YES t=x")), Err(ThermometerError::ValueMalformed));
}
