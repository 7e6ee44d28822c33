use sensor_program::calibration::CalibrationSet;
use sensor_program::compensation::{
    compensate, raw_from_bytes, CompensatedReading, RawConversion, RAW_LIMIT,
};
use sensor_program::record::{measure, Ms5611Data};

fn datasheet_calibration() -> CalibrationSet {
    CalibrationSet { c1: 40127, c2: 36924, c3: 23317, c4: 23282, c5: 33464, c6: 28312 }
}

fn uniform(word: u16) -> CalibrationSet {
    CalibrationSet { c1: word, c2: word, c3: word, c4: word, c5: word, c6: word }
}

#[test]
fn datasheet_example_gives_published_values() {
    let raw = RawConversion { d1: 9085466, d2: 8569150 };
    let reading = compensate(&datasheet_calibration(), &raw);
    assert_eq!(reading, CompensatedReading { temperature_centi: 2007, pressure_centi: 100009 });
    let temperature = reading.temperature_centi as f64 / 100.0;
    let pressure = reading.pressure_centi as f64 / 100.0;
    assert_eq!(format!("{:.2}", temperature), "20.07");
    assert_eq!(format!("{:.2}", pressure), "1000.09");
}

#[test]
fn negative_delta_of_one_thousand() {
    let d2: u32 = 33464 * 256 - 1000;
    let raw = RawConversion { d1: 9085466, d2 };
    let reading = compensate(&datasheet_calibration(), &raw);
    assert_eq!(reading.temperature_centi, 1997);
    assert_eq!(reading.pressure_centi, 99987);
}

#[test]
fn same_inputs_give_same_reading() {
    let raw = RawConversion { d1: 9085466, d2: 8569150 };
    let first = compensate(&datasheet_calibration(), &raw);
    let second = compensate(&datasheet_calibration(), &raw);
    assert_eq!(first, second);
    assert_eq!(
        (first.temperature_centi as f64 / 100.0).to_bits(),
        (second.temperature_centi as f64 / 100.0).to_bits()
    );
    assert_eq!(
        (first.pressure_centi as f64 / 100.0).to_bits(),
        (second.pressure_centi as f64 / 100.0).to_bits()
    );
}

#[test]
fn zero_conversions_go_far_below_reference() {
    let raw = RawConversion { d1: 0, d2: 0 };
    let reading = compensate(&datasheet_calibration(), &raw);
    assert_eq!(reading.temperature_centi, -26913);
    assert_eq!(reading.pressure_centi, -26294);
}

#[test]
fn largest_inputs_stay_in_range() {
    let top: u32 = RAW_LIMIT - 1;
    let high = compensate(&uniform(65535), &RawConversion { d1: top, d2: top });
    assert_eq!(high, CompensatedReading { temperature_centi: 2001, pressure_centi: 393221 });
    let low = compensate(&uniform(65535), &RawConversion { d1: top, d2: 0 });
    assert_eq!(low, CompensatedReading { temperature_centi: -129068, pressure_centi: -393197 });
}

#[test]
fn zero_coefficients_give_reference_temperature() {
    let top: u32 = RAW_LIMIT - 1;
    let reading = compensate(&uniform(0), &RawConversion { d1: top, d2: top });
    assert_eq!(reading, CompensatedReading { temperature_centi: 2000, pressure_centi: 0 });
}

#[test]
fn division_rounds_toward_zero() {
    // The delta is -1 here: every quotient of a negative term is cut, not floored.
    let reading = compensate(&uniform(1), &RawConversion { d1: 100, d2: 255 });
    assert_eq!(reading.temperature_centi, 2000);
    assert_eq!(reading.pressure_centi, -1);
    let other = compensate(&datasheet_calibration(), &RawConversion { d1: 1, d2: 33464 * 256 - 1 });
    assert_eq!(other.temperature_centi, 2000);
    assert_eq!(other.pressure_centi, -73847);
}

#[test]
fn offset_alone_can_be_negative() {
    let cal = CalibrationSet { c1: 0, c2: 65535, c3: 0, c4: 65535, c5: 65535, c6: 0 };
    let reading = compensate(&cal, &RawConversion { d1: 0, d2: 0 });
    assert_eq!(reading, CompensatedReading { temperature_centi: 2000, pressure_centi: 131066 });
}

#[test]
fn three_bytes_combine_most_significant_first() {
    assert_eq!(raw_from_bytes(0x8A, 0xA2, 0x1A), 9085466);
    assert_eq!(raw_from_bytes(0x82, 0xC1, 0x3E), 8569150);
    assert_eq!(raw_from_bytes(0, 0, 0), 0);
    assert_eq!(raw_from_bytes(0, 0, 1), 1);
    assert_eq!(raw_from_bytes(0, 1, 0), 256);
    assert_eq!(raw_from_bytes(1, 0, 0), 65536);
    assert_eq!(raw_from_bytes(0xFF, 0xFF, 0xFF), RAW_LIMIT - 1);
}

#[test]
fn raw_conversion_takes_24_bits_only() {
    assert_eq!(RawConversion::new(1, 2), Some(RawConversion { d1: 1, d2: 2 }));
    assert_eq!(
        RawConversion::new(RAW_LIMIT - 1, RAW_LIMIT - 1),
        Some(RawConversion { d1: RAW_LIMIT - 1, d2: RAW_LIMIT - 1 })
    );
    assert_eq!(RawConversion::new(RAW_LIMIT, 0), None);
    assert_eq!(RawConversion::new(0, RAW_LIMIT), None);
    assert_eq!(RawConversion::new(u32::MAX, u32::MAX), None);
}

#[test]
fn measurement_keeps_the_raw_values() {
    let raw = RawConversion { d1: 9085466, d2: 8569150 };
    let data = measure(&datasheet_calibration(), &raw);
    assert_eq!(
        data,
        Ms5611Data { d1: 9085466, d2: 8569150, temperature_centi: 2007, pressure_centi: 100009 }
    );
}
