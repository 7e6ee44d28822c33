use sensor_program::calibration::{
    calibration_address, word_from_bytes, CalibrationSet, COEFFICIENT_COUNT, FIRST_WORD_ADDRESS,
};

#[test]
fn word_is_big_endian() {
    assert_eq!(word_from_bytes(0x12, 0x34), 0x1234);
    assert_eq!(word_from_bytes(0x34, 0x12), 0x3412);
    assert_eq!(word_from_bytes(0x00, 0x00), 0x0000);
    assert_eq!(word_from_bytes(0x00, 0xFF), 0x00FF);
    assert_eq!(word_from_bytes(0xFF, 0x00), 0xFF00);
    assert_eq!(word_from_bytes(0xFF, 0xFF), 0xFFFF);
}

#[test]
fn every_byte_pair_combines_big_endian() {
    for high in 0..=255u8 {
        for low in 0..=255u8 {
            let word = word_from_bytes(high, low);
            assert_eq!(word, u16::from_be_bytes([high, low]));
            assert_eq!(word as u32, high as u32 * 256 + low as u32);
        }
    }
}

#[test]
fn calibration_addresses_are_fixed() {
    assert_eq!(COEFFICIENT_COUNT, 6);
    assert_eq!(FIRST_WORD_ADDRESS, 0xA2);
    let addresses: Vec<u8> = (0..COEFFICIENT_COUNT).map(calibration_address).collect();
    assert_eq!(addresses, vec![0xA2, 0xA4, 0xA6, 0xA8, 0xAA, 0xAC]);
}

#[test]
fn with_word_replaces_one_coefficient() {
    let empty = CalibrationSet::empty();
    assert_eq!(empty, CalibrationSet { c1: 0, c2: 0, c3: 0, c4: 0, c5: 0, c6: 0 });
    assert_eq!(
        empty.with_word(0, 7),
        CalibrationSet { c1: 7, c2: 0, c3: 0, c4: 0, c5: 0, c6: 0 }
    );
    assert_eq!(
        empty.with_word(3, 9),
        CalibrationSet { c1: 0, c2: 0, c3: 0, c4: 9, c5: 0, c6: 0 }
    );
    let mut set = empty;
    for index in 0..COEFFICIENT_COUNT {
        set = set.with_word(index, 100 + index as u16);
    }
    assert_eq!(set, CalibrationSet { c1: 100, c2: 101, c3: 102, c4: 103, c5: 104, c6: 105 });
    assert_eq!(
        set.with_word(5, 1),
        CalibrationSet { c1: 100, c2: 101, c3: 102, c4: 103, c5: 104, c6: 1 }
    );
}
