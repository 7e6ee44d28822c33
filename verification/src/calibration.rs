//! Calibration coefficients of the pressure sensor.

use vstd::prelude::*;

verus! {

/// Number of calibration coefficients that the sensor stores.
pub const COEFFICIENT_COUNT: usize = 6;

/// Bus address of the first calibration word; the others follow two apart.
pub const FIRST_WORD_ADDRESS: u8 = 0xA2;

/// The six factory coefficients of one sensor, as read in one cycle.
#[derive(Clone, Copy, Debug, PartialEq, Eq, Structural)]
pub struct CalibrationSet {
    /// Pressure sensitivity.
    pub c1: u16,
    /// Pressure offset.
    pub c2: u16,
    /// Temperature coefficient of the pressure sensitivity.
    pub c3: u16,
    /// Temperature coefficient of the pressure offset.
    pub c4: u16,
    /// Reference temperature.
    pub c5: u16,
    /// Temperature coefficient of the temperature.
    pub c6: u16,
}

/// The value of two bytes read most significant byte first.
pub open spec fn word_value(high: u8, low: u8) -> int {
    high as int * 256 + low as int
}

/// Bus address of the calibration word with the given index, counted from zero.
pub open spec fn word_address(index: int) -> int {
    0xA2 + 2 * index
}

/// Combines the two bytes of a calibration word, most significant byte first.
pub fn word_from_bytes(high: u8, low: u8) -> (word: u16)
    ensures
        word as int == word_value(high, low),
{
    let h: u16 = high as u16;
    let l: u16 = low as u16;
    assert((h << 8) | l == h * 256 + l) by (bit_vector)
        requires
            h < 256,
            l < 256,
    ;
    (h << 8) | l
}

/// Every 16-bit word is the combination of exactly one pair of bytes: its
/// upper and its lower half.
pub proof fn word_combination_is_one_to_one(high: u8, low: u8, word: u16)
    ensures
        word as int == word_value(high, low) <==> (high as int == word as int / 256 && low as int
            == word as int % 256),
{
}

/// The address to write to the bus in order to select one calibration word.
pub fn calibration_address(index: usize) -> (address: u8)
    requires
        index < COEFFICIENT_COUNT,
    ensures
        address as int == word_address(index as int),
{
    let i: u8 = index as u8;
    FIRST_WORD_ADDRESS + 2 * i
}

impl CalibrationSet {
    /// The coefficients as a sequence, C1 first.
    pub open spec fn words(self) -> Seq<u16> {
        seq![self.c1, self.c2, self.c3, self.c4, self.c5, self.c6]
    }

    /// The set with the coefficient of the given index, counted from zero,
    /// replaced by `word`.
    pub open spec fn replaced(self, index: int, word: u16) -> CalibrationSet {
        if index == 0 {
            CalibrationSet { c1: word, ..self }
        } else if index == 1 {
            CalibrationSet { c2: word, ..self }
        } else if index == 2 {
            CalibrationSet { c3: word, ..self }
        } else if index == 3 {
            CalibrationSet { c4: word, ..self }
        } else if index == 4 {
            CalibrationSet { c5: word, ..self }
        } else {
            CalibrationSet { c6: word, ..self }
        }
    }

    /// The set with nothing read yet: every coefficient zero.
    pub fn empty() -> (set: CalibrationSet)
        ensures
            set == (CalibrationSet { c1: 0, c2: 0, c3: 0, c4: 0, c5: 0, c6: 0 }),
    {
        CalibrationSet { c1: 0, c2: 0, c3: 0, c4: 0, c5: 0, c6: 0 }
    }

    /// Replaces the coefficient of the given index, counted from zero, and
    /// leaves the others as they are.
    pub fn with_word(self, index: usize, word: u16) -> (set: CalibrationSet)
        requires
            index < COEFFICIENT_COUNT,
        ensures
            set == self.replaced(index as int, word),
            set.words() == self.words().update(index as int, word),
    {
        let set = if index == 0 {
            CalibrationSet { c1: word, ..self }
        } else if index == 1 {
            CalibrationSet { c2: word, ..self }
        } else if index == 2 {
            CalibrationSet { c3: word, ..self }
        } else if index == 3 {
            CalibrationSet { c4: word, ..self }
        } else if index == 4 {
            CalibrationSet { c5: word, ..self }
        } else {
            CalibrationSet { c6: word, ..self }
        };
        assert(set.words() =~= self.words().update(index as int, word));
        set
    }
}

} // verus!
