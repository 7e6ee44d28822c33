//! First-order compensation of raw conversions.
//!
//! The formula works on integers throughout: temperature comes out in
//! hundredths of a degree Celsius, pressure in hundredths of a hectopascal.
//! The sensor's second-order correction for low temperatures is not applied.

use vstd::prelude::*;
use crate::calibration::CalibrationSet;

verus! {

/// One more than the largest value of a 24-bit conversion.
pub const RAW_LIMIT: u32 = 0x100_0000;

/// The two raw conversions of one cycle.
#[derive(Clone, Copy, Debug, PartialEq, Eq, Structural)]
pub struct RawConversion {
    /// Uncompensated pressure.
    pub d1: u32,
    /// Uncompensated temperature.
    pub d2: u32,
}

/// A compensated reading, in hundredths of its units.
#[derive(Clone, Copy, Debug, PartialEq, Eq, Structural)]
pub struct CompensatedReading {
    /// Temperature in hundredths of a degree Celsius.
    pub temperature_centi: i64,
    /// Pressure in hundredths of a hectopascal.
    pub pressure_centi: i64,
}

/// The value of three bytes read most significant byte first.
pub open spec fn raw_value(high: u8, middle: u8, low: u8) -> int {
    high as int * 65536 + middle as int * 256 + low as int
}

/// The quotient of `a` by a positive `b`, rounded toward zero.
pub open spec fn quotient_toward_zero(a: int, b: int) -> int {
    if a >= 0 {
        a / b
    } else {
        -((-a) / b)
    }
}

/// Difference between the raw temperature and the reference temperature.
pub open spec fn temperature_delta(cal: CalibrationSet, raw: RawConversion) -> int {
    raw.d2 as int - cal.c5 as int * 256
}

/// Temperature in hundredths of a degree Celsius.
pub open spec fn temperature_centi(cal: CalibrationSet, raw: RawConversion) -> int {
    2000 + quotient_toward_zero(temperature_delta(cal, raw) * cal.c6 as int, 0x80_0000)
}

/// Pressure offset at the actual temperature.
pub open spec fn pressure_offset(cal: CalibrationSet, raw: RawConversion) -> int {
    cal.c2 as int * 0x1_0000 + quotient_toward_zero(cal.c4 as int * temperature_delta(cal, raw), 0x80)
}

/// Pressure sensitivity at the actual temperature.
pub open spec fn pressure_sensitivity(cal: CalibrationSet, raw: RawConversion) -> int {
    cal.c1 as int * 0x8000 + quotient_toward_zero(cal.c3 as int * temperature_delta(cal, raw), 0x100)
}

/// Pressure in hundredths of a hectopascal.
pub open spec fn pressure_centi(cal: CalibrationSet, raw: RawConversion) -> int {
    quotient_toward_zero(
        quotient_toward_zero(raw.d1 as int * pressure_sensitivity(cal, raw), 0x20_0000)
            - pressure_offset(cal, raw),
        0x8000,
    )
}

/// The reading that the formula gives for one pair of conversions.
pub open spec fn compensated(cal: CalibrationSet, raw: RawConversion) -> CompensatedReading {
    CompensatedReading {
        temperature_centi: temperature_centi(cal, raw) as i64,
        pressure_centi: pressure_centi(cal, raw) as i64,
    }
}

impl RawConversion {
    /// Both conversions fit in 24 bits.
    pub open spec fn wf(self) -> bool {
        self.d1 < RAW_LIMIT && self.d2 < RAW_LIMIT
    }

    /// A pair of conversions, where both fit in 24 bits.
    pub fn new(d1: u32, d2: u32) -> (raw: Option<RawConversion>)
        ensures
            raw is Some <==> d1 < RAW_LIMIT && d2 < RAW_LIMIT,
            raw is Some ==> raw.unwrap() == (RawConversion { d1, d2 }),
    {
        if d1 < RAW_LIMIT && d2 < RAW_LIMIT {
            Some(RawConversion { d1, d2 })
        } else {
            None
        }
    }
}

/// Combines the three bytes of a conversion result, most significant byte first.
pub fn raw_from_bytes(high: u8, middle: u8, low: u8) -> (value: u32)
    ensures
        value as int == raw_value(high, middle, low),
        value < RAW_LIMIT,
{
    let h: u32 = high as u32;
    let m: u32 = middle as u32;
    let l: u32 = low as u32;
    assert((h << 16) | (m << 8) | l == h * 65536 + m * 256 + l) by (bit_vector)
        requires
            h < 256,
            m < 256,
            l < 256,
    ;
    (h << 16) | (m << 8) | l
}

/// Every term of the formula stays far inside the range of a signed 64-bit
/// integer, whatever the coefficients and the 24-bit conversions are, also
/// where the raw temperature lies below the reference and the delta is
/// negative.
pub proof fn terms_fit_in_64_bits(cal: CalibrationSet, raw: RawConversion)
    requires
        raw.wf(),
    ensures
        -0x100_0000 < temperature_delta(cal, raw) < 0x100_0000,
        -0x100_0000_0000 < temperature_delta(cal, raw) * (cal.c6 as int) < 0x100_0000_0000,
        -0x100_0000_0000 < (cal.c4 as int) * temperature_delta(cal, raw) < 0x100_0000_0000,
        -0x100_0000_0000 < (cal.c3 as int) * temperature_delta(cal, raw) < 0x100_0000_0000,
        -0x2_0000 < temperature_centi(cal, raw) - 2000 < 0x2_0000,
        -0x2_0000_0000 < pressure_offset(cal, raw) < 0x3_0000_0000,
        -0x1_0000_0000 < pressure_sensitivity(cal, raw) < 0x1_8000_0000,
        -0x100_0000_0000_0000 < (raw.d1 as int) * pressure_sensitivity(cal, raw)
            < 0x180_0000_0000_0000,
        -0x20_0000 < pressure_centi(cal, raw) < 0x20_0000,
{
    let dt = temperature_delta(cal, raw);
    let c3 = cal.c3 as int;
    let c4 = cal.c4 as int;
    let c6 = cal.c6 as int;
    let d1 = raw.d1 as int;
    assert(-0x100_0000_0000 < dt * c6 < 0x100_0000_0000) by (nonlinear_arith)
        requires
            -0x100_0000 < dt < 0x100_0000,
            0 <= c6 < 0x1_0000,
    ;
    assert(-0x100_0000_0000 < c4 * dt < 0x100_0000_0000) by (nonlinear_arith)
        requires
            -0x100_0000 < dt < 0x100_0000,
            0 <= c4 < 0x1_0000,
    ;
    assert(-0x100_0000_0000 < c3 * dt < 0x100_0000_0000) by (nonlinear_arith)
        requires
            -0x100_0000 < dt < 0x100_0000,
            0 <= c3 < 0x1_0000,
    ;
    let sens = pressure_sensitivity(cal, raw);
    assert(-0x1_0000_0000 < sens < 0x1_8000_0000);
    assert(-0x100_0000_0000_0000 < d1 * sens < 0x180_0000_0000_0000) by (nonlinear_arith)
        requires
            0 <= d1 < 0x100_0000,
            -0x1_0000_0000 < sens < 0x1_8000_0000,
    ;
}

/// When the raw temperature lies below the reference, the delta is negative
/// and the compensated temperature does not exceed twenty degrees; otherwise
/// neither holds the other way round.
pub proof fn delta_sign_follows_reference(cal: CalibrationSet, raw: RawConversion)
    ensures
        temperature_delta(cal, raw) < 0 <==> (raw.d2 as int) < (cal.c5 as int) * 256,
        temperature_delta(cal, raw) < 0 ==> temperature_centi(cal, raw) <= 2000,
        temperature_delta(cal, raw) >= 0 ==> temperature_centi(cal, raw) >= 2000,
{
    let dt = temperature_delta(cal, raw);
    let c6 = cal.c6 as int;
    assert(dt < 0 ==> dt * c6 <= 0) by (nonlinear_arith)
        requires
            c6 >= 0,
    ;
    assert(dt >= 0 ==> dt * c6 >= 0) by (nonlinear_arith)
        requires
            c6 >= 0,
    ;
}

/// Equal coefficients and equal conversions give equal readings.
pub proof fn compensation_is_a_function(
    cal_a: CalibrationSet,
    raw_a: RawConversion,
    cal_b: CalibrationSet,
    raw_b: RawConversion,
)
    requires
        cal_a == cal_b,
        raw_a == raw_b,
    ensures
        compensated(cal_a, raw_a) == compensated(cal_b, raw_b),
{
}

/// Applies the sensor's first-order formula to one pair of conversions.
pub fn compensate(cal: &CalibrationSet, raw: &RawConversion) -> (reading: CompensatedReading)
    requires
        raw.wf(),
    ensures
        reading == compensated(*cal, *raw),
        reading.temperature_centi as int == temperature_centi(*cal, *raw),
        reading.pressure_centi as int == pressure_centi(*cal, *raw),
{
    proof {
        terms_fit_in_64_bits(*cal, *raw);
    }
    let c1: i64 = cal.c1 as i64;
    let c2: i64 = cal.c2 as i64;
    let c3: i64 = cal.c3 as i64;
    let c4: i64 = cal.c4 as i64;
    let c5: i64 = cal.c5 as i64;
    let c6: i64 = cal.c6 as i64;
    let d1: i64 = raw.d1 as i64;
    let d2: i64 = raw.d2 as i64;
    let delta: i64 = d2 - c5 * 256;
    let temperature: i64 = 2000 + (delta * c6) / 0x80_0000;
    let offset: i64 = c2 * 0x1_0000 + (c4 * delta) / 0x80;
    let sensitivity: i64 = c1 * 0x8000 + (c3 * delta) / 0x100;
    let pressure: i64 = ((d1 * sensitivity) / 0x20_0000 - offset) / 0x8000;
    CompensatedReading { temperature_centi: temperature, pressure_centi: pressure }
}

} // verus!
