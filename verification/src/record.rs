//! What one cycle writes down.

use vstd::prelude::*;
use crate::calibration::CalibrationSet;
use crate::compensation::{compensate, compensated, CompensatedReading, RawConversion};
use crate::thermometer::ThermometerError;

verus! {

/// What stands in a record for a thermometer that gave no reading.
pub const PLACEHOLDER_MILLI: i32 = 0;

/// One reading of the pressure sensor: the raw conversions and what the
/// formula makes of them.
#[derive(Clone, Copy, Debug, PartialEq, Eq, Structural)]
pub struct Ms5611Data {
    /// Uncompensated pressure.
    pub d1: u32,
    /// Uncompensated temperature.
    pub d2: u32,
    /// Temperature in hundredths of a degree Celsius.
    pub temperature_centi: i64,
    /// Pressure in hundredths of a hectopascal.
    pub pressure_centi: i64,
}

/// The unit of the log: one pressure reading and the two thermometers'
/// temperatures, in thousandths of a degree Celsius.
#[derive(Clone, Copy, Debug, PartialEq, Eq, Structural)]
pub struct SensorRecord {
    /// The pressure sensor's reading.
    pub ms5611: Ms5611Data,
    /// First thermometer, or the placeholder.
    pub ds18b20_1_milli: i32,
    /// Second thermometer, or the placeholder.
    pub ds18b20_2_milli: i32,
}

/// The pressure reading that belongs to coefficients and conversions.
pub open spec fn measurement(cal: CalibrationSet, raw: RawConversion) -> Ms5611Data {
    Ms5611Data {
        d1: raw.d1,
        d2: raw.d2,
        temperature_centi: compensated(cal, raw).temperature_centi,
        pressure_centi: compensated(cal, raw).pressure_centi,
    }
}

/// What a thermometer contributes to a record: its reading, or the
/// placeholder where it gave none.
pub open spec fn slot_value(reading: Result<i32, ThermometerError>) -> i32 {
    match reading {
        Ok(milli) => milli,
        Err(_) => PLACEHOLDER_MILLI,
    }
}

/// The record of a cycle with the given pressure reading and thermometer
/// outcomes.
pub open spec fn record_of(
    data: Ms5611Data,
    first: Result<i32, ThermometerError>,
    second: Result<i32, ThermometerError>,
) -> SensorRecord {
    SensorRecord {
        ms5611: data,
        ds18b20_1_milli: slot_value(first),
        ds18b20_2_milli: slot_value(second),
    }
}

/// Compensates one pair of conversions and keeps the raw values beside the
/// result.
pub fn measure(cal: &CalibrationSet, raw: &RawConversion) -> (data: Ms5611Data)
    requires
        raw.wf(),
    ensures
        data == measurement(*cal, *raw),
{
    let reading: CompensatedReading = compensate(cal, raw);
    Ms5611Data {
        d1: raw.d1,
        d2: raw.d2,
        temperature_centi: reading.temperature_centi,
        pressure_centi: reading.pressure_centi,
    }
}

/// The value that a thermometer's outcome puts into a record.
pub fn slot_of(reading: &Result<i32, ThermometerError>) -> (milli: i32)
    ensures
        milli == slot_value(*reading),
{
    match reading {
        Ok(milli) => *milli,
        Err(_) => PLACEHOLDER_MILLI,
    }
}

impl SensorRecord {
    /// Puts a record together. A thermometer that failed leaves the
    /// placeholder in its own slot and the other slot as it is.
    pub fn assemble(
        data: Ms5611Data,
        first: &Result<i32, ThermometerError>,
        second: &Result<i32, ThermometerError>,
    ) -> (record: SensorRecord)
        ensures
            record == record_of(data, *first, *second),
    {
        SensorRecord {
            ms5611: data,
            ds18b20_1_milli: slot_of(first),
            ds18b20_2_milli: slot_of(second),
        }
    }
}

} // verus!
