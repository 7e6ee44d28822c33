//! Acquisition, compensation and record keeping for a pressure transducer of
//! the MS5611 class and two single-wire digital thermometers.
//!
//! Everything here works on plain values. The caller owns the bus, the clock
//! and the files: it performs the actions that the state machines of this
//! crate ask for and hands back what happened.

pub mod calibration;
pub mod compensation;
pub mod thermometer;
pub mod record;
pub mod acquisition;
pub mod poll;
