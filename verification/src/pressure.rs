//! Pressure-stall information (PSI) for CPU, memory, and I/O.
//!
//! Each record carries the fraction of time some tasks were stalled
//! waiting for the resource (three decaying averages) and the total
//! stall time.  The engine publishes the totals; the averages are
//! carried in hundredths of a percent, as the kernel reports exactly
//! two decimal places.

use vstd::prelude::*;

verus! {

/// One pressure record: the three averages in hundredths of a percent,
/// and the total stall time in microseconds.
#[derive(Clone, Copy, PartialEq, Eq, Structural, Debug)]
pub struct PressureRecordReading {
    pub avg10: u64,
    pub avg60: u64,
    pub avg300: u64,
    pub total: u64,
}

/// Pressure stall information for one resource (CPU, memory, or I/O).
#[derive(Clone, Copy, PartialEq, Eq, Structural, Debug)]
pub struct SystemPressure {
    /// Stalled fraction over a 10 second window, hundredths of a percent.
    pub avg10: u64,
    /// Stalled fraction over a 60 second window, hundredths of a percent.
    pub avg60: u64,
    /// Stalled fraction over a 300 second window, hundredths of a percent.
    pub avg300: u64,
    /// Total stall time in microseconds.
    pub total: u64,
}

impl SystemPressure {
    /// Carry one raw record over, field for field.
    pub fn from_record(value: PressureRecordReading) -> (r: SystemPressure)
        ensures
            r.avg10 == value.avg10,
            r.avg60 == value.avg60,
            r.avg300 == value.avg300,
            r.total == value.total,
    {
        SystemPressure {
            avg10: value.avg10,
            avg60: value.avg60,
            avg300: value.avg300,
            total: value.total,
        }
    }
}

} // verus!
