//! Plain-data outcomes of the quantum device facade.
//!
//! The device itself (probing, calibration, state readout) lives with the
//! host: the bridge only consumes the results of those operations, so the
//! types here carry everything the lifecycle logic reads from the device.

use vstd::prelude::*;

verus! {

/// Failure categories that the device facade can report from a calibration
/// attempt. Calibration is the only fallible device operation.
#[derive(Clone, Copy, Debug, PartialEq, Eq)]
pub enum DeviceError {
    /// No device was reachable when calibration started.
    Unavailable,
    /// The device did not answer within its bounded calibration time.
    Timeout,
    /// The device answered, but outside acceptable tolerances.
    OutOfTolerance,
}

/// Outcome of a completed calibration run: when it finished on the monotonic
/// clock, whether the device came back within tolerance, and an optional
/// diagnostic code for the host's logs.
#[derive(Clone, Copy, Debug, PartialEq, Eq)]
pub struct CalibrationReport {
    /// Completion time in nanoseconds on the monotonic clock.
    pub timestamp_ns: u64,
    /// Whether the device came back within tolerance.
    pub success: bool,
    /// Device-specific diagnostic code, when the device supplied one.
    pub diagnostic: Option<u32>,
}

/// A calibration outcome counts as a success only when the device returned a
/// report and the report is marked successful; an out-of-tolerance report
/// fails a calibration just as a device error does.
pub open spec fn calibration_succeeded(outcome: Result<CalibrationReport, DeviceError>) -> bool {
    outcome matches Ok(report) && report.success
}

} // verus!
