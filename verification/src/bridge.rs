//! The bridge object: lifecycle flags, calibration timestamp, error counter,
//! and the safety gate that decides whether quantum-enhanced work may proceed.

use crate::device::{calibration_succeeded, CalibrationReport, DeviceError};
use vstd::prelude::*;

verus! {

/// Maximum age, in nanoseconds, of the most recent successful calibration
/// before the safety gate closes (one hour).
pub const CALIBRATION_TTL: u64 = 3_600_000_000_000;

/// Number of recorded errors tolerated before the safety gate closes.
pub const ERROR_BUDGET: u64 = 1000;

/// Errors surfaced by the bridge to its immediate caller. The foreign
/// boundary collapses these into a boolean sentinel.
#[derive(Clone, Copy, Debug, PartialEq, Eq)]
pub enum BridgeError {
    /// The device probe reported no reachable hardware.
    HardwareUnavailable,
    /// Calibration returned a device error or an out-of-tolerance report.
    CalibrationFailed,
    /// The safety gate was closed when work was submitted.
    NotReady,
    /// A device read failed during steady-state operation.
    DeviceFault,
    /// A foreign caller passed a null handle.
    NullHandle,
}

/// Mathematical model of a bridge: the four fields the lifecycle logic reads
/// and writes.
pub struct BridgeView {
    /// Raised by the first successful initialization; never lowered again.
    pub initialized: bool,
    /// Whether the safety gate may currently be open; cleared on degradation and
    /// re-raised by a successful recalibration.
    pub quantum_ready: bool,
    /// Monotonic-clock time of the most recent successful calibration.
    pub last_calibration_ns: u64,
    /// Errors recorded since the most recent successful calibration.
    pub error_count: u64,
}

impl BridgeView {
    /// Well-formedness: a ready bridge is initialized and still within its
    /// error budget.
    pub open spec fn wf(self) -> bool {
        self.quantum_ready ==> self.initialized && self.error_count < ERROR_BUDGET
    }

    /// The safety gate is open at monotonic-clock time `now_ns` iff the bridge
    /// is ready, the last successful calibration is younger than the TTL, and
    /// the error budget is not exhausted.
    pub open spec fn gate_open(self, now_ns: u64) -> bool {
        &&& self.quantum_ready
        &&& (now_ns as int) < self.last_calibration_ns + CALIBRATION_TTL
        &&& self.error_count < ERROR_BUDGET
    }
}

/// The state a bridge is constructed in: uninitialized, gate closed, no
/// calibration on record, no errors.
pub open spec fn initial_bridge() -> BridgeView {
    BridgeView { initialized: false, quantum_ready: false, last_calibration_ns: 0, error_count: 0 }
}

/// The state published by a successful initialization: ready, carrying the
/// report's timestamp, with the error counter reset.
pub open spec fn calibrated_bridge(report: CalibrationReport) -> BridgeView {
    BridgeView {
        initialized: true,
        quantum_ready: true,
        last_calibration_ns: report.timestamp_ns,
        error_count: 0,
    }
}

/// The state after an initialization attempt: on success the calibrated
/// state, on any failure the state unchanged.
pub open spec fn after_initialize(
    s: BridgeView,
    probe_ok: bool,
    calibration: Result<CalibrationReport, DeviceError>,
) -> BridgeView {
    match calibration {
        Ok(report) => if probe_ok && report.success {
            calibrated_bridge(report)
        } else {
            s
        },
        Err(_) => s,
    }
}

/// What an initialization attempt returns: a failed probe is reported before
/// calibration is considered; only a successful calibration yields success.
pub open spec fn initialize_outcome(
    probe_ok: bool,
    calibration: Result<CalibrationReport, DeviceError>,
) -> Result<(), BridgeError> {
    if !probe_ok {
        Err(BridgeError::HardwareUnavailable)
    } else if !calibration_succeeded(calibration) {
        Err(BridgeError::CalibrationFailed)
    } else {
        Ok(())
    }
}

/// The state after one recorded error: the counter grows by one, and the
/// gate closes as soon as the counter reaches the error budget.
pub open spec fn after_record_error(s: BridgeView) -> BridgeView {
    BridgeView {
        initialized: s.initialized,
        quantum_ready: s.quantum_ready && s.error_count + 1 < ERROR_BUDGET,
        last_calibration_ns: s.last_calibration_ns,
        error_count: (s.error_count + 1) as u64,
    }
}

/// The coordination object exposed to hosts.
pub struct QuantumAIBridge {
    initialized: bool,
    quantum_ready: bool,
    last_calibration_ns: u64,
    error_count: u64,
}

impl View for QuantumAIBridge {
    type V = BridgeView;

    closed spec fn view(&self) -> BridgeView {
        BridgeView {
            initialized: self.initialized,
            quantum_ready: self.quantum_ready,
            last_calibration_ns: self.last_calibration_ns,
            error_count: self.error_count,
        }
    }
}

impl QuantumAIBridge {
    /// Constructs a bridge in the uninitialized state.
    pub fn new() -> (bridge: Self)
        ensures
            bridge@ == initial_bridge(),
    {
        Self { initialized: false, quantum_ready: false, last_calibration_ns: 0, error_count: 0 }
    }

    /// Hardware availability probe. This facade stands in for a real device
    /// driver and always reports a reachable device; it is side-effect-free
    /// and may be called before initialization.
    pub fn check_quantum_hardware(&self) -> (available: bool)
        ensures
            available,
    {
        true
    }

    /// Drives one initialization attempt from the device facade's outcomes:
    /// `probe_ok` is what the probe reported and `calibration` what the
    /// calibration run returned. A failed probe or calibration leaves the
    /// bridge unchanged; a successful calibration publishes the report's
    /// timestamp, resets the error counter and opens the safety gate.
    ///
    /// The calibration timestamp comes from the same monotonic clock as every
    /// earlier one, so it is never older than the timestamp already on
    /// record; callers on a non-monotonic clock must reject such a report
    /// themselves.
    pub fn initialize_quantum_core(
        &mut self,
        probe_ok: bool,
        calibration: Result<CalibrationReport, DeviceError>,
    ) -> (result: Result<(), BridgeError>)
        requires
            calibration matches Ok(report) ==> (report.success ==> report.timestamp_ns
                >= old(self)@.last_calibration_ns),
        ensures
            result == initialize_outcome(probe_ok, calibration),
            final(self)@ == after_initialize(old(self)@, probe_ok, calibration),
            final(self)@.last_calibration_ns >= old(self)@.last_calibration_ns,
            old(self)@.initialized ==> final(self)@.initialized,
            old(self)@.wf() ==> final(self)@.wf(),
    {
        if !probe_ok {
            return Err(BridgeError::HardwareUnavailable);
        }
        match calibration {
            Ok(report) => {
                if report.success {
                    self.last_calibration_ns = report.timestamp_ns;
                    self.error_count = 0;
                    self.initialized = true;
                    self.quantum_ready = true;
                    Ok(())
                } else {
                    Err(BridgeError::CalibrationFailed)
                }
            },
            Err(_) => Err(BridgeError::CalibrationFailed),
        }
    }

    /// Records one degradation event. The counter grows by one and, exactly
    /// when it reaches the error budget, the safety gate closes; the calibration
    /// timestamp and the initialized flag are untouched.
    pub fn record_error(&mut self)
        requires
            old(self)@.error_count < u64::MAX,
        ensures
            final(self)@ == after_record_error(old(self)@),
            final(self)@.last_calibration_ns == old(self)@.last_calibration_ns,
            old(self)@.wf() ==> final(self)@.wf(),
    {
        self.error_count = self.error_count + 1;
        if self.error_count >= ERROR_BUDGET {
            self.quantum_ready = false;
        }
    }

    /// The safety gate: decides whether quantum-enhanced operations may
    /// proceed at monotonic-clock time `now_ns`. True iff the bridge is
    /// ready, the last successful calibration is younger than the TTL, and
    /// fewer errors than the budget have been recorded. A reading older than
    /// the recorded calibration counts as age zero, so a clamped wall clock
    /// cannot close the safety gate spuriously.
    pub fn safety_check(&self, now_ns: u64) -> (allowed: bool)
        ensures
            allowed == self@.gate_open(now_ns),
    {
        let calibration_valid = if now_ns >= self.last_calibration_ns {
            now_ns - self.last_calibration_ns < CALIBRATION_TTL
        } else {
            true
        };
        calibration_valid && self.error_count < ERROR_BUDGET && self.quantum_ready
    }

    /// The inference gate's decision: work submitted at monotonic-clock time
    /// `now_ns` is admitted exactly when the safety gate is open, and refused
    /// as not ready otherwise. The numeric enhancement itself is the host's
    /// business; this is the part that may say no.
    pub fn authorize_inference(&self, now_ns: u64) -> (decision: Result<(), BridgeError>)
        ensures
            decision == (if self@.gate_open(now_ns) {
                Ok::<(), BridgeError>(())
            } else {
                Err::<(), BridgeError>(BridgeError::NotReady)
            }),
    {
        if self.safety_check(now_ns) {
            Ok(())
        } else {
            Err(BridgeError::NotReady)
        }
    }

    /// Monotonic-clock time of the most recent successful calibration, zero
    /// when none has succeeded yet. Hosts use it to hold a new calibration
    /// report against the monotonicity contract of `initialize_quantum_core`.
    pub fn last_calibration_ns(&self) -> (timestamp_ns: u64)
        ensures
            timestamp_ns == self@.last_calibration_ns,
    {
        self.last_calibration_ns
    }

    /// Whether the first successful initialization has happened; once raised,
    /// the flag never falls again.
    pub fn is_initialized(&self) -> (flag: bool)
        ensures
            flag == self@.initialized,
    {
        self.initialized
    }

    /// Whether the bridge currently counts as ready; cleared when the error
    /// budget is exhausted and re-raised by a successful recalibration.
    pub fn is_quantum_ready(&self) -> (flag: bool)
        ensures
            flag == self@.quantum_ready,
    {
        self.quantum_ready
    }

    /// Errors recorded since the most recent successful calibration.
    pub fn error_count(&self) -> (count: u64)
        ensures
            count == self@.error_count,
    {
        self.error_count
    }
}

} // verus!
