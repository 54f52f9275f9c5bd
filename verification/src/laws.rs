//! The laws the safety gate obeys, each proved from the bridge's model alone.

use crate::bridge::{
    after_initialize, after_record_error, initialize_outcome, BridgeView, CALIBRATION_TTL,
    ERROR_BUDGET,
};
use crate::device::{calibration_succeeded, CalibrationReport, DeviceError};
use vstd::prelude::*;

verus! {

/// A ready bridge is always an initialized bridge.
pub proof fn lemma_ready_implies_initialized(s: BridgeView)
    requires
        s.wf(),
        s.quantum_ready,
    ensures
        s.initialized,
{
}

/// An open gate vouches for both of its obligations: the last successful
/// calibration is younger than the TTL, and the error budget is not
/// exhausted.
pub proof fn lemma_gate_open_bounds(s: BridgeView, now_ns: u64)
    requires
        s.gate_open(now_ns),
    ensures
        now_ns - s.last_calibration_ns < CALIBRATION_TTL,
        s.error_count < ERROR_BUDGET,
{
}

/// A successful initialization succeeds as an outcome and opens the safety gate for
/// an immediate safety check at the calibration's own timestamp.
pub proof fn lemma_initialize_then_safety_check(
    s: BridgeView,
    probe_ok: bool,
    calibration: Result<CalibrationReport, DeviceError>,
)
    requires
        probe_ok,
        calibration_succeeded(calibration),
    ensures
        initialize_outcome(probe_ok, calibration) is Ok,
        calibration matches Ok(report) ==> after_initialize(s, probe_ok, calibration).gate_open(
            report.timestamp_ns,
        ),
{
}

/// Without an intervening state change, repeated safety checks agree until
/// the TTL expires: any two observation times taken no earlier than the
/// calibration and before its TTL deadline see the same gate value.
pub proof fn lemma_safety_check_stable(s: BridgeView, t1_ns: u64, t2_ns: u64)
    requires
        s.last_calibration_ns <= t1_ns,
        s.last_calibration_ns <= t2_ns,
        (t1_ns as int) < s.last_calibration_ns + CALIBRATION_TTL,
        (t2_ns as int) < s.last_calibration_ns + CALIBRATION_TTL,
    ensures
        s.gate_open(t1_ns) == s.gate_open(t2_ns),
{
}

/// The error budget closes the safety gate exactly at the budget: one error short of
/// it an otherwise healthy bridge still passes the check, at the budget the
/// check fails, and the error that reaches the budget is the one that clears
/// readiness.
pub proof fn lemma_error_budget_boundary(s: BridgeView, now_ns: u64)
    requires
        s.quantum_ready,
        (now_ns as int) < s.last_calibration_ns + CALIBRATION_TTL,
    ensures
        s.error_count == ERROR_BUDGET - 1 ==> s.gate_open(now_ns),
        s.error_count >= ERROR_BUDGET ==> !s.gate_open(now_ns),
        s.error_count == ERROR_BUDGET - 1 ==> !after_record_error(s).quantum_ready,
        s.error_count < ERROR_BUDGET - 1 ==> after_record_error(s).quantum_ready,
{
}

/// The TTL closes the safety gate exactly at its deadline: one nanosecond before the
/// calibration turns stale an otherwise healthy bridge still passes the
/// check, from the deadline on it fails.
pub proof fn lemma_ttl_boundary(s: BridgeView, now_ns: u64)
    requires
        s.quantum_ready,
        s.error_count < ERROR_BUDGET,
    ensures
        now_ns == s.last_calibration_ns + CALIBRATION_TTL - 1 ==> s.gate_open(now_ns),
        now_ns == s.last_calibration_ns + CALIBRATION_TTL ==> !s.gate_open(now_ns),
        s.last_calibration_ns + CALIBRATION_TTL <= now_ns ==> !s.gate_open(now_ns),
{
}

} // verus!
