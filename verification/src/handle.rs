//! The handle layer offered to foreign hosts.
//!
//! A host owns a bridge through an opaque handle: construction transfers the
//! bridge out, destruction transfers it back in, and every entry tolerates a
//! null handle by returning the boolean sentinel `false` or doing nothing.
//! Here the handle is an `Option`: `None` models the null handle, so the
//! null-safety and single-destruction contracts are stated and checked on
//! plain values. A host-side boundary that deals in raw pointers converts a
//! pointer to exactly this `Option` before calling in.

use crate::bridge::{after_initialize, initial_bridge, initialize_outcome, QuantumAIBridge};
use crate::device::{CalibrationReport, DeviceError};
use vstd::prelude::*;

verus! {

/// Allocates a fresh bridge and hands the owning handle out. A null result
/// models an out-of-memory condition; this constructor always produces a
/// handle, and it owns the only bridge behind it.
pub fn quantum_bridge_new() -> (handle: Option<QuantumAIBridge>)
    ensures
        handle matches Some(bridge) && bridge@ == initial_bridge(),
{
    Some(QuantumAIBridge::new())
}

/// Drives one initialization attempt through a handle and collapses the
/// outcome to a boolean: `true` exactly when the handle is live and the
/// attempt succeeded. A null handle is left untouched and answered `false`.
///
/// As at the native entry, the calibration timestamp comes from the same
/// monotonic clock as every earlier one.
pub fn quantum_bridge_initialize(
    handle: &mut Option<QuantumAIBridge>,
    probe_ok: bool,
    calibration: Result<CalibrationReport, DeviceError>,
) -> (ok: bool)
    requires
        *old(handle) matches Some(bridge) ==> (calibration matches Ok(report) ==> (report.success
            ==> report.timestamp_ns >= bridge@.last_calibration_ns)),
    ensures
        ok == (*old(handle) is Some && initialize_outcome(probe_ok, calibration) is Ok),
        *old(handle) is None ==> *final(handle) is None,
        *old(handle) matches Some(bridge) ==> (*final(handle) matches Some(after) && after@
            == after_initialize(bridge@, probe_ok, calibration)),
{
    match handle {
        None => false,
        Some(bridge) => bridge.initialize_quantum_core(probe_ok, calibration).is_ok(),
    }
}

/// Polls the safety gate through a handle at monotonic-clock time `now_ns`.
/// Read-only; a null handle is answered with the sentinel `false`.
pub fn quantum_bridge_safety_check(handle: &Option<QuantumAIBridge>, now_ns: u64) -> (allowed:
    bool)
    ensures
        allowed == (handle matches Some(bridge) && bridge@.gate_open(now_ns)),
{
    match handle {
        None => false,
        Some(bridge) => bridge.safety_check(now_ns),
    }
}

/// Reclaims the bridge behind a handle exactly once: afterwards the handle is
/// empty, so a second destruction of the same handle finds nothing and is a
/// no-op, as is destroying a null handle.
pub fn quantum_bridge_destroy(handle: &mut Option<QuantumAIBridge>)
    ensures
        *final(handle) is None,
{
    *handle = None;
}

} // verus!
