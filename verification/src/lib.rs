//! A coordination object that gates a classical numeric inference pipeline on
//! the health of a (simulated) quantum accelerator.
//!
//! The bridge tracks a small lifecycle — uninitialized, ready, degraded —
//! through two flags, a calibration timestamp and an error counter, and
//! exposes a safety gate that decides whether quantum-enhanced operations may
//! proceed. A null-safe handle layer models the ownership contract offered to
//! foreign hosts: one owning handle, single destruction.

pub mod bridge;
pub mod device;
pub mod handle;
pub mod laws;

pub use bridge::{BridgeError, BridgeView, QuantumAIBridge, CALIBRATION_TTL, ERROR_BUDGET};
pub use device::{CalibrationReport, DeviceError};
pub use handle::{
    quantum_bridge_destroy, quantum_bridge_initialize, quantum_bridge_new,
    quantum_bridge_safety_check,
};
