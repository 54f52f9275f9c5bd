use quantum_bridge::{
    BridgeError, CalibrationReport, DeviceError, QuantumAIBridge, CALIBRATION_TTL, ERROR_BUDGET,
};

fn good_report(timestamp_ns: u64) -> CalibrationReport {
    CalibrationReport { timestamp_ns, success: true, diagnostic: None }
}

#[test]
fn happy_path() {
    let mut bridge = QuantumAIBridge::new();
    assert!(bridge.check_quantum_hardware());
    let t0: u64 = 1_000;
    assert_eq!(bridge.initialize_quantum_core(true, Ok(good_report(t0))), Ok(()));
    assert!(bridge.safety_check(t0));
    assert_eq!(bridge.authorize_inference(t0), Ok(()));
}

#[test]
fn new_bridge_gate_closed() {
    let bridge = QuantumAIBridge::new();
    assert!(!bridge.safety_check(0));
    assert_eq!(bridge.authorize_inference(0), Err(BridgeError::NotReady));
    assert_eq!(bridge.last_calibration_ns(), 0);
}

#[test]
fn hardware_missing() {
    let mut bridge = QuantumAIBridge::new();
    let outcome = bridge.initialize_quantum_core(false, Ok(good_report(1)));
    assert_eq!(outcome, Err(BridgeError::HardwareUnavailable));
    assert!(!bridge.safety_check(1));
    assert_eq!(bridge.authorize_inference(1), Err(BridgeError::NotReady));
}

#[test]
fn calibration_device_error() {
    let mut bridge = QuantumAIBridge::new();
    let outcome = bridge.initialize_quantum_core(true, Err(DeviceError::Timeout));
    assert_eq!(outcome, Err(BridgeError::CalibrationFailed));
    assert!(!bridge.safety_check(0));
}

#[test]
fn calibration_out_of_tolerance() {
    let mut bridge = QuantumAIBridge::new();
    let report = CalibrationReport { timestamp_ns: 9, success: false, diagnostic: Some(7) };
    let outcome = bridge.initialize_quantum_core(true, Ok(report));
    assert_eq!(outcome, Err(BridgeError::CalibrationFailed));
    assert!(!bridge.safety_check(9));
}

#[test]
fn calibration_stale_then_recalibrate() {
    let mut bridge = QuantumAIBridge::new();
    let t0: u64 = 1_000;
    assert_eq!(bridge.initialize_quantum_core(true, Ok(good_report(t0))), Ok(()));
    assert!(!bridge.safety_check(t0 + CALIBRATION_TTL + 1));
    let t1: u64 = t0 + CALIBRATION_TTL + 2;
    assert_eq!(bridge.initialize_quantum_core(true, Ok(good_report(t1))), Ok(()));
    assert!(bridge.safety_check(t1));
}

#[test]
fn ttl_boundary() {
    let mut bridge = QuantumAIBridge::new();
    let t0: u64 = 1_000;
    assert_eq!(bridge.initialize_quantum_core(true, Ok(good_report(t0))), Ok(()));
    assert!(bridge.safety_check(t0 + CALIBRATION_TTL - 1));
    assert!(!bridge.safety_check(t0 + CALIBRATION_TTL));
}

#[test]
fn repeated_checks_stable_within_ttl() {
    let mut bridge = QuantumAIBridge::new();
    let t0: u64 = 50;
    assert_eq!(bridge.initialize_quantum_core(true, Ok(good_report(t0))), Ok(()));
    let first = bridge.safety_check(t0 + 1);
    let second = bridge.safety_check(t0 + 500);
    let third = bridge.safety_check(t0 + CALIBRATION_TTL - 1);
    assert!(first);
    assert_eq!(first, second);
    assert_eq!(second, third);
}

#[test]
fn error_budget_boundary() {
    let mut bridge = QuantumAIBridge::new();
    let t0: u64 = 10;
    assert_eq!(bridge.initialize_quantum_core(true, Ok(good_report(t0))), Ok(()));
    let mut recorded: u64 = 0;
    while recorded < ERROR_BUDGET - 1 {
        bridge.record_error();
        recorded += 1;
    }
    assert!(bridge.safety_check(t0));
    bridge.record_error();
    assert!(!bridge.safety_check(t0));
}

#[test]
fn reinitialize_resets_error_budget() {
    let mut bridge = QuantumAIBridge::new();
    let t0: u64 = 10;
    assert_eq!(bridge.initialize_quantum_core(true, Ok(good_report(t0))), Ok(()));
    let mut recorded: u64 = 0;
    while recorded < ERROR_BUDGET {
        bridge.record_error();
        recorded += 1;
    }
    assert_eq!(bridge.error_count(), ERROR_BUDGET);
    assert!(!bridge.safety_check(t0));
    let t1: u64 = 20;
    assert_eq!(bridge.initialize_quantum_core(true, Ok(good_report(t1))), Ok(()));
    assert_eq!(bridge.error_count(), 0);
    assert!(bridge.safety_check(t1));
}

#[test]
fn ready_implies_initialized_in_observed_states() {
    let mut bridge = QuantumAIBridge::new();
    assert!(!bridge.is_quantum_ready() || bridge.is_initialized());
    assert_eq!(bridge.initialize_quantum_core(true, Ok(good_report(5))), Ok(()));
    assert!(bridge.is_quantum_ready());
    assert!(bridge.is_initialized());
    let mut recorded: u64 = 0;
    while recorded < ERROR_BUDGET {
        bridge.record_error();
        recorded += 1;
    }
    assert!(!bridge.is_quantum_ready());
    assert!(bridge.is_initialized());
}

#[test]
fn errors_below_budget_keep_gate_open() {
    let mut bridge = QuantumAIBridge::new();
    let t0: u64 = 3;
    assert_eq!(bridge.initialize_quantum_core(true, Ok(good_report(t0))), Ok(()));
    bridge.record_error();
    bridge.record_error();
    bridge.record_error();
    assert!(bridge.safety_check(t0));
}

#[test]
fn calibration_timestamp_is_monotonic() {
    let mut bridge = QuantumAIBridge::new();
    assert_eq!(bridge.initialize_quantum_core(true, Ok(good_report(10))), Ok(()));
    assert_eq!(bridge.last_calibration_ns(), 10);
    assert_eq!(bridge.initialize_quantum_core(true, Ok(good_report(20))), Ok(()));
    assert_eq!(bridge.last_calibration_ns(), 20);
    let failed = bridge.initialize_quantum_core(true, Err(DeviceError::Unavailable));
    assert_eq!(failed, Err(BridgeError::CalibrationFailed));
    assert_eq!(bridge.last_calibration_ns(), 20);
}

#[test]
fn failed_initialize_leaves_state_unchanged() {
    let mut bridge = QuantumAIBridge::new();
    let t0: u64 = 42;
    assert_eq!(bridge.initialize_quantum_core(true, Ok(good_report(t0))), Ok(()));
    bridge.record_error();
    let outcome = bridge.initialize_quantum_core(false, Ok(good_report(t0 + 5)));
    assert_eq!(outcome, Err(BridgeError::HardwareUnavailable));
    assert_eq!(bridge.last_calibration_ns(), t0);
    assert!(bridge.safety_check(t0));
}
