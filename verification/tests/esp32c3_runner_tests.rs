use rustmix_x4::monitor_label::r10_ble_device_task_monitor_label_is_safe;
use rustmix_x4::r10_ble_esp32c3_operations::R10BleEsp32c3ProbeOperation;
use rustmix_x4::r10_ble_esp32c3_runner::{
    R10BleEsp32c3ProbeRunner, R10BleEsp32c3ProbeRunnerPhase, R10BleEsp32c3ProbeRunnerStatus,
};
use rustmix_x4::r10_ble_transport::{R10BleCommand, R10_BLE_LIVE_NOTIFY_VALUE_HANDLE};
use rustmix_x4::r10_ble_esp32c3_backend::R10BleEsp32c3ProbeBackendState;

fn motion_payload() -> [u8; 16] {
    [0x02, 0x02, 0, 0, 0, 0, 0, 0, 0, 0, 0, 0, 0, 0, 0, 0x04]
}

fn advance_to_scan(runner: &mut R10BleEsp32c3ProbeRunner) {
    assert_eq!(
        runner.complete_current_success(1).phase,
        R10BleEsp32c3ProbeRunnerPhase::RadioReady
    );
    assert_eq!(
        runner.complete_current_success(2).phase,
        R10BleEsp32c3ProbeRunnerPhase::ControllerReady
    );
    assert_eq!(
        runner.complete_current_success(3).phase,
        R10BleEsp32c3ProbeRunnerPhase::HostReady
    );
    assert_eq!(
        runner.complete_current_success(4).phase,
        R10BleEsp32c3ProbeRunnerPhase::Scanning
    );
}

fn advance_to_await_notify(runner: &mut R10BleEsp32c3ProbeRunner) {
    advance_to_scan(runner);
    let matched = runner.on_default_r10_advertisement();
    assert_eq!(matched.phase, R10BleEsp32c3ProbeRunnerPhase::Matched);

    assert_eq!(
        runner.complete_current_success(5).phase,
        R10BleEsp32c3ProbeRunnerPhase::Discovering
    );
    assert_eq!(
        runner.complete_current_success(6).phase,
        R10BleEsp32c3ProbeRunnerPhase::Subscribing
    );
    assert_eq!(
        runner.complete_current_success(7).phase,
        R10BleEsp32c3ProbeRunnerPhase::StartingRemote
    );
    assert_eq!(
        runner.complete_current_success(8).phase,
        R10BleEsp32c3ProbeRunnerPhase::Polling
    );
    assert_eq!(
        runner.complete_current_success(9).phase,
        R10BleEsp32c3ProbeRunnerPhase::AwaitingNotify
    );
}

#[test]
fn r10_ble_esp32c3_probe_runner_defaults_to_reader_off() {
    let runner = R10BleEsp32c3ProbeRunner::new();

    assert_eq!(runner.phase(), R10BleEsp32c3ProbeRunnerPhase::Created);
    assert_eq!(
        runner.current_operation(),
        Some(R10BleEsp32c3ProbeOperation::InitRadio)
    );
    assert_eq!(runner.queue_remaining(), 10);
    assert!(!runner.is_reader_input_enabled());

    let record = runner.startup_record();

    assert_eq!(record.event, "ble_runner");
    assert_eq!(record.target, "esp_c");
    assert_eq!(record.reader, "reader_off");
    assert!(record.is_monitor_safe());
}

#[test]
fn r10_ble_esp32c3_probe_runner_labels_are_monitor_safe() {
    let phases = [
        R10BleEsp32c3ProbeRunnerPhase::Created,
        R10BleEsp32c3ProbeRunnerPhase::RadioReady,
        R10BleEsp32c3ProbeRunnerPhase::ControllerReady,
        R10BleEsp32c3ProbeRunnerPhase::HostReady,
        R10BleEsp32c3ProbeRunnerPhase::Scanning,
        R10BleEsp32c3ProbeRunnerPhase::Matched,
        R10BleEsp32c3ProbeRunnerPhase::Connecting,
        R10BleEsp32c3ProbeRunnerPhase::Discovering,
        R10BleEsp32c3ProbeRunnerPhase::Subscribing,
        R10BleEsp32c3ProbeRunnerPhase::StartingRemote,
        R10BleEsp32c3ProbeRunnerPhase::Polling,
        R10BleEsp32c3ProbeRunnerPhase::AwaitingNotify,
        R10BleEsp32c3ProbeRunnerPhase::Notified,
        R10BleEsp32c3ProbeRunnerPhase::Backoff,
        R10BleEsp32c3ProbeRunnerPhase::Complete,
    ];

    for phase in phases {
        assert!(
            r10_ble_device_task_monitor_label_is_safe(
                phase.as_str()
            )
        );
    }

    let statuses = [
        R10BleEsp32c3ProbeRunnerStatus::Ready,
        R10BleEsp32c3ProbeRunnerStatus::Pending,
        R10BleEsp32c3ProbeRunnerStatus::Succeeded,
        R10BleEsp32c3ProbeRunnerStatus::Ignored,
        R10BleEsp32c3ProbeRunnerStatus::Failed,
        R10BleEsp32c3ProbeRunnerStatus::Awaiting,
        R10BleEsp32c3ProbeRunnerStatus::Complete,
    ];

    for status in statuses {
        assert!(
            r10_ble_device_task_monitor_label_is_safe(
                status.as_str()
            )
        );
    }
}

#[test]
fn r10_ble_esp32c3_probe_runner_advances_startup_to_scan() {
    let mut runner = R10BleEsp32c3ProbeRunner::new();

    advance_to_scan(&mut runner);

    assert_eq!(runner.phase(), R10BleEsp32c3ProbeRunnerPhase::Scanning);
    assert_eq!(
        runner.current_operation(),
        Some(R10BleEsp32c3ProbeOperation::ConnectTarget)
    );
    assert_eq!(
        runner.backend().state(),
        R10BleEsp32c3ProbeBackendState::Scanning
    );
}

#[test]
fn r10_ble_esp32c3_probe_runner_matches_r10_advertisement_without_reader_input() {
    let mut runner = R10BleEsp32c3ProbeRunner::new();

    advance_to_scan(&mut runner);

    let result = runner.on_default_r10_advertisement();

    assert_eq!(result.phase, R10BleEsp32c3ProbeRunnerPhase::Matched);
    assert_eq!(
        result.operation,
        Some(R10BleEsp32c3ProbeOperation::ConnectTarget)
    );
    assert_eq!(
        result.backend_output.unwrap().state,
        R10BleEsp32c3ProbeBackendState::Connecting
    );
    assert!(!result.is_reader_input_enabled());
    assert!(result.is_monitor_safe());
}

#[test]
fn r10_ble_esp32c3_probe_runner_ignores_unmatched_advertisement() {
    let mut runner = R10BleEsp32c3ProbeRunner::new();

    advance_to_scan(&mut runner);

    let result = runner.on_advertisement(Some("00:00:00:00:00:00"), Some("Other"));

    assert_eq!(result.phase, R10BleEsp32c3ProbeRunnerPhase::Scanning);
    assert_eq!(result.record.status, "ignored");
    assert_eq!(
        runner.current_operation(),
        Some(R10BleEsp32c3ProbeOperation::ConnectTarget)
    );
    assert!(result.is_monitor_safe());
}

#[test]
fn r10_ble_esp32c3_probe_runner_connect_gatt_and_writes_flow_to_await_notify() {
    let mut runner = R10BleEsp32c3ProbeRunner::new();

    advance_to_await_notify(&mut runner);

    assert_eq!(
        runner.phase(),
        R10BleEsp32c3ProbeRunnerPhase::AwaitingNotify
    );
    assert_eq!(
        runner.current_operation(),
        Some(R10BleEsp32c3ProbeOperation::AwaitNotify {
            notify_handle: R10_BLE_LIVE_NOTIFY_VALUE_HANDLE
        })
    );
    assert!(runner.backend().bridge().report().notify_subscribed);
    assert!(runner.backend().bridge().report().remote_started);
}

#[test]
fn r10_ble_esp32c3_probe_runner_motion_notify_is_log_only() {
    let mut runner = R10BleEsp32c3ProbeRunner::new();

    advance_to_await_notify(&mut runner);

    let payload = motion_payload();
    let result = runner.on_notify(&payload, 10_000);

    assert_eq!(result.phase, R10BleEsp32c3ProbeRunnerPhase::Notified);
    assert_eq!(result.record.reader, "reader_off");
    assert!(!result.is_reader_input_enabled());
    assert_eq!(runner.backend().bridge().report().motion_count, 1);
    assert!(runner.backend().bridge().report().connectivity_validated());
    assert!(result.is_monitor_safe());
}

#[test]
fn r10_ble_esp32c3_probe_runner_bad_notify_is_ignored_and_reader_off() {
    let mut runner = R10BleEsp32c3ProbeRunner::new();

    advance_to_await_notify(&mut runner);

    let bad = [0x02, 0x02, 0, 0];
    let result = runner.on_notify(&bad, 10_000);

    assert_eq!(result.phase, R10BleEsp32c3ProbeRunnerPhase::Notified);
    assert_eq!(result.record.reader, "reader_off");
    assert_eq!(
        result
            .backend_output
            .unwrap()
            .record
            .unwrap()
            .value_for_key("outcome"),
        Some("ignored")
    );
    assert!(!result.is_reader_input_enabled());
}

#[test]
fn r10_ble_esp32c3_probe_runner_notify_before_await_is_ignored() {
    let mut runner = R10BleEsp32c3ProbeRunner::new();

    let payload = motion_payload();
    let result = runner.on_notify(&payload, 10_000);

    assert_eq!(result.record.status, "ignored");
    assert_eq!(result.backend_output, None);
    assert_eq!(runner.phase(), R10BleEsp32c3ProbeRunnerPhase::Created);
}

#[test]
fn r10_ble_esp32c3_probe_runner_connect_failure_enters_backoff() {
    let mut runner = R10BleEsp32c3ProbeRunner::new();

    advance_to_scan(&mut runner);
    let _ = runner.on_default_r10_advertisement();

    let result = runner.fail_current(12_000);

    assert_eq!(result.phase, R10BleEsp32c3ProbeRunnerPhase::Backoff);
    assert_eq!(result.record.status, "failed");
    assert!(runner.phase().is_terminal());
    assert!(!result.is_reader_input_enabled());
}

#[test]
fn r10_ble_esp32c3_probe_runner_write_failure_enters_backoff() {
    let mut runner = R10BleEsp32c3ProbeRunner::new();

    advance_to_scan(&mut runner);
    let _ = runner.on_default_r10_advertisement();
    let _ = runner.complete_current_success(5);
    let _ = runner.complete_current_success(6);

    assert_eq!(
        runner.current_operation(),
        Some(R10BleEsp32c3ProbeOperation::SubscribeCccd {
            cccd_handle: rustmix_x4::r10_ble_transport::R10_BLE_LIVE_NOTIFY_CCCD_HANDLE
        })
    );

    let result = runner.fail_current(12_000);

    assert_eq!(result.phase, R10BleEsp32c3ProbeRunnerPhase::Backoff);
    assert_eq!(
        result
            .backend_output
            .unwrap()
            .record
            .unwrap()
            .value_for_key("outcome"),
        Some("failed")
    );
    assert!(!result.is_reader_input_enabled());
}

#[test]
fn r10_ble_esp32c3_probe_runner_records_are_monitor_safe_through_success_flow() {
    let mut runner = R10BleEsp32c3ProbeRunner::new();

    for now in 1..=4 {
        let result = runner.complete_current_success(now);
        assert!(result.is_monitor_safe());
        assert_eq!(result.record.reader, "reader_off");
    }

    let matched = runner.on_default_r10_advertisement();
    assert!(matched.is_monitor_safe());

    for now in 5..=9 {
        let result = runner.complete_current_success(now);
        assert!(result.is_monitor_safe());
        assert_eq!(result.record.reader, "reader_off");
    }

    let payload = motion_payload();
    let notify = runner.on_notify(&payload, 10_000);
    assert!(notify.is_monitor_safe());
}

#[test]
fn r10_ble_esp32c3_probe_runner_preserves_stock_write_payloads() {
    let mut runner = R10BleEsp32c3ProbeRunner::new();

    while !matches!(
        runner.current_operation(),
        Some(R10BleEsp32c3ProbeOperation::WriteRemoteStart { .. })
    ) {
        let _ = runner.complete_current_success(1);
        if runner.phase() == R10BleEsp32c3ProbeRunnerPhase::Scanning {
            let _ = runner.on_default_r10_advertisement();
        }
    }

    match runner.current_operation().unwrap() {
        R10BleEsp32c3ProbeOperation::WriteRemoteStart { payload, .. } => {
            assert_eq!(payload, R10BleCommand::StartRemote.packet().as_slice());
        }
        _ => panic!("expected remote start write"),
    }

    let _ = runner.complete_current_success(10);

    match runner.current_operation().unwrap() {
        R10BleEsp32c3ProbeOperation::WritePoll { payload, .. } => {
            assert_eq!(payload, R10BleCommand::PollRemote.packet().as_slice());
        }
        _ => panic!("expected poll write"),
    }
}

#[test]
fn r10_ble_esp32c3_probe_runner_complete_without_operation_is_terminal() {
    let mut runner = R10BleEsp32c3ProbeRunner::new();

    advance_to_await_notify(&mut runner);
    let payload = motion_payload();
    let _ = runner.on_notify(&payload, 10_000);

    assert_eq!(runner.current_operation(), None);

    let result = runner.complete_current_success(11_000);

    assert_eq!(result.phase, R10BleEsp32c3ProbeRunnerPhase::Complete);
    assert!(runner.phase().is_terminal());
    assert_eq!(result.record.status, "complete");
    assert!(!result.is_reader_input_enabled());
}

