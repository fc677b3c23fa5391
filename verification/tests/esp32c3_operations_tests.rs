use rustmix_x4::monitor_label::r10_ble_device_task_monitor_label_is_safe;
use rustmix_x4::r10_ble_esp32c3_backend::{
    r10_ble_esp32c3_probe_backend_plan, R10BleEsp32c3ProbeBackendEvent,
    R10BleEsp32c3ProbeBackendState, R10BleEsp32c3ProbeBackendTask,
};
use rustmix_x4::r10_ble_esp32c3_operations::{
    operation_handle_label, operation_payload_label, r10_ble_esp32c3_probe_initial_operation_queue,
    r10_ble_esp32c3_probe_operation_after_output, r10_ble_esp32c3_probe_operation_for_state,
    r10_ble_esp32c3_probe_plan_operation_queue, r10_ble_esp32c3_probe_session_operation_queue,
    R10BleEsp32c3ProbeOperation, R10BleEsp32c3ProbeOperationQueue,
    R10BleEsp32c3ProbeOperationRecord,
};
use rustmix_x4::r10_ble_transport::{
    R10BleCommand, R10_BLE_LIVE_NOTIFY_CCCD_HANDLE, R10_BLE_LIVE_NOTIFY_VALUE_HANDLE,
    R10_BLE_LIVE_WRITE_VALUE_HANDLE,
};

#[test]
fn r10_ble_esp32c3_probe_operations_have_stable_safe_labels() {
    let queue = r10_ble_esp32c3_probe_session_operation_queue::<12>();

    assert_eq!(queue.len(), 10);

    let mut index = 0;

    while index < queue.len() {
        let operation = queue.operation_at(index).unwrap();

        assert!(
            r10_ble_device_task_monitor_label_is_safe(
                operation.as_str()
            )
        );
        assert!(!operation.is_reader_input_enabled());

        index += 1;
    }
}

#[test]
fn r10_ble_esp32c3_probe_initial_queue_starts_radio_and_scan() {
    let queue = r10_ble_esp32c3_probe_initial_operation_queue::<4>();

    assert_eq!(queue.len(), 4);
    assert_eq!(
        queue.operation_at(0),
        Some(R10BleEsp32c3ProbeOperation::InitRadio)
    );
    assert_eq!(
        queue.operation_at(1),
        Some(R10BleEsp32c3ProbeOperation::BuildController)
    );
    assert_eq!(
        queue.operation_at(2),
        Some(R10BleEsp32c3ProbeOperation::BuildHostStack)
    );
    assert_eq!(
        queue.operation_at(3),
        Some(R10BleEsp32c3ProbeOperation::StartScan)
    );
}

#[test]
fn r10_ble_esp32c3_probe_session_queue_covers_notify() {
    let queue = r10_ble_esp32c3_probe_session_operation_queue::<12>();

    assert_eq!(
        queue.operation_at(4),
        Some(R10BleEsp32c3ProbeOperation::ConnectTarget)
    );
    assert_eq!(
        queue.operation_at(5),
        Some(R10BleEsp32c3ProbeOperation::DiscoverGatt)
    );
    assert_eq!(
        queue.operation_at(9),
        Some(R10BleEsp32c3ProbeOperation::AwaitNotify {
            notify_handle: R10_BLE_LIVE_NOTIFY_VALUE_HANDLE
        })
    );
    assert_eq!(queue.remaining(), 10);
}

#[test]
fn r10_ble_esp32c3_probe_operation_queue_tracks_cursor_and_overflow() {
    let mut queue = R10BleEsp32c3ProbeOperationQueue::<2>::new();

    assert!(queue.push(R10BleEsp32c3ProbeOperation::InitRadio));
    assert!(queue.push(R10BleEsp32c3ProbeOperation::StartScan));
    assert!(!queue.push(R10BleEsp32c3ProbeOperation::ConnectTarget));
    assert_eq!(queue.dropped(), 1);
    assert_eq!(queue.peek(), Some(R10BleEsp32c3ProbeOperation::InitRadio));
    assert_eq!(
        queue.advance(),
        Some(R10BleEsp32c3ProbeOperation::InitRadio)
    );
    assert_eq!(queue.peek(), Some(R10BleEsp32c3ProbeOperation::StartScan));
    assert_eq!(queue.remaining(), 1);
}

#[test]
fn r10_ble_esp32c3_probe_write_operations_preserve_handles_and_payloads() {
    let subscribe = R10BleEsp32c3ProbeOperation::SubscribeCccd {
        cccd_handle: R10_BLE_LIVE_NOTIFY_CCCD_HANDLE,
    };
    let start = R10BleEsp32c3ProbeOperation::WriteRemoteStart {
        value_handle: R10_BLE_LIVE_WRITE_VALUE_HANDLE,
        payload: R10BleCommand::StartRemote.packet(),
    };
    let poll = R10BleEsp32c3ProbeOperation::WritePoll {
        value_handle: R10_BLE_LIVE_WRITE_VALUE_HANDLE,
        payload: R10BleCommand::PollRemote.packet(),
    };

    assert!(subscribe.is_write());
    assert!(start.is_write());
    assert!(poll.is_write());
    assert_eq!(
        subscribe.expected_handle(),
        Some(R10_BLE_LIVE_NOTIFY_CCCD_HANDLE)
    );
    assert_eq!(
        start.expected_handle(),
        Some(R10_BLE_LIVE_WRITE_VALUE_HANDLE)
    );
    assert_eq!(
        poll.expected_handle(),
        Some(R10_BLE_LIVE_WRITE_VALUE_HANDLE)
    );
    assert_eq!(
        start.payload(),
        Some(R10BleCommand::StartRemote.packet().as_slice())
    );
    assert_eq!(
        poll.payload(),
        Some(R10BleCommand::PollRemote.packet().as_slice())
    );
}

#[test]
fn r10_ble_esp32c3_probe_operation_records_are_monitor_safe() {
    let queue = r10_ble_esp32c3_probe_session_operation_queue::<12>();

    let mut index = 0;

    while index < queue.len() {
        let record = queue
            .record_at(index, R10BleEsp32c3ProbeBackendState::Created)
            .unwrap();

        assert_eq!(record.event, "ble_operation");
        assert_eq!(record.target, "esp_c");
        assert_eq!(record.reader, "reader_off");
        assert!(record.is_monitor_safe());

        index += 1;
    }
}

#[test]
fn r10_ble_esp32c3_probe_state_mapping_is_explicit() {
    assert_eq!(
        r10_ble_esp32c3_probe_operation_for_state(R10BleEsp32c3ProbeBackendState::Created),
        Some(R10BleEsp32c3ProbeOperation::InitRadio)
    );
    assert_eq!(
        r10_ble_esp32c3_probe_operation_for_state(R10BleEsp32c3ProbeBackendState::Connecting),
        Some(R10BleEsp32c3ProbeOperation::ConnectTarget)
    );
    assert_eq!(
        r10_ble_esp32c3_probe_operation_for_state(R10BleEsp32c3ProbeBackendState::Discovering),
        Some(R10BleEsp32c3ProbeOperation::DiscoverGatt)
    );
    assert_eq!(
        r10_ble_esp32c3_probe_operation_for_state(R10BleEsp32c3ProbeBackendState::Completed),
        None
    );
}

#[test]
fn r10_ble_esp32c3_probe_write_state_mapping_preserves_gatt_contract() {
    assert_eq!(
        r10_ble_esp32c3_probe_operation_for_state(R10BleEsp32c3ProbeBackendState::Subscribing),
        Some(R10BleEsp32c3ProbeOperation::SubscribeCccd {
            cccd_handle: R10_BLE_LIVE_NOTIFY_CCCD_HANDLE
        })
    );
    assert_eq!(
        r10_ble_esp32c3_probe_operation_for_state(
            R10BleEsp32c3ProbeBackendState::StartingRemote
        ),
        Some(R10BleEsp32c3ProbeOperation::WriteRemoteStart {
            value_handle: R10_BLE_LIVE_WRITE_VALUE_HANDLE,
            payload: R10BleCommand::StartRemote.packet()
        })
    );
    assert_eq!(
        r10_ble_esp32c3_probe_operation_for_state(R10BleEsp32c3ProbeBackendState::Polling),
        Some(R10BleEsp32c3ProbeOperation::WritePoll {
            value_handle: R10_BLE_LIVE_WRITE_VALUE_HANDLE,
            payload: R10BleCommand::PollRemote.packet()
        })
    );
}

#[test]
fn r10_ble_esp32c3_probe_operation_after_backend_output_tracks_next_operation() {
    let mut backend = R10BleEsp32c3ProbeBackendTask::<8>::new();

    let scan = backend.handle_event(R10BleEsp32c3ProbeBackendEvent::AdapterReady);
    assert_eq!(
        r10_ble_esp32c3_probe_operation_after_output(scan),
        Some(R10BleEsp32c3ProbeOperation::StartScan)
    );

    let matched = backend.on_default_r10_advertisement();
    assert_eq!(
        r10_ble_esp32c3_probe_operation_after_output(matched),
        Some(R10BleEsp32c3ProbeOperation::ConnectTarget)
    );
}

#[test]
fn r10_ble_esp32c3_probe_step_mapping_matches_backend_plan() {
    let queue = r10_ble_esp32c3_probe_plan_operation_queue::<16>();

    assert_eq!(queue.len(), r10_ble_esp32c3_probe_backend_plan().len());
    assert_eq!(
        queue.operation_at(0),
        Some(R10BleEsp32c3ProbeOperation::InitRadio)
    );
    assert_eq!(
        queue.operation_at(3),
        Some(R10BleEsp32c3ProbeOperation::StartScan)
    );
    assert_eq!(
        queue.operation_at(7),
        Some(R10BleEsp32c3ProbeOperation::WriteRemoteStart {
            value_handle: R10_BLE_LIVE_WRITE_VALUE_HANDLE,
            payload: R10BleCommand::StartRemote.packet()
        })
    );
    assert_eq!(
        queue.operation_at(8),
        Some(R10BleEsp32c3ProbeOperation::AwaitNotify {
            notify_handle: R10_BLE_LIVE_NOTIFY_VALUE_HANDLE
        })
    );
}

#[test]
fn r10_ble_esp32c3_probe_queue_clear_resets_state() {
    let mut queue = r10_ble_esp32c3_probe_session_operation_queue::<12>();

    assert!(!queue.is_empty());
    let _ = queue.advance();
    queue.clear();

    assert_eq!(queue.len(), 0);
    assert_eq!(queue.remaining(), 0);
    assert_eq!(queue.dropped(), 0);
    assert_eq!(queue.peek(), None);
}

#[test]
fn r10_ble_esp32c3_probe_notify_operation_is_not_a_write() {
    let notify = R10BleEsp32c3ProbeOperation::AwaitNotify {
        notify_handle: R10_BLE_LIVE_NOTIFY_VALUE_HANDLE,
    };

    assert!(!notify.is_write());
    assert_eq!(
        notify.expected_handle(),
        Some(R10_BLE_LIVE_NOTIFY_VALUE_HANDLE)
    );
    assert_eq!(notify.payload(), None);
    assert_eq!(operation_handle_label(notify), "notify_value");
    assert_eq!(operation_payload_label(notify), "none");
}

#[test]
fn r10_ble_esp32c3_probe_backoff_operation_is_reader_off() {
    let op = r10_ble_esp32c3_probe_operation_for_state(R10BleEsp32c3ProbeBackendState::Backoff)
        .unwrap();
    let record = R10BleEsp32c3ProbeOperationRecord::from_operation(
        op,
        R10BleEsp32c3ProbeBackendState::Backoff,
    );

    assert_eq!(op, R10BleEsp32c3ProbeOperation::Backoff);
    assert!(!op.is_reader_input_enabled());
    assert_eq!(record.reader, "reader_off");
    assert_eq!(record.status, "ready");
    assert!(record.is_monitor_safe());
}

