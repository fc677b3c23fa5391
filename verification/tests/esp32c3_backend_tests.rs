use rustmix_x4::monitor_label::r10_ble_device_task_monitor_label_is_safe;
use rustmix_x4::r10_ble_device_task_x4::R10BleDeviceTaskX4ProbeOnlyBridgeStage;
use rustmix_x4::r10_ble_esp32c3_backend::{
    r10_ble_esp32c3_probe_backend_plan, R10BleEsp32c3ProbeBackendEvent,
    R10BleEsp32c3ProbeBackendState, R10BleEsp32c3ProbeBackendStep, R10BleEsp32c3ProbeBackendTask,
};
use rustmix_x4::r10_ble_transport::{R10BleGattHandles, R10_BLE_LIVE_NOTIFY_VALUE_HANDLE};

#[test]
fn r10_ble_esp32c3_probe_backend_plan_is_ordered() {
    let plan = r10_ble_esp32c3_probe_backend_plan();

    assert_eq!(plan.len(), 9);
    assert_eq!(plan[0], R10BleEsp32c3ProbeBackendStep::InitRadio);
    assert_eq!(plan[1], R10BleEsp32c3ProbeBackendStep::BuildController);
    assert_eq!(plan[2], R10BleEsp32c3ProbeBackendStep::BuildHostStack);
    assert_eq!(plan[3], R10BleEsp32c3ProbeBackendStep::StartScan);
    assert_eq!(plan[8], R10BleEsp32c3ProbeBackendStep::PollAndNotify);
}

#[test]
fn r10_ble_esp32c3_probe_backend_labels_are_monitor_safe() {
    for step in r10_ble_esp32c3_probe_backend_plan() {
        assert!(
            r10_ble_device_task_monitor_label_is_safe(
                step.as_str()
            )
        );
    }

    let states = [
        R10BleEsp32c3ProbeBackendState::Created,
        R10BleEsp32c3ProbeBackendState::AdapterReady,
        R10BleEsp32c3ProbeBackendState::Scanning,
        R10BleEsp32c3ProbeBackendState::Connecting,
        R10BleEsp32c3ProbeBackendState::Discovering,
        R10BleEsp32c3ProbeBackendState::Subscribing,
        R10BleEsp32c3ProbeBackendState::StartingRemote,
        R10BleEsp32c3ProbeBackendState::Polling,
        R10BleEsp32c3ProbeBackendState::Notified,
        R10BleEsp32c3ProbeBackendState::Backoff,
        R10BleEsp32c3ProbeBackendState::Completed,
    ];

    for state in states {
        assert!(
            r10_ble_device_task_monitor_label_is_safe(
                state.as_str()
            )
        );
    }
}

#[test]
fn r10_ble_esp32c3_probe_backend_defaults_to_probe_only_reader_off() {
    let task = R10BleEsp32c3ProbeBackendTask::<8>::new();

    assert_eq!(task.state(), R10BleEsp32c3ProbeBackendState::Created);
    assert!(!task.is_reader_input_enabled());
    assert_eq!(
        task.profile_record().value_for_key("reader"),
        Some("reader_off")
    );
    assert_eq!(
        task.trigger_record().value_for_key("mode"),
        Some("probe_only")
    );
}

#[test]
fn r10_ble_esp32c3_probe_backend_start_event_emits_trigger_record() {
    let mut task = R10BleEsp32c3ProbeBackendTask::<8>::new();
    let output = task.handle_event(R10BleEsp32c3ProbeBackendEvent::Start);

    assert_eq!(output.state, R10BleEsp32c3ProbeBackendState::AdapterReady);
    assert_eq!(output.record.unwrap().kind_value(), "trigger");
    assert_eq!(
        output.record.unwrap().value_for_key("reader"),
        Some("reader_off")
    );
    assert!(!output.reader_input_enabled);
    assert!(output.is_monitor_safe());
}

#[test]
fn r10_ble_esp32c3_probe_backend_scan_and_match_move_to_connecting() {
    let mut task = R10BleEsp32c3ProbeBackendTask::<8>::new();

    let scan = task.on_scan_started();
    let matched = task.on_default_r10_advertisement();

    assert_eq!(scan.state, R10BleEsp32c3ProbeBackendState::Scanning);
    assert_eq!(matched.state, R10BleEsp32c3ProbeBackendState::Connecting);
    assert_eq!(
        matched.bridge_event.unwrap().stage,
        R10BleDeviceTaskX4ProbeOnlyBridgeStage::TargetSeen
    );
    assert_eq!(
        matched.record.unwrap().value_for_key("command"),
        Some("connect_target")
    );
    assert_eq!(
        matched.record.unwrap().value_for_key("reader"),
        Some("reader_off")
    );
}

#[test]
fn r10_ble_esp32c3_probe_backend_ignored_advertisement_stays_scanning() {
    let mut task = R10BleEsp32c3ProbeBackendTask::<8>::new();

    let ignored = task.handle_event(R10BleEsp32c3ProbeBackendEvent::Advertisement {
        address: Some("00:00:00:00:00:00"),
        name: Some("Other Device"),
    });

    assert_eq!(ignored.state, R10BleEsp32c3ProbeBackendState::Scanning);
    assert_eq!(
        ignored.bridge_event.unwrap().stage,
        R10BleDeviceTaskX4ProbeOnlyBridgeStage::AdvertisementIgnored
    );
    assert_eq!(
        ignored.record.unwrap().value_for_key("outcome"),
        Some("ignored")
    );
}

#[test]
fn r10_ble_esp32c3_probe_backend_connect_gatt_write_notify_flow_is_log_only() {
    let mut task = R10BleEsp32c3ProbeBackendTask::<16>::new();
    let motion = [0x02, 0x02, 0, 0, 0, 0, 0, 0, 0, 0, 0, 0, 0, 0, 0, 0x04];

    let _ = task.on_scan_started();
    let _ = task.on_default_r10_advertisement();

    let connected = task.handle_event(R10BleEsp32c3ProbeBackendEvent::ConnectOk);
    let gatt = task.handle_event(R10BleEsp32c3ProbeBackendEvent::LiveGattContract);
    let subscribe = task.handle_event(R10BleEsp32c3ProbeBackendEvent::SubscribeWritten {
        success: true,
        now_ms: 10_000,
    });
    let start = task.handle_event(R10BleEsp32c3ProbeBackendEvent::RemoteStartWritten {
        success: true,
        now_ms: 10_001,
    });
    let poll = task.handle_event(R10BleEsp32c3ProbeBackendEvent::PollWritten {
        success: true,
        now_ms: 11_001,
    });
    let notify = task.handle_event(R10BleEsp32c3ProbeBackendEvent::Notify {
        handle: R10_BLE_LIVE_NOTIFY_VALUE_HANDLE,
        payload: &motion,
        now_ms: 12_000,
    });

    assert_eq!(connected.state, R10BleEsp32c3ProbeBackendState::Discovering);
    assert_eq!(gatt.state, R10BleEsp32c3ProbeBackendState::Subscribing);
    assert_eq!(
        subscribe.state,
        R10BleEsp32c3ProbeBackendState::StartingRemote
    );
    assert_eq!(start.state, R10BleEsp32c3ProbeBackendState::Polling);
    assert_eq!(poll.state, R10BleEsp32c3ProbeBackendState::Polling);
    assert_eq!(notify.state, R10BleEsp32c3ProbeBackendState::Notified);

    assert_eq!(
        notify.record.unwrap().value_for_key("lifecycle"),
        Some("notify")
    );
    assert_eq!(
        notify.record.unwrap().value_for_key("reader"),
        Some("reader_off")
    );
    assert!(!notify.reader_input_enabled);
    assert!(task.bridge().report().connectivity_validated());
    assert_eq!(task.bridge().report().motion_count, 1);
}

#[test]
fn r10_ble_esp32c3_probe_backend_connect_failure_enters_backoff() {
    let mut task = R10BleEsp32c3ProbeBackendTask::<8>::new();

    let failed =
        task.handle_event(R10BleEsp32c3ProbeBackendEvent::ConnectFailed { now_ms: 20_000 });

    assert_eq!(failed.state, R10BleEsp32c3ProbeBackendState::Backoff);
    assert!(failed.state.is_terminal());
    assert_eq!(
        failed.bridge_event.unwrap().stage,
        R10BleDeviceTaskX4ProbeOnlyBridgeStage::ConnectFailed
    );
}

#[test]
fn r10_ble_esp32c3_probe_backend_incomplete_gatt_enters_backoff() {
    let mut task = R10BleEsp32c3ProbeBackendTask::<8>::new();

    let gatt = task.handle_event(R10BleEsp32c3ProbeBackendEvent::GattHandles {
        handles: R10BleGattHandles::unresolved(),
    });

    assert_eq!(gatt.state, R10BleEsp32c3ProbeBackendState::Backoff);
    assert_eq!(
        gatt.bridge_event.unwrap().stage,
        R10BleDeviceTaskX4ProbeOnlyBridgeStage::GattIncomplete
    );
}

#[test]
fn r10_ble_esp32c3_probe_backend_write_failure_enters_backoff() {
    let mut task = R10BleEsp32c3ProbeBackendTask::<8>::new();

    let failed = task.handle_event(R10BleEsp32c3ProbeBackendEvent::SubscribeWritten {
        success: false,
        now_ms: 30_000,
    });

    assert_eq!(failed.state, R10BleEsp32c3ProbeBackendState::Backoff);
    assert_eq!(
        failed.record.unwrap().value_for_key("outcome"),
        Some("failed")
    );
}

#[test]
fn r10_ble_esp32c3_probe_backend_bad_notify_is_logged_not_injected() {
    let mut task = R10BleEsp32c3ProbeBackendTask::<8>::new();
    let _ = task.handle_event(R10BleEsp32c3ProbeBackendEvent::LiveGattContract);

    let bad = [0x02, 0x02, 0, 0];
    let notify = task.handle_event(R10BleEsp32c3ProbeBackendEvent::Notify {
        handle: R10_BLE_LIVE_NOTIFY_VALUE_HANDLE,
        payload: &bad,
        now_ms: 40_000,
    });

    assert_eq!(notify.state, R10BleEsp32c3ProbeBackendState::Notified);
    assert_eq!(
        notify.bridge_event.unwrap().stage,
        R10BleDeviceTaskX4ProbeOnlyBridgeStage::NotifyIgnored
    );
    assert_eq!(
        notify.record.unwrap().value_for_key("outcome"),
        Some("ignored")
    );
    assert_eq!(
        notify.record.unwrap().value_for_key("reader"),
        Some("reader_off")
    );
    assert!(!notify.reader_input_enabled);
}

#[test]
fn r10_ble_esp32c3_probe_backend_complete_is_terminal_without_reader_input() {
    let mut task = R10BleEsp32c3ProbeBackendTask::<8>::new();

    let complete = task.handle_event(R10BleEsp32c3ProbeBackendEvent::Complete);

    assert_eq!(complete.state, R10BleEsp32c3ProbeBackendState::Completed);
    assert!(complete.state.is_terminal());
    assert!(!complete.reader_input_enabled);
}


#[test]
fn host_backend_type_boundary_names() {
    assert_eq!(
        rustmix_x4::r10_ble_esp32c3_backend::r10_ble_esp32c3_probe_backend_type_boundary(),
        (
            "host_test_r10_ble_controller_boundary",
            "host_test_r10_ble_host_resources_boundary",
            "host_test_r10_ble_stack_boundary",
        )
    );
}
