use rustmix_x4::r10_ble_probe::{
    classify_accepted_packet, packet_checksum_ok,
    R10BleOnDeviceProbe, R10BleProbeConfig, R10BleProbeNotifyKind, R10BleProbeReport,
    R10BleProbeStep, R10_BLE_PROBE_STEPS, R10_MOTION_PACKET, R10_NO_EVENT_PACKET,
};
use rustmix_x4::r10_ble_transport::{
    R10BleAdvertisedDevice, R10BleConnectionResult, R10BleGattDiscoveryEvent,
    R10BleGattDiscoveryStatus, R10BleGattHandles, R10BleRuntimeEffect, R10BleScanDecision,
    R10BleTransportState, R10BleWritePhase, R10BleWriteResult, R10_BLE_DEFAULT_ADVERTISED_NAME,
    R10_BLE_DEFAULT_TARGET_ADDRESS, R10_BLE_LIVE_NOTIFY_CCCD_HANDLE,
    R10_BLE_LIVE_NOTIFY_VALUE_HANDLE, R10_BLE_LIVE_SERVICE_END_HANDLE,
    R10_BLE_LIVE_SERVICE_START_HANDLE, R10_BLE_LIVE_WRITE_VALUE_HANDLE,
    R10_VENDOR_STATUS_7301_PACKET,
};

fn live_handles() -> R10BleGattHandles {
    R10BleGattHandles::new(
        R10_BLE_LIVE_SERVICE_START_HANDLE,
        R10_BLE_LIVE_SERVICE_END_HANDLE,
        R10_BLE_LIVE_WRITE_VALUE_HANDLE,
        R10_BLE_LIVE_NOTIFY_VALUE_HANDLE,
        R10_BLE_LIVE_NOTIFY_CCCD_HANDLE,
    )
}

fn apply_live_discovery(probe: &mut R10BleOnDeviceProbe) {
    probe.on_discovery_event(R10BleGattDiscoveryEvent::Service {
        start_handle: R10_BLE_LIVE_SERVICE_START_HANDLE,
        end_handle: R10_BLE_LIVE_SERVICE_END_HANDLE,
    });
    probe.on_discovery_event(R10BleGattDiscoveryEvent::WriteCharacteristic {
        value_handle: R10_BLE_LIVE_WRITE_VALUE_HANDLE,
    });
    probe.on_discovery_event(R10BleGattDiscoveryEvent::NotifyCharacteristic {
        value_handle: R10_BLE_LIVE_NOTIFY_VALUE_HANDLE,
    });
    probe.on_discovery_event(R10BleGattDiscoveryEvent::NotifyCccd {
        handle: R10_BLE_LIVE_NOTIFY_CCCD_HANDLE,
    });
}

#[test]
fn r10_ble_probe_step_order_is_full_connectivity_script() {
    assert_eq!(
        R10_BLE_PROBE_STEPS,
        [
            R10BleProbeStep::Scan,
            R10BleProbeStep::Connect,
            R10BleProbeStep::DiscoverGatt,
            R10BleProbeStep::SubscribeNotify,
            R10BleProbeStep::StartRemote,
            R10BleProbeStep::PollRemote,
            R10BleProbeStep::ObserveNotify,
            R10BleProbeStep::StopRemote,
            R10BleProbeStep::Disconnect,
        ]
    );
}

#[test]
fn r10_ble_probe_live_config_targets_known_ring() {
    let config = R10BleProbeConfig::live_r10();

    assert_eq!(config.duration_ms, 30_000);
    assert_eq!(config.debounce_ms, 3_500);
    assert_eq!(
        config.target.scan_device(R10BleAdvertisedDevice {
            address: Some(R10_BLE_DEFAULT_TARGET_ADDRESS),
            name: Some(R10_BLE_DEFAULT_ADVERTISED_NAME),
        }),
        R10BleScanDecision::MatchByAddress
    );
}

#[test]
fn r10_ble_probe_classifies_no_event_motion_vendor_and_bad_checksum() {
    assert_eq!(
        classify_accepted_packet(R10_NO_EVENT_PACKET),
        R10BleProbeNotifyKind::NoEvent
    );
    assert_eq!(
        classify_accepted_packet(R10_MOTION_PACKET),
        R10BleProbeNotifyKind::Motion
    );
    assert_eq!(
        classify_accepted_packet(R10_VENDOR_STATUS_7301_PACKET),
        R10BleProbeNotifyKind::VendorStatus7301
    );

    let mut bad = R10_MOTION_PACKET;
    bad[15] = 0x00;
    assert_eq!(
        classify_accepted_packet(bad),
        R10BleProbeNotifyKind::BadChecksum
    );
}

#[test]
fn r10_ble_probe_report_validates_after_connect_gatt_subscribe_start_notify() {
    let mut report = R10BleProbeReport::default();

    report.record_scan_decision(R10BleScanDecision::MatchByAddress);
    report.record_connection_result(R10BleConnectionResult::Connected);
    report.record_discovery_status(live_handles().discovery_status());
    report.record_write_result(R10BleWriteResult::Success(R10BleWritePhase::Subscribe));
    report.record_write_result(R10BleWriteResult::Success(R10BleWritePhase::RemoteStart));
    report.record_notify_kind(R10BleProbeNotifyKind::NoEvent);

    assert!(report.connectivity_validated());
}

#[test]
fn r10_ble_on_device_probe_scan_match_moves_runtime_to_connecting() {
    let mut probe = R10BleOnDeviceProbe::live_r10();
    probe.begin_scan();

    assert_eq!(
        probe.on_advertised_device(R10BleAdvertisedDevice {
            address: Some(R10_BLE_DEFAULT_TARGET_ADDRESS),
            name: Some(R10_BLE_DEFAULT_ADVERTISED_NAME),
        }),
        R10BleRuntimeEffect::Scan(R10BleScanDecision::MatchByAddress)
    );

    assert!(probe.report.scan_matched);
    assert_eq!(
        probe.runtime.session.state,
        R10BleTransportState::Connecting
    );
}

#[test]
fn r10_ble_on_device_probe_connected_and_discovery_ready_records_gatt() {
    let mut probe = R10BleOnDeviceProbe::live_r10();

    assert!(matches!(
        probe.on_connected(),
        R10BleRuntimeEffect::Connection(R10BleConnectionResult::Connected)
    ));
    assert!(probe.report.connected);

    apply_live_discovery(&mut probe);

    assert!(matches!(
        probe.on_discovery_complete(),
        R10BleRuntimeEffect::Discovery(R10BleGattDiscoveryStatus::Ready(_))
    ));
    assert!(probe.report.gatt_ready);
}

#[test]
fn r10_ble_on_device_probe_write_results_track_subscribe_start_poll_shutdown() {
    let mut probe = R10BleOnDeviceProbe::live_r10();

    assert!(matches!(
        probe.on_write_result(R10BleWritePhase::Subscribe, true, 10_000),
        R10BleRuntimeEffect::WriteResult(R10BleWriteResult::Success(
            R10BleWritePhase::Subscribe
        ))
    ));
    assert!(probe.report.notify_subscribed);

    probe.on_write_result(R10BleWritePhase::RemoteStart, true, 10_000);
    probe.on_write_result(R10BleWritePhase::Poll, true, 11_000);
    probe.on_write_result(R10BleWritePhase::Shutdown, true, 20_000);

    assert!(!probe.report.remote_started);
    assert!(probe.report.remote_stopped);
    assert_eq!(probe.report.polls_written, 1);
}

#[test]
fn r10_ble_on_device_probe_notify_records_motion_and_vendor_ignored() {
    let mut probe = R10BleOnDeviceProbe::live_r10();
    probe.runtime.handles = live_handles();

    probe.on_notify(R10_BLE_LIVE_NOTIFY_VALUE_HANDLE, &R10_MOTION_PACKET, 10_000);
    probe.on_notify(
        R10_BLE_LIVE_NOTIFY_VALUE_HANDLE,
        &R10_VENDOR_STATUS_7301_PACKET,
        11_000,
    );

    assert_eq!(probe.report.notifications_total, 2);
    assert_eq!(probe.report.motion_count, 1);
    assert_eq!(probe.report.vendor_status_7301_count, 1);
    assert!(R10BleProbeNotifyKind::VendorStatus7301.is_ignored_valid_packet());
}

#[test]
fn r10_ble_probe_host_step_order_is_full_connectivity_script() {
    assert_eq!(
        R10_BLE_PROBE_STEPS,
        [
            R10BleProbeStep::Scan,
            R10BleProbeStep::Connect,
            R10BleProbeStep::DiscoverGatt,
            R10BleProbeStep::SubscribeNotify,
            R10BleProbeStep::StartRemote,
            R10BleProbeStep::PollRemote,
            R10BleProbeStep::ObserveNotify,
            R10BleProbeStep::StopRemote,
            R10BleProbeStep::Disconnect,
        ]
    );
}

#[test]
fn r10_ble_probe_host_live_config_targets_known_ring() {
    let config = R10BleProbeConfig::live_r10();

    assert_eq!(config.duration_ms, 30_000);
    assert_eq!(config.debounce_ms, 3_500);
    assert_eq!(
        config.target.scan_device(R10BleAdvertisedDevice {
            address: Some(R10_BLE_DEFAULT_TARGET_ADDRESS),
            name: Some(R10_BLE_DEFAULT_ADVERTISED_NAME),
        }),
        R10BleScanDecision::MatchByAddress
    );
}

#[test]
fn r10_ble_probe_host_classifies_no_event_motion_vendor_and_bad_checksum() {
    assert_eq!(
        classify_accepted_packet(R10_NO_EVENT_PACKET),
        R10BleProbeNotifyKind::NoEvent
    );
    assert_eq!(
        classify_accepted_packet(R10_MOTION_PACKET),
        R10BleProbeNotifyKind::Motion
    );
    assert_eq!(
        classify_accepted_packet(R10_VENDOR_STATUS_7301_PACKET),
        R10BleProbeNotifyKind::VendorStatus7301
    );
    assert!(packet_checksum_ok(&R10_VENDOR_STATUS_7301_PACKET));

    let mut bad = R10_MOTION_PACKET;
    bad[15] = 0x00;
    assert_eq!(
        classify_accepted_packet(bad),
        R10BleProbeNotifyKind::BadChecksum
    );
}

#[test]
fn r10_ble_probe_host_report_validates_after_connect_gatt_subscribe_start_notify() {
    let mut report = R10BleProbeReport::default();

    report.record_scan_decision(R10BleScanDecision::MatchByAddress);
    report.record_connection_result(R10BleConnectionResult::Connected);
    report.record_discovery_status(live_handles().discovery_status());
    report.record_write_result(R10BleWriteResult::Success(R10BleWritePhase::Subscribe));
    report.record_write_result(R10BleWriteResult::Success(R10BleWritePhase::RemoteStart));
    report.record_notify_kind(R10BleProbeNotifyKind::NoEvent);

    assert!(report.connectivity_validated());
}

#[test]
fn r10_ble_probe_host_scan_match_moves_runtime_to_connecting() {
    let mut probe = R10BleOnDeviceProbe::live_r10();
    probe.begin_scan();

    assert_eq!(
        probe.on_advertised_device(R10BleAdvertisedDevice {
            address: Some(R10_BLE_DEFAULT_TARGET_ADDRESS),
            name: Some(R10_BLE_DEFAULT_ADVERTISED_NAME),
        }),
        R10BleRuntimeEffect::Scan(R10BleScanDecision::MatchByAddress)
    );

    assert!(probe.report.scan_matched);
    assert_eq!(
        probe.runtime.session.state,
        R10BleTransportState::Connecting
    );
}

#[test]
fn r10_ble_probe_host_connected_and_discovery_ready_records_gatt() {
    let mut probe = R10BleOnDeviceProbe::live_r10();

    assert_eq!(
        probe.on_connected(),
        R10BleRuntimeEffect::Connection(R10BleConnectionResult::Connected)
    );
    assert!(probe.report.connected);

    apply_live_discovery(&mut probe);

    assert!(matches!(
        probe.on_discovery_complete(),
        R10BleRuntimeEffect::Discovery(R10BleGattDiscoveryStatus::Ready(_))
    ));
    assert!(probe.report.gatt_ready);
}

#[test]
fn r10_ble_probe_host_write_results_track_subscribe_start_poll_shutdown() {
    let mut probe = R10BleOnDeviceProbe::live_r10();

    assert_eq!(
        probe.on_write_result(R10BleWritePhase::Subscribe, true, 10_000),
        R10BleRuntimeEffect::WriteResult(R10BleWriteResult::Success(
            R10BleWritePhase::Subscribe
        ))
    );
    assert!(probe.report.notify_subscribed);

    probe.on_write_result(R10BleWritePhase::RemoteStart, true, 10_000);
    probe.on_write_result(R10BleWritePhase::Poll, true, 11_000);
    probe.on_write_result(R10BleWritePhase::Shutdown, true, 20_000);

    assert!(!probe.report.remote_started);
    assert!(probe.report.remote_stopped);
    assert_eq!(probe.report.polls_written, 1);
}

#[test]
fn r10_ble_probe_host_notify_records_motion_and_vendor_ignored() {
    let mut probe = R10BleOnDeviceProbe::live_r10();
    probe.runtime.handles = live_handles();

    probe.on_notify(R10_BLE_LIVE_NOTIFY_VALUE_HANDLE, &R10_MOTION_PACKET, 10_000);
    probe.on_notify(
        R10_BLE_LIVE_NOTIFY_VALUE_HANDLE,
        &R10_VENDOR_STATUS_7301_PACKET,
        11_000,
    );

    assert_eq!(probe.report.notifications_total, 2);
    assert_eq!(probe.report.motion_count, 1);
    assert_eq!(probe.report.vendor_status_7301_count, 1);
    assert!(R10BleProbeNotifyKind::VendorStatus7301.is_ignored_valid_packet());
}
