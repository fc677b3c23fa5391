use rustmix_x4::r10_ble_device_task_x4::R10BleDeviceTaskX4DeployMode;
use rustmix_x4::r10_ble_reader_remote_guard::{
    R10BleReaderRemoteGuard, R10BleReaderRemoteGuardMode, R10BleReaderRemoteGuardReason,
    R10BleReaderRemoteGuardRecord, reader_remote_screen_label,
};
use rustmix_x4::r10_ble_transport::R10_BLE_LIVE_NOTIFY_VALUE_HANDLE;
use rustmix_x4::r10_input_bridge::R10InputInjection;
use rustmix_x4::r10_remote_policy::{R10RemoteAction, R10RemoteScreen};
use rustmix_x4::reader_input::{Button, Event, RustmixReaderAction};
use rustmix_x4::monitor_label::r10_ble_device_task_monitor_label_is_safe;

const MOTION: [u8; 16] = [0x02, 0x02, 0, 0, 0, 0, 0, 0, 0, 0, 0, 0, 0, 0, 0, 0x04];
const NO_EVENT: [u8; 16] = [0x02, 0x00, 0, 0, 0, 0, 0, 0, 0, 0, 0, 0, 0, 0, 0, 0x02];
const BAD: [u8; 16] = [0x02, 0x02, 0, 0, 0, 0, 0, 0, 0, 0, 0, 0, 0, 0, 0, 0x05];

#[test]
fn r10_ble_reader_remote_guard_defaults_disabled() {
    let mut guard = R10BleReaderRemoteGuard::default();
    let decision = guard.handle_notify(
        R10RemoteScreen::Reader,
        R10_BLE_LIVE_NOTIFY_VALUE_HANDLE,
        &MOTION,
        10_000,
    );

    assert_eq!(guard.mode(), R10BleReaderRemoteGuardMode::Disabled);
    assert_eq!(decision.reason, R10BleReaderRemoteGuardReason::Disabled);
    assert_eq!(decision.action, R10RemoteAction::NoAction);
    assert!(!decision.should_enqueue());
    assert!(decision.is_monitor_safe());
}

#[test]
fn r10_ble_reader_remote_guard_probe_only_is_log_only() {
    let mut guard = R10BleReaderRemoteGuard::probe_only();
    let decision = guard.handle_notify(
        R10RemoteScreen::Reader,
        R10_BLE_LIVE_NOTIFY_VALUE_HANDLE,
        &MOTION,
        10_000,
    );

    assert_eq!(
        decision.reason,
        R10BleReaderRemoteGuardReason::ProbeOnlyLogOnly
    );
    assert_eq!(decision.record.reader, "reader_off");
    assert!(!decision.should_enqueue());
}

#[test]
fn r10_ble_reader_remote_guard_reader_remote_starts_locked() {
    let mut guard =
        R10BleReaderRemoteGuard::from_deploy_mode(R10BleDeviceTaskX4DeployMode::ReaderRemote);
    let decision = guard.handle_notify(
        R10RemoteScreen::Reader,
        R10_BLE_LIVE_NOTIFY_VALUE_HANDLE,
        &MOTION,
        10_000,
    );

    assert_eq!(guard.mode(), R10BleReaderRemoteGuardMode::ReaderRemote);
    assert!(!guard.explicit_reader_remote());
    assert_eq!(
        decision.reason,
        R10BleReaderRemoteGuardReason::ReaderRemoteLocked
    );
    assert!(!decision.should_enqueue());
}

#[test]
fn r10_ble_reader_remote_guard_unlocked_reader_motion_maps_to_next_page() {
    let mut guard = R10BleReaderRemoteGuard::reader_remote_unlocked_for_reader(3500);
    let decision = guard.handle_notify(
        R10RemoteScreen::Reader,
        R10_BLE_LIVE_NOTIFY_VALUE_HANDLE,
        &MOTION,
        10_000,
    );

    assert_eq!(decision.reason, R10BleReaderRemoteGuardReason::Accepted);
    assert_eq!(
        decision.action,
        R10RemoteAction::Reader(RustmixReaderAction::NextPage)
    );
    assert_eq!(
        decision.injection,
        R10InputInjection::Press(Event::Press(Button::VolDown))
    );
    assert_eq!(decision.record.reader, "reader_on");
    assert!(decision.should_enqueue());
    assert!(decision.is_monitor_safe());
}

#[test]
fn r10_ble_reader_remote_guard_blocks_non_reader_screen() {
    let mut guard = R10BleReaderRemoteGuard::reader_remote_unlocked_for_reader(3500);
    let decision = guard.handle_notify(
        R10RemoteScreen::Settings,
        R10_BLE_LIVE_NOTIFY_VALUE_HANDLE,
        &MOTION,
        10_000,
    );

    assert_eq!(
        decision.reason,
        R10BleReaderRemoteGuardReason::NotReaderScreen
    );
    assert_eq!(decision.action, R10RemoteAction::NoAction);
    assert!(!decision.should_enqueue());
}

#[test]
fn r10_ble_reader_remote_guard_blocks_wrong_notify_handle() {
    let mut guard = R10BleReaderRemoteGuard::reader_remote_unlocked_for_reader(3500);
    let decision = guard.handle_notify(R10RemoteScreen::Reader, 0xffff, &MOTION, 10_000);

    assert_eq!(decision.reason, R10BleReaderRemoteGuardReason::WrongHandle);
    assert_eq!(decision.action, R10RemoteAction::NoAction);
}

#[test]
fn r10_ble_reader_remote_guard_blocks_bad_payload() {
    let mut guard = R10BleReaderRemoteGuard::reader_remote_unlocked_for_reader(3500);
    let decision = guard.handle_notify(
        R10RemoteScreen::Reader,
        R10_BLE_LIVE_NOTIFY_VALUE_HANDLE,
        &BAD,
        10_000,
    );

    assert_eq!(decision.reason, R10BleReaderRemoteGuardReason::BadPacket);
    assert_eq!(decision.action, R10RemoteAction::NoAction);
}

#[test]
fn r10_ble_reader_remote_guard_ignores_no_motion_packet() {
    let mut guard = R10BleReaderRemoteGuard::reader_remote_unlocked_for_reader(3500);
    let decision = guard.handle_notify(
        R10RemoteScreen::Reader,
        R10_BLE_LIVE_NOTIFY_VALUE_HANDLE,
        &NO_EVENT,
        10_000,
    );

    assert_eq!(decision.reason, R10BleReaderRemoteGuardReason::NoMotion);
    assert_eq!(decision.action, R10RemoteAction::NoAction);
    assert_eq!(decision.record.status, "ignored");
}

#[test]
fn r10_ble_reader_remote_guard_reuses_existing_debounce() {
    let mut guard = R10BleReaderRemoteGuard::reader_remote_unlocked_for_reader(3500);

    let first = guard.handle_notify(
        R10RemoteScreen::Reader,
        R10_BLE_LIVE_NOTIFY_VALUE_HANDLE,
        &MOTION,
        10_000,
    );
    let second = guard.handle_notify(
        R10RemoteScreen::Reader,
        R10_BLE_LIVE_NOTIFY_VALUE_HANDLE,
        &MOTION,
        11_000,
    );
    let third = guard.handle_notify(
        R10RemoteScreen::Reader,
        R10_BLE_LIVE_NOTIFY_VALUE_HANDLE,
        &MOTION,
        14_000,
    );

    assert_eq!(first.reason, R10BleReaderRemoteGuardReason::Accepted);
    assert_eq!(second.reason, R10BleReaderRemoteGuardReason::Debounced);
    assert_eq!(third.reason, R10BleReaderRemoteGuardReason::Accepted);
}

#[test]
fn r10_ble_reader_remote_guard_lock_disables_navigation_again() {
    let mut guard = R10BleReaderRemoteGuard::reader_remote_unlocked_for_reader(3500);

    let accepted = guard.handle_notify(
        R10RemoteScreen::Reader,
        R10_BLE_LIVE_NOTIFY_VALUE_HANDLE,
        &MOTION,
        10_000,
    );
    guard.lock_reader_remote();
    let locked = guard.handle_notify(
        R10RemoteScreen::Reader,
        R10_BLE_LIVE_NOTIFY_VALUE_HANDLE,
        &MOTION,
        20_000,
    );

    assert!(accepted.should_enqueue());
    assert_eq!(
        locked.reason,
        R10BleReaderRemoteGuardReason::ReaderRemoteLocked
    );
    assert!(!locked.should_enqueue());
}

#[test]
fn r10_ble_reader_remote_guard_unlock_sets_reader_screen() {
    let mut guard = R10BleReaderRemoteGuard::reader_remote_locked();

    guard.unlock_reader_remote_for_reader(3500);

    assert!(guard.explicit_reader_remote());
    assert_eq!(guard.screen(), R10RemoteScreen::Reader);
}

#[test]
fn r10_ble_reader_remote_guard_records_are_monitor_safe() {
    let modes = [
        R10BleReaderRemoteGuardMode::Disabled,
        R10BleReaderRemoteGuardMode::ProbeOnly,
        R10BleReaderRemoteGuardMode::ReaderRemote,
    ];
    let reasons = [
        R10BleReaderRemoteGuardReason::Disabled,
        R10BleReaderRemoteGuardReason::ProbeOnlyLogOnly,
        R10BleReaderRemoteGuardReason::ReaderRemoteLocked,
        R10BleReaderRemoteGuardReason::NotReaderScreen,
        R10BleReaderRemoteGuardReason::WrongHandle,
        R10BleReaderRemoteGuardReason::BadPacket,
        R10BleReaderRemoteGuardReason::NoMotion,
        R10BleReaderRemoteGuardReason::Debounced,
        R10BleReaderRemoteGuardReason::Accepted,
    ];

    for mode in modes {
        for reason in reasons {
            let record =
                R10BleReaderRemoteGuardRecord::new(mode, R10RemoteScreen::Reader, reason);
            assert!(record.is_monitor_safe());
        }
    }
}

#[test]
fn r10_ble_reader_remote_guard_screen_labels_are_monitor_safe() {
    let screens = [
        R10RemoteScreen::Reader,
        R10RemoteScreen::Home,
        R10RemoteScreen::Library,
        R10RemoteScreen::Settings,
        R10RemoteScreen::WifiTransfer,
        R10RemoteScreen::Sleep,
        R10RemoteScreen::Confirm,
        R10RemoteScreen::Unknown,
    ];

    for screen in screens {
        assert!(
            r10_ble_device_task_monitor_label_is_safe(
                reader_remote_screen_label(screen)
            )
        );
    }
}

#[test]
fn r10_ble_reader_remote_guard_deploy_mode_mapping_keeps_probe_safe() {
    assert_eq!(
        R10BleReaderRemoteGuard::from_deploy_mode(R10BleDeviceTaskX4DeployMode::Disabled)
            .mode(),
        R10BleReaderRemoteGuardMode::Disabled
    );
    assert_eq!(
        R10BleReaderRemoteGuard::from_deploy_mode(R10BleDeviceTaskX4DeployMode::ProbeOnly)
            .mode(),
        R10BleReaderRemoteGuardMode::ProbeOnly
    );
    assert_eq!(
        R10BleReaderRemoteGuard::from_deploy_mode(R10BleDeviceTaskX4DeployMode::ReaderRemote)
            .mode(),
        R10BleReaderRemoteGuardMode::ReaderRemote
    );

    let mut probe =
        R10BleReaderRemoteGuard::from_deploy_mode(R10BleDeviceTaskX4DeployMode::ProbeOnly);
    let decision = probe.handle_notify(
        R10RemoteScreen::Reader,
        R10_BLE_LIVE_NOTIFY_VALUE_HANDLE,
        &MOTION,
        10_000,
    );

    assert_eq!(
        decision.reason,
        R10BleReaderRemoteGuardReason::ProbeOnlyLogOnly
    );
    assert!(!decision.should_enqueue());
}


#[test]
fn guard_mode_follows_deploy_mode() {
    assert_eq!(R10BleReaderRemoteGuardMode::from(R10BleDeviceTaskX4DeployMode::Disabled), R10BleReaderRemoteGuardMode::Disabled);
    assert_eq!(R10BleReaderRemoteGuardMode::from(R10BleDeviceTaskX4DeployMode::ProbeOnly), R10BleReaderRemoteGuardMode::ProbeOnly);
    assert_eq!(R10BleReaderRemoteGuardMode::from(R10BleDeviceTaskX4DeployMode::ReaderRemote), R10BleReaderRemoteGuardMode::ReaderRemote);
}
