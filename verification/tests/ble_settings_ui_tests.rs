use rustmix_x4::r10_ble_device_task_x4::R10BleDeviceTaskX4DeployMode;
use rustmix_x4::r10_ble_reader_remote_guard::{
    R10BleReaderRemoteGuardMode, R10BleReaderRemoteGuardReason, R10BleReaderRemoteGuardRecord,
};
use rustmix_x4::r10_ble_settings_ui::{
    R10BleSettingsAction, R10BleSettingsController, R10BleSettingsEventRecord,
    R10BleSettingsMode, R10BleSettingsPersistenceRecord, R10BleSettingsStatus,
    R10_BLE_SETTINGS_CONTROL_LABEL, R10_BLE_SETTINGS_PATH, R10_BLE_SETTINGS_TAB,
};
use rustmix_x4::r10_remote_policy::R10RemoteScreen;
use rustmix_x4::monitor_label::r10_ble_device_task_monitor_label_is_safe;

#[test]
fn r10_ble_settings_ui_defaults_to_off() {
    let controller = R10BleSettingsController::new();
    let screen = controller.screen();

    assert_eq!(controller.mode(), R10BleSettingsMode::Off);
    assert!(!controller.explicit_user_change());
    assert_eq!(screen.title, "R10 BLE Remote");
    assert_eq!(screen.path, R10_BLE_SETTINGS_PATH);
    assert_eq!(screen.rows[0].label, "Off");
    assert_eq!(screen.rows[1].label, "Probe Only");
    assert_eq!(screen.rows[2].label, "Reader Remote");
    assert!(screen.rows[0].selected);
    assert!(!screen.quick_disable_available);
}

#[test]
fn r10_ble_settings_ui_probe_only_persists_after_explicit_selection() {
    let mut controller = R10BleSettingsController::new();

    let transition = controller.apply(R10BleSettingsAction::SelectProbeOnly);

    assert_eq!(transition.mode, R10BleSettingsMode::ProbeOnly);
    assert!(transition.should_persist);
    assert_eq!(
        transition.persistence,
        R10BleSettingsPersistenceRecord::new(R10BleSettingsMode::ProbeOnly, true, false)
    );
    assert_eq!(
        transition.deploy_mode(),
        R10BleDeviceTaskX4DeployMode::ProbeOnly
    );
    assert_eq!(transition.record.reader, "reader_off");
    assert!(transition.record.is_monitor_safe());
    assert!(controller.screen().quick_disable_available);
}

#[test]
fn r10_ble_settings_ui_reader_remote_requires_confirmation() {
    let mut controller = R10BleSettingsController::new();

    let selected = controller.apply(R10BleSettingsAction::SelectReaderRemote);

    assert_eq!(controller.mode(), R10BleSettingsMode::Off);
    assert_eq!(
        selected.pending_confirmation,
        Some(R10BleSettingsMode::ReaderRemote)
    );
    assert!(!selected.should_persist);
    assert_eq!(selected.record.status, "confirm_required");
    assert_eq!(selected.record.reader, "reader_off");
}

#[test]
fn r10_ble_settings_ui_reader_remote_confirm_persists_guarded_mode() {
    let mut controller = R10BleSettingsController::new();

    let _ = controller.apply(R10BleSettingsAction::SelectReaderRemote);
    let confirmed = controller.apply(R10BleSettingsAction::ConfirmReaderRemote);

    assert_eq!(controller.mode(), R10BleSettingsMode::ReaderRemote);
    assert!(controller.explicit_user_change());
    assert!(confirmed.should_persist);
    assert_eq!(
        confirmed.persistence.stable_value(),
        "reader_remote_confirmed"
    );
    assert_eq!(
        confirmed.deploy_mode(),
        R10BleDeviceTaskX4DeployMode::ReaderRemote
    );
    assert_eq!(
        confirmed.guard_mode(),
        R10BleReaderRemoteGuardMode::ReaderRemote
    );
    assert_eq!(confirmed.record.reader, "reader_guarded");
    assert!(confirmed.record.is_monitor_safe());
}

#[test]
fn r10_ble_settings_ui_reader_remote_cancel_does_not_persist() {
    let mut controller = R10BleSettingsController::new();

    let _ = controller.apply(R10BleSettingsAction::SelectReaderRemote);
    let cancelled = controller.apply(R10BleSettingsAction::CancelReaderRemote);

    assert_eq!(controller.mode(), R10BleSettingsMode::Off);
    assert_eq!(controller.pending_confirmation(), None);
    assert!(!cancelled.should_persist);
    assert_eq!(cancelled.record.status, "cancelled");
}

#[test]
fn r10_ble_settings_ui_quick_disable_persists_off() {
    let mut controller = R10BleSettingsController::new();

    let _ = controller.apply(R10BleSettingsAction::SelectProbeOnly);
    let disabled = controller.apply(R10BleSettingsAction::QuickDisable);

    assert_eq!(controller.mode(), R10BleSettingsMode::Off);
    assert!(disabled.should_persist);
    assert_eq!(disabled.persistence.stable_value(), "off");
    assert_eq!(
        disabled.deploy_mode(),
        R10BleDeviceTaskX4DeployMode::Disabled
    );
    assert_eq!(disabled.record.status, "disabled");
    assert_eq!(disabled.record.reader, "reader_off");
}

#[test]
fn r10_ble_settings_ui_off_is_persisted_after_explicit_selection_only() {
    let mut controller = R10BleSettingsController::new();
    let open = controller.apply(R10BleSettingsAction::Open);

    assert!(!open.should_persist);
    assert_eq!(
        open.persistence,
        R10BleSettingsPersistenceRecord::new(R10BleSettingsMode::Off, false, false)
    );

    let off = controller.apply(R10BleSettingsAction::SelectOff);

    assert!(off.should_persist);
    assert_eq!(
        off.persistence,
        R10BleSettingsPersistenceRecord::new(R10BleSettingsMode::Off, true, false)
    );
}

#[test]
fn r10_ble_settings_persistence_parses_safe_records() {
    assert_eq!(
        R10BleSettingsPersistenceRecord::parse("R10BLE_MODE=off").mode,
        R10BleSettingsMode::Off
    );
    assert_eq!(
        R10BleSettingsPersistenceRecord::parse("R10BLE_MODE=probe_only").mode,
        R10BleSettingsMode::ProbeOnly
    );

    let reader = R10BleSettingsPersistenceRecord::parse("R10BLE_MODE=reader_remote_confirmed");
    assert_eq!(reader.mode, R10BleSettingsMode::ReaderRemote);
    assert!(reader.reader_remote_confirmed);
}

#[test]
fn r10_ble_settings_persistence_rejects_unconfirmed_reader_remote() {
    let parsed = R10BleSettingsPersistenceRecord::parse("R10BLE_MODE=reader_remote");

    assert_eq!(parsed, R10BleSettingsPersistenceRecord::default_off());
}

#[test]
fn r10_ble_settings_persistence_writes_stable_line() {
    let mut line = std::string::String::new();

    R10BleSettingsPersistenceRecord::new(R10BleSettingsMode::ReaderRemote, true, true)
        .write_line(&mut line)
        .unwrap();

    assert_eq!(line.as_str(), "R10BLE_MODE=reader_remote_confirmed\n");
}

#[test]
fn r10_ble_settings_controller_loads_persisted_probe_only() {
    let controller = R10BleSettingsController::from_persistence(
        R10BleSettingsPersistenceRecord::new(R10BleSettingsMode::ProbeOnly, true, false),
    );

    assert_eq!(controller.mode(), R10BleSettingsMode::ProbeOnly);
    assert!(controller.explicit_user_change());
}

#[test]
fn r10_ble_settings_controller_sanitizes_unconfirmed_reader_remote_load() {
    let controller = R10BleSettingsController::from_persistence(
        R10BleSettingsPersistenceRecord::new(R10BleSettingsMode::ReaderRemote, true, false),
    );

    assert_eq!(controller.mode(), R10BleSettingsMode::Off);
}

#[test]
fn r10_ble_settings_transition_builds_matching_reader_guard() {
    let mut controller = R10BleSettingsController::new();

    let _ = controller.apply(R10BleSettingsAction::SelectReaderRemote);
    let confirmed = controller.apply(R10BleSettingsAction::ConfirmReaderRemote);
    let guard = confirmed.reader_guard();

    assert_eq!(guard.mode(), R10BleReaderRemoteGuardMode::ReaderRemote);
    assert!(guard.explicit_reader_remote());
    assert_eq!(guard.screen(), R10RemoteScreen::Reader);
}

#[test]
fn r10_ble_settings_records_are_monitor_safe() {
    let actions = [
        R10BleSettingsAction::Open,
        R10BleSettingsAction::SelectOff,
        R10BleSettingsAction::SelectProbeOnly,
        R10BleSettingsAction::SelectReaderRemote,
        R10BleSettingsAction::ConfirmReaderRemote,
        R10BleSettingsAction::CancelReaderRemote,
        R10BleSettingsAction::QuickDisable,
    ];
    let modes = [
        R10BleSettingsMode::Off,
        R10BleSettingsMode::ProbeOnly,
        R10BleSettingsMode::ReaderRemote,
    ];

    for action in actions {
        for mode in modes {
            let record = R10BleSettingsEventRecord::new(
                action,
                mode,
                false,
                R10BleSettingsStatus::Viewing,
            );
            assert!(record.is_monitor_safe());
        }
    }
}

#[test]
fn r10_ble_settings_ui_lives_under_controls_tab() {
    let controller = R10BleSettingsController::new();
    let screen = controller.screen();

    assert_eq!(R10_BLE_SETTINGS_TAB, "Controls");
    assert_eq!(R10_BLE_SETTINGS_CONTROL_LABEL, "R10 BLE Remote");
    assert_eq!(screen.path, "Settings > Controls > R10 BLE Remote");
    assert!(!screen.path.contains("Input"));
}

#[test]
fn r10_ble_settings_status_labels_match_scope() {
    assert_eq!(R10BleSettingsMode::Off.status_label(), "Off");
    assert_eq!(
        R10BleSettingsMode::ProbeOnly.status_label(),
        "ProbeOnly log-only"
    );
    assert_eq!(
        R10BleSettingsMode::ReaderRemote.status_label(),
        "ReaderRemote guarded"
    );
}

#[test]
fn r10_ble_settings_reader_remote_record_uses_guarded_reader_label() {
    let record = R10BleSettingsEventRecord::new(
        R10BleSettingsAction::ConfirmReaderRemote,
        R10BleSettingsMode::ReaderRemote,
        true,
        R10BleSettingsStatus::Persisted,
    );

    assert_eq!(record.reader, "reader_guarded");
    assert!(record.is_monitor_safe());

    let guard_record = R10BleReaderRemoteGuardRecord::new(
        R10BleReaderRemoteGuardMode::ReaderRemote,
        R10RemoteScreen::Reader,
        R10BleReaderRemoteGuardReason::ReaderRemoteLocked,
    );

    assert_eq!(guard_record.reader, "reader_off");
    assert!(guard_record.is_monitor_safe());
}


#[test]
fn settings_mode_follows_deploy_mode() {
    assert_eq!(R10BleSettingsMode::from(R10BleDeviceTaskX4DeployMode::Disabled), R10BleSettingsMode::Off);
    assert_eq!(R10BleSettingsMode::from(R10BleDeviceTaskX4DeployMode::ProbeOnly), R10BleSettingsMode::ProbeOnly);
    assert_eq!(R10BleSettingsMode::from(R10BleDeviceTaskX4DeployMode::ReaderRemote), R10BleSettingsMode::ReaderRemote);
}

#[test]
fn stored_settings_read_back() {
    let cases = [
        (R10BleSettingsMode::Off, false, R10BleSettingsMode::Off, false),
        (R10BleSettingsMode::ProbeOnly, false, R10BleSettingsMode::ProbeOnly, false),
        (R10BleSettingsMode::ReaderRemote, true, R10BleSettingsMode::ReaderRemote, true),
        (R10BleSettingsMode::ReaderRemote, false, R10BleSettingsMode::Off, false),
    ];
    for (mode, confirmed, read_mode, read_confirmed) in cases {
        let mut line = String::new();
        R10BleSettingsPersistenceRecord::new(mode, false, confirmed).write_line(&mut line).unwrap();
        let back = R10BleSettingsPersistenceRecord::parse(&line);
        assert_eq!(back, R10BleSettingsPersistenceRecord::new(read_mode, true, read_confirmed));
    }
}
