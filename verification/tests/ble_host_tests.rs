use rustmix_x4::r10_ble_host::{
    r10_ble_gatt_runtime_plan, r10_ble_host_contract_summary, r10_ble_runtime_plan,
    R10BleRuntimeStep,
};
use rustmix_x4::r10_ble_transport::{R10_BLE_NOTIFY_UUID, R10_BLE_SERVICE_UUID, R10_BLE_WRITE_UUID};

#[test]
fn r10_ble_runtime_plan_is_ordered_for_safe_ring_remote_startup() {
    let plan = r10_ble_runtime_plan();

    assert_eq!(plan.first(), Some(&R10BleRuntimeStep::BuildController));
    assert_eq!(plan.get(1), Some(&R10BleRuntimeStep::BuildStack));
    assert_eq!(plan.get(2), Some(&R10BleRuntimeStep::SplitStack));

    let subscribe_pos = plan
        .iter()
        .position(|step| *step == R10BleRuntimeStep::SubscribeNotify)
        .unwrap();
    let start_pos = plan
        .iter()
        .position(|step| *step == R10BleRuntimeStep::StartRemoteMode)
        .unwrap();
    let poll_pos = plan
        .iter()
        .position(|step| *step == R10BleRuntimeStep::PollRemoteMode)
        .unwrap();
    let handle_pos = plan
        .iter()
        .position(|step| *step == R10BleRuntimeStep::HandleNotify)
        .unwrap();

    assert!(subscribe_pos < start_pos);
    assert!(start_pos < poll_pos);
    assert!(poll_pos < handle_pos);
    assert_eq!(plan.last(), Some(&R10BleRuntimeStep::BackoffReconnect));
}

#[test]
fn r10_ble_gatt_runtime_plan_uses_colmi_uart_contract() {
    let plan = r10_ble_gatt_runtime_plan();

    assert_eq!(plan.service_uuid, R10_BLE_SERVICE_UUID);
    assert_eq!(plan.write_uuid, R10_BLE_WRITE_UUID);
    assert_eq!(plan.notify_uuid, R10_BLE_NOTIFY_UUID);
    assert_eq!(
        plan.start_command.packet(),
        &[0x02, 0x04, 0, 0, 0, 0, 0, 0, 0, 0, 0, 0, 0, 0, 0, 0x06]
    );
    assert_eq!(
        plan.poll_command.packet(),
        &[0x02, 0x05, 0, 0, 0, 0, 0, 0, 0, 0, 0, 0, 0, 0, 0, 0x07]
    );
    assert_eq!(
        plan.stop_command.packet(),
        &[0x02, 0x06, 0, 0, 0, 0, 0, 0, 0, 0, 0, 0, 0, 0, 0, 0x08]
    );
    assert_eq!(plan.poll_interval_ms, 1_000);
}

#[test]
fn r10_ble_host_contract_summary_uses_transport_contract() {
    let (service, write, notify, start) = r10_ble_host_contract_summary();

    assert_eq!(service, "6e40fff0-b5a3-f393-e0a9-e50e24dcca9e");
    assert_eq!(write, "6e400002-b5a3-f393-e0a9-e50e24dcca9e");
    assert_eq!(notify, "6e400003-b5a3-f393-e0a9-e50e24dcca9e");
    assert_eq!(
        start,
        &[0x02, 0x04, 0, 0, 0, 0, 0, 0, 0, 0, 0, 0, 0, 0, 0, 0x06]
    );
}

