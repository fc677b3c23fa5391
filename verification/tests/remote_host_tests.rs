use rustmix_x4::r10_ble_transport::{
    R10BleCommand, R10BleRemoteSession, R10_BLE_NOTIFY_UUID, R10_BLE_SERVICE_UUID, R10_BLE_WRITE_UUID,
};
use rustmix_x4::r10_input_bridge::R10InputInjection;
use rustmix_x4::r10_protocol::{r10_remote_poll, r10_remote_start, r10_remote_stop, R10RemotePacket, R10RemotePacketKind};
use rustmix_x4::r10_remote_policy::{R10RemoteAction, R10RemotePolicy, R10RemoteScreen};
use rustmix_x4::reader_input::{Button, Event, RustmixReaderAction};

#[test]
fn r10_host_known_packets_match_stock_protocol() {
    assert_eq!(
        r10_remote_start().bytes(),
        [0x02, 0x04, 0, 0, 0, 0, 0, 0, 0, 0, 0, 0, 0, 0, 0, 0x06]
    );

    assert_eq!(
        r10_remote_poll().bytes(),
        [0x02, 0x05, 0, 0, 0, 0, 0, 0, 0, 0, 0, 0, 0, 0, 0, 0x07]
    );

    assert_eq!(
        r10_remote_stop().bytes(),
        [0x02, 0x06, 0, 0, 0, 0, 0, 0, 0, 0, 0, 0, 0, 0, 0, 0x08]
    );
}

#[test]
fn r10_host_motion_packet_becomes_next_page() {
    let motion = [0x02, 0x02, 0, 0, 0, 0, 0, 0, 0, 0, 0, 0, 0, 0, 0, 0x04];

    assert_eq!(
        R10RemotePacket::classify(&motion),
        R10RemotePacketKind::RemoteMotion
    );

    let mut policy = R10RemotePolicy::enabled_for_reader(3500);
    assert_eq!(
        policy.handle_packet(10_000, &motion),
        R10RemoteAction::Reader(RustmixReaderAction::NextPage)
    );
}

#[test]
fn r10_host_motion_is_reader_only_and_debounced() {
    let motion = [0x02, 0x02, 0, 0, 0, 0, 0, 0, 0, 0, 0, 0, 0, 0, 0, 0x04];

    let mut policy = R10RemotePolicy::enabled_for_reader(3500);
    assert_eq!(
        policy.handle_packet(10_000, &motion),
        R10RemoteAction::Reader(RustmixReaderAction::NextPage)
    );
    assert_eq!(policy.handle_packet(11_000, &motion), R10RemoteAction::NoAction);
    assert_eq!(
        policy.handle_packet(14_000, &motion),
        R10RemoteAction::Reader(RustmixReaderAction::NextPage)
    );

    let mut settings_policy = R10RemotePolicy {
        enabled: true,
        screen: R10RemoteScreen::Settings,
        debounce: policy.debounce,
    };
    assert_eq!(
        settings_policy.handle_packet(20_000, &motion),
        R10RemoteAction::NoAction
    );
}

#[test]
fn r10_host_next_page_maps_to_existing_x4_next_button() {
    assert_eq!(
        R10InputInjection::from_remote_action(R10RemoteAction::Reader(
            RustmixReaderAction::NextPage
        )),
        R10InputInjection::Press(Event::Press(Button::VolDown))
    );
}

#[test]
fn r10_host_previous_page_maps_to_existing_x4_previous_button() {
    assert_eq!(
        R10InputInjection::from_remote_action(R10RemoteAction::Reader(
            RustmixReaderAction::PreviousPage
        )),
        R10InputInjection::Press(Event::Press(Button::VolUp))
    );
}

#[test]
fn r10_host_ble_uuid_contract_matches_stock_gatt() {
    assert_eq!(R10_BLE_SERVICE_UUID, "6e40fff0-b5a3-f393-e0a9-e50e24dcca9e");
    assert_eq!(R10_BLE_WRITE_UUID, "6e400002-b5a3-f393-e0a9-e50e24dcca9e");
    assert_eq!(R10_BLE_NOTIFY_UUID, "6e400003-b5a3-f393-e0a9-e50e24dcca9e");
}

#[test]
fn r10_host_ble_commands_match_stock_packets() {
    assert_eq!(
        R10BleCommand::StartRemote.packet(),
        &[0x02, 0x04, 0, 0, 0, 0, 0, 0, 0, 0, 0, 0, 0, 0, 0, 0x06]
    );
    assert_eq!(
        R10BleCommand::PollRemote.packet(),
        &[0x02, 0x05, 0, 0, 0, 0, 0, 0, 0, 0, 0, 0, 0, 0, 0, 0x07]
    );
    assert_eq!(
        R10BleCommand::StopRemote.packet(),
        &[0x02, 0x06, 0, 0, 0, 0, 0, 0, 0, 0, 0, 0, 0, 0, 0, 0x08]
    );
}

#[test]
fn r10_host_ble_notify_motion_uses_existing_policy() {
    let motion = [0x02, 0x02, 0, 0, 0, 0, 0, 0, 0, 0, 0, 0, 0, 0, 0, 0x04];

    let mut session = R10BleRemoteSession::reader_remote(3500);
    assert_eq!(
        session.on_notify(10_000, &motion),
        R10RemoteAction::Reader(RustmixReaderAction::NextPage)
    );
    assert_eq!(session.on_notify(11_000, &motion), R10RemoteAction::NoAction);
}
