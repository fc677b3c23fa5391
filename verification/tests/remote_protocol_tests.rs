use rustmix_x4::r10_input_bridge::{remote_action_event, R10InputInjection};
use rustmix_x4::r10_protocol::{
    r10_remote_poll, r10_remote_start, r10_remote_stop, R10RemotePacket, R10RemotePacketKind,
};
use rustmix_x4::r10_remote_policy::{
    R10RemoteAction, R10RemoteDebounce, R10RemotePolicy, R10RemoteScreen,
};
use rustmix_x4::reader_input::{Button, Event, RustmixReaderAction};

const MOTION: [u8; 16] = [0x02, 0x02, 0, 0, 0, 0, 0, 0, 0, 0, 0, 0, 0, 0, 0, 0x04];

#[test]
fn r10_known_packets_match_stock_protocol() {
    assert_eq!(
        r10_remote_start().bytes(),
        [0x02, 0x04, 0, 0, 0, 0, 0, 0, 0, 0, 0, 0, 0, 0, 0, 0x06]
    );
    assert_eq!(
        r10_remote_poll().bytes(),
        [0x02, 0x05, 0, 0, 0, 0, 0, 0, 0, 0, 0, 0, 0, 0, 0, 0x07]
    );
    assert_eq!(
        r10_remote_stop().bytes(),
        [0x02, 0x06, 0, 0, 0, 0, 0, 0, 0, 0, 0, 0, 0, 0, 0, 0x08]
    );
}

#[test]
fn r10_classifies_motion_and_no_event() {
    let no_event = [0x02, 0x00, 0, 0, 0, 0, 0, 0, 0, 0, 0, 0, 0, 0, 0, 0x02];
    let motion = [0x02, 0x02, 0, 0, 0, 0, 0, 0, 0, 0, 0, 0, 0, 0, 0, 0x04];

    assert_eq!(
        R10RemotePacket::classify(&no_event),
        R10RemotePacketKind::RemoteNoEvent
    );
    assert_eq!(
        R10RemotePacket::classify(&motion),
        R10RemotePacketKind::RemoteMotion
    );
}

#[test]
fn r10_rejects_bad_checksum() {
    let bad = [0x02, 0x02, 0, 0, 0, 0, 0, 0, 0, 0, 0, 0, 0, 0, 0, 0x05];
    assert_eq!(
        R10RemotePacket::classify(&bad),
        R10RemotePacketKind::BadChecksum
    );
}

#[test]
fn r10_motion_maps_to_reader_next_page() {
    let mut policy = R10RemotePolicy::enabled_for_reader(3500);
    assert_eq!(
        policy.handle_packet(10_000, &MOTION),
        R10RemoteAction::Reader(RustmixReaderAction::NextPage)
    );
}

#[test]
fn r10_motion_is_reader_only() {
    let mut policy = R10RemotePolicy {
        enabled: true,
        screen: R10RemoteScreen::Settings,
        debounce: R10RemoteDebounce::new(3500),
    };
    assert_eq!(policy.handle_packet(10_000, &MOTION), R10RemoteAction::NoAction);
}

#[test]
fn r10_motion_is_debounced() {
    let mut policy = R10RemotePolicy::enabled_for_reader(3500);
    assert_eq!(
        policy.handle_packet(10_000, &MOTION),
        R10RemoteAction::Reader(RustmixReaderAction::NextPage)
    );
    assert_eq!(policy.handle_packet(11_000, &MOTION), R10RemoteAction::NoAction);
    assert_eq!(
        policy.handle_packet(14_000, &MOTION),
        R10RemoteAction::Reader(RustmixReaderAction::NextPage)
    );
}

#[test]
fn r10_disabled_ignores_motion() {
    let mut policy = R10RemotePolicy::disabled();
    policy.screen = R10RemoteScreen::Reader;
    assert_eq!(policy.handle_packet(10_000, &MOTION), R10RemoteAction::NoAction);
}

#[test]
fn r10_next_page_maps_to_existing_next_button() {
    assert_eq!(
        R10InputInjection::from_remote_action(R10RemoteAction::Reader(
            RustmixReaderAction::NextPage
        )),
        R10InputInjection::Press(Event::Press(Button::VolDown))
    );
}

#[test]
fn r10_previous_page_maps_to_existing_previous_button() {
    assert_eq!(
        R10InputInjection::from_remote_action(R10RemoteAction::Reader(
            RustmixReaderAction::PreviousPage
        )),
        R10InputInjection::Press(Event::Press(Button::VolUp))
    );
}

#[test]
fn r10_none_action_does_not_enqueue_input() {
    assert_eq!(
        R10InputInjection::from_remote_action(R10RemoteAction::NoAction),
        R10InputInjection::NoInjection
    );
    assert_eq!(remote_action_event(R10RemoteAction::NoAction), None);
}

#[test]
fn remote_action_event_carries_the_button_press() {
    assert_eq!(
        remote_action_event(R10RemoteAction::Reader(RustmixReaderAction::NextPage)),
        Some(Event::Press(Button::VolDown))
    );
}

#[test]
fn packet_from_payload_has_stock_checksum() {
    let packet = R10RemotePacket::from_payload2(0x02, 0x04);
    assert_eq!(packet.bytes()[15], 0x06);
    assert!(R10RemotePacket::checksum_ok(&packet.bytes()));
}
