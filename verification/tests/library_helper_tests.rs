use rustmix_x4::prepared_cache::{read_i16, PreparedTxtError, FONT_DEVANAGARI, FONT_LATIN};
use rustmix_x4::prepared_gen::{
    coverage_to_one_bpp, glyph_ids_for_font, meta_value, one_bpp_bitmap_len,
    validate_page_references, PositionedGlyph, PreparedGenError, PreparedPage, RasterMetrics,
};
use rustmix_x4::r10_ble_device_task::{
    r10_ble_device_task_default_config, r10_ble_device_task_probe_config,
    r10_ble_device_task_reader_remote_config, R10BleDeviceTaskState,
};
use rustmix_x4::r10_ble_device_task_x4::R10BleDeviceTaskX4ProbeOnlyBleBridge;
use rustmix_x4::r10_ble_probe::R10BleProbeNotifyKind;
use rustmix_x4::r10_ble_reader_remote_guard::{R10BleReaderRemoteGuard, R10BleReaderRemoteGuardMode};
use rustmix_x4::r10_ble_transport::R10BleRuntimeMode;
use rustmix_x4::r10_protocol::R10RemotePacket;
use rustmix_x4::r10_remote_policy::R10RemoteScreen;

fn placed(font_id: u32, glyph_id: u32) -> PositionedGlyph {
    PositionedGlyph { font_id, glyph_id, x: 0, y: 0, advance_x: 0, advance_y: 0, cluster: 0 }
}

#[test]
fn meta_values_lose_their_line_breaks() {
    assert_eq!(meta_value("a\r\nb\nc"), "a  b c");
}

#[test]
fn one_bpp_rows_round_up_to_bytes() {
    assert_eq!(one_bpp_bitmap_len(&RasterMetrics { xmin: 0, ymin: 0, width: 9, height: 3 }), 6);
    assert_eq!(one_bpp_bitmap_len(&RasterMetrics { xmin: 0, ymin: 0, width: 0, height: 3 }), 0);
}

#[test]
fn coverage_becomes_one_bit_per_pixel_at_the_threshold() {
    // Two rows of nine pixels: set where coverage is 96 or more.
    let mut gray = vec![0u8; 18];
    gray[0] = 96;
    gray[1] = 95;
    gray[8] = 255;
    gray[9 + 7] = 200;
    let (bits, stride) = coverage_to_one_bpp(&gray, 9, 2);
    assert_eq!(stride, 2);
    assert_eq!(bits, vec![0b1000_0000, 0b1000_0000, 0b0000_0001, 0]);
}

#[test]
fn page_glyph_ids_are_sorted_and_distinct() {
    let page = PreparedPage {
        glyphs: vec![placed(FONT_LATIN, 9), placed(FONT_DEVANAGARI, 4), placed(FONT_LATIN, 2), placed(FONT_LATIN, 9)],
    };
    assert_eq!(glyph_ids_for_font(&page, FONT_LATIN), vec![2, 9]);
    assert_eq!(glyph_ids_for_font(&page, FONT_DEVANAGARI), vec![4]);
    assert!(glyph_ids_for_font(&page, 3).is_empty());
}

#[test]
fn page_references_must_name_written_glyphs() {
    let page = PreparedPage { glyphs: vec![placed(FONT_LATIN, 2), placed(FONT_DEVANAGARI, 4)] };
    assert_eq!(validate_page_references(&page, &[2], &[4], &[]), Ok(()));
    assert_eq!(validate_page_references(&page, &[2], &[5], &[]), Err(PreparedGenError::MissingGlyph(4)));
    let odd = PreparedPage { glyphs: vec![placed(7, 1)] };
    assert_eq!(validate_page_references(&odd, &[], &[], &[]), Err(PreparedGenError::UnknownFontReference(7)));
}

#[test]
fn signed_reads_decode_little_endian() {
    assert_eq!(read_i16(&[0xfe, 0xff], 0), Ok(-2));
    assert_eq!(read_i16(&[0xfe], 0), Err(PreparedTxtError::InvalidPage));
}

#[test]
fn device_task_configs_name_their_modes() {
    assert_eq!(r10_ble_device_task_default_config().mode, R10BleRuntimeMode::Disabled);
    assert_eq!(r10_ble_device_task_probe_config().mode, R10BleRuntimeMode::ProbeOnly);
    assert_eq!(r10_ble_device_task_reader_remote_config().mode, R10BleRuntimeMode::ReaderRemote);
}

#[test]
fn default_device_task_never_starts() {
    let mut state = R10BleDeviceTaskState::new(r10_ble_device_task_default_config());
    assert!(state.start_request().is_none());
    assert!(state.start_request().is_none());
}

#[test]
fn empty_bridge_has_no_transcript() {
    let bridge = R10BleDeviceTaskX4ProbeOnlyBleBridge::<4>::new();
    assert_eq!(bridge.transcript_len(), 0);
    assert!(bridge.stage_at(0).is_none());
}

#[test]
fn only_motion_is_motion() {
    assert!(R10BleProbeNotifyKind::Motion.is_motion());
    assert!(!R10BleProbeNotifyKind::NoEvent.is_motion());
}

#[test]
fn guard_screen_follows_the_reader() {
    let mut guard = R10BleReaderRemoteGuard::reader_remote_locked();
    assert!(guard.mode().allows_reader_remote());
    assert!(!R10BleReaderRemoteGuardMode::ProbeOnly.allows_reader_remote());
    guard.set_screen(R10RemoteScreen::Library);
    assert_eq!(guard.screen(), R10RemoteScreen::Library);
}

#[test]
fn remote_packet_checksum_is_the_byte_sum() {
    let mut prefix = [0u8; 15];
    prefix[0] = 0x02;
    prefix[1] = 0x05;
    assert_eq!(R10RemotePacket::checksum_for_prefix(&prefix), 0x07);
    prefix[0] = 0xff;
    assert_eq!(R10RemotePacket::checksum_for_prefix(&prefix), 0x04);
}
