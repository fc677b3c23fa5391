//! The on-device connectivity probe: BLE callbacks feed it, and it keeps a
//! report of how far the ring got, without ever injecting Reader input.
use vstd::prelude::*;
use crate::r10_protocol::{R10RemotePacket, packet_checksum_valid};
use crate::r10_remote_policy::R10RemoteScreen;
use crate::r10_ble_transport::{
    R10BleAdvertisedDevice,
    R10BleConnectionResult,
    R10BleGattDiscoveryEvent,
    R10BleGattDiscoveryStatus,
    R10BleGattHandles,
    R10BleGattNotifyGate,
    R10BleRemoteRuntime,
    R10BleRemoteSession,
    R10BleRuntimeEffect,
    R10BleScanDecision,
    R10BleScanTarget,
    R10BleTransportState,
    R10BleWritePhase,
    R10BleWriteResult,
    R10_BLE_DEFAULT_NAME_PREFIX,
    R10_BLE_DEFAULT_TARGET_ADDRESS,
    R10_BLE_POLL_INTERVAL_MS,
    R10_VENDOR_STATUS_7301_PACKET,
    discovery_applied,
    discovery_status_spec,
    gatt_notify_result,
    gatt_notify_session,
    handles_complete,
    scan_decision_spec,
    session_after_write_success,
    session_backoff,
};

verus! {

pub const R10_BLE_PROBE_DEFAULT_DURATION_MS: u64 = 30_000;

pub const R10_BLE_PROBE_DEFAULT_DEBOUNCE_MS: u64 = 3_500;

pub const R10_NO_EVENT_PACKET: [u8; 16] = [0x02, 0x00, 0, 0, 0, 0, 0, 0, 0, 0, 0, 0, 0, 0, 0, 0x02];

pub const R10_MOTION_PACKET: [u8; 16] = [0x02, 0x02, 0, 0, 0, 0, 0, 0, 0, 0, 0, 0, 0, 0, 0, 0x04];

#[derive(Clone, Copy, Debug, PartialEq, Eq, Structural)]
pub enum R10BleProbeStep {
    Scan,
    Connect,
    DiscoverGatt,
    SubscribeNotify,
    StartRemote,
    PollRemote,
    ObserveNotify,
    StopRemote,
    Disconnect,
}

pub const R10_BLE_PROBE_STEPS: [R10BleProbeStep; 9] = [
    R10BleProbeStep::Scan,
    R10BleProbeStep::Connect,
    R10BleProbeStep::DiscoverGatt,
    R10BleProbeStep::SubscribeNotify,
    R10BleProbeStep::StartRemote,
    R10BleProbeStep::PollRemote,
    R10BleProbeStep::ObserveNotify,
    R10BleProbeStep::StopRemote,
    R10BleProbeStep::Disconnect,
];

#[derive(Clone, Copy, Debug, PartialEq, Eq)]
pub struct R10BleProbeConfig {
    pub target: R10BleScanTarget,
    pub duration_ms: u64,
    pub debounce_ms: u64,
}

impl R10BleProbeConfig {
    /// The validated ring, a thirty-second run and the stock debounce.
    pub fn live_r10() -> (r: Self)
        ensures
            r.target.address == Some(R10_BLE_DEFAULT_TARGET_ADDRESS),
            r.target.name_prefix == Some(R10_BLE_DEFAULT_NAME_PREFIX),
            r.duration_ms == R10_BLE_PROBE_DEFAULT_DURATION_MS,
            r.debounce_ms == R10_BLE_PROBE_DEFAULT_DEBOUNCE_MS,
    {
        Self {
            target: R10BleScanTarget::default_r10(),
            duration_ms: R10_BLE_PROBE_DEFAULT_DURATION_MS,
            debounce_ms: R10_BLE_PROBE_DEFAULT_DEBOUNCE_MS,
        }
    }
}

#[derive(Clone, Copy, Debug, PartialEq, Eq, Structural)]
pub enum R10BleProbeNotifyKind {
    NoEvent,
    Motion,
    VendorStatus7301,
    UnknownValid,
    BadChecksum,
    WrongHandle,
    WrongLength,
}

impl R10BleProbeNotifyKind {
    pub fn is_motion(&self) -> (r: bool)
        ensures
            r == (*self == R10BleProbeNotifyKind::Motion),
    {
        matches!(self, Self::Motion)
    }

    /// A packet that passed every check but is no page turn.
    pub fn is_ignored_valid_packet(&self) -> (r: bool)
        ensures
            r == (*self == R10BleProbeNotifyKind::NoEvent || *self == R10BleProbeNotifyKind::VendorStatus7301
                || *self == R10BleProbeNotifyKind::UnknownValid),
    {
        matches!(self, Self::NoEvent | Self::VendorStatus7301 | Self::UnknownValid)
    }
}

#[derive(Clone, Copy, Debug, PartialEq, Eq, Structural)]
pub struct R10BleProbeReport {
    pub scan_matched: bool,
    pub connected: bool,
    pub gatt_ready: bool,
    pub notify_subscribed: bool,
    pub remote_started: bool,
    pub remote_stopped: bool,
    pub polls_written: u32,
    pub notifications_total: u32,
    pub no_event_count: u32,
    pub motion_count: u32,
    pub vendor_status_7301_count: u32,
    pub unknown_valid_count: u32,
    pub bad_checksum_count: u32,
    pub wrong_handle_count: u32,
    pub wrong_length_count: u32,
}

/// A report with nothing recorded.
pub open spec fn report_empty(r: R10BleProbeReport) -> bool {
    &&& !r.scan_matched
    &&& !r.connected
    &&& !r.gatt_ready
    &&& !r.notify_subscribed
    &&& !r.remote_started
    &&& !r.remote_stopped
    &&& r.polls_written == 0
    &&& r.notifications_total == 0
    &&& r.no_event_count == 0
    &&& r.motion_count == 0
    &&& r.vendor_status_7301_count == 0
    &&& r.unknown_valid_count == 0
    &&& r.bad_checksum_count == 0
    &&& r.wrong_handle_count == 0
    &&& r.wrong_length_count == 0
}

/// The connection was lost or refused: nothing downstream holds any more.
pub open spec fn report_disconnected(r: R10BleProbeReport) -> R10BleProbeReport {
    R10BleProbeReport { connected: false, notify_subscribed: false, remote_started: false, ..r }
}

pub open spec fn report_after_connection(r: R10BleProbeReport, result: R10BleConnectionResult) -> R10BleProbeReport {
    match result {
        R10BleConnectionResult::Connected => R10BleProbeReport { connected: true, ..r },
        _ => report_disconnected(r),
    }
}

pub open spec fn report_after_write(r: R10BleProbeReport, result: R10BleWriteResult) -> R10BleProbeReport {
    match result {
        R10BleWriteResult::Success(R10BleWritePhase::Subscribe) => R10BleProbeReport { notify_subscribed: true, ..r },
        R10BleWriteResult::Success(R10BleWritePhase::RemoteStart) => R10BleProbeReport { remote_started: true, ..r },
        R10BleWriteResult::Success(R10BleWritePhase::Poll) => R10BleProbeReport {
            polls_written: r.polls_written.saturating_add(1),
            ..r
        },
        R10BleWriteResult::Success(R10BleWritePhase::Shutdown) => R10BleProbeReport {
            remote_stopped: true,
            remote_started: false,
            ..r
        },
        R10BleWriteResult::Failed(_) => report_disconnected(r),
    }
}

/// The report after one classified notify: the total and the counter of its
/// kind go up by one, saturating.
pub open spec fn report_after_notify(r: R10BleProbeReport, kind: R10BleProbeNotifyKind) -> R10BleProbeReport {
    let r1 = R10BleProbeReport { notifications_total: r.notifications_total.saturating_add(1), ..r };
    match kind {
        R10BleProbeNotifyKind::NoEvent => R10BleProbeReport { no_event_count: r.no_event_count.saturating_add(1), ..r1 },
        R10BleProbeNotifyKind::Motion => R10BleProbeReport { motion_count: r.motion_count.saturating_add(1), ..r1 },
        R10BleProbeNotifyKind::VendorStatus7301 => R10BleProbeReport {
            vendor_status_7301_count: r.vendor_status_7301_count.saturating_add(1),
            ..r1
        },
        R10BleProbeNotifyKind::UnknownValid => R10BleProbeReport {
            unknown_valid_count: r.unknown_valid_count.saturating_add(1),
            ..r1
        },
        R10BleProbeNotifyKind::BadChecksum => R10BleProbeReport {
            bad_checksum_count: r.bad_checksum_count.saturating_add(1),
            ..r1
        },
        R10BleProbeNotifyKind::WrongHandle => R10BleProbeReport {
            wrong_handle_count: r.wrong_handle_count.saturating_add(1),
            ..r1
        },
        R10BleProbeNotifyKind::WrongLength => R10BleProbeReport {
            wrong_length_count: r.wrong_length_count.saturating_add(1),
            ..r1
        },
    }
}

/// Scan, connection, GATT, subscription and remote start all succeeded, and
/// at least one notify arrived.
pub open spec fn validated_spec(r: R10BleProbeReport) -> bool {
    r.scan_matched && r.connected && r.gatt_ready && r.notify_subscribed && r.remote_started
        && r.notifications_total > 0
}

impl R10BleProbeReport {
    pub fn new() -> (r: Self)
        ensures
            report_empty(r),
    {
        Self {
            scan_matched: false,
            connected: false,
            gatt_ready: false,
            notify_subscribed: false,
            remote_started: false,
            remote_stopped: false,
            polls_written: 0,
            notifications_total: 0,
            no_event_count: 0,
            motion_count: 0,
            vendor_status_7301_count: 0,
            unknown_valid_count: 0,
            bad_checksum_count: 0,
            wrong_handle_count: 0,
            wrong_length_count: 0,
        }
    }

    /// A match sets the scan flag; a miss leaves it as it was.
    pub fn record_scan_decision(&mut self, decision: R10BleScanDecision)
        ensures
            *final(self) == (if decision != R10BleScanDecision::Ignored {
                R10BleProbeReport { scan_matched: true, ..*old(self) }
            } else {
                *old(self)
            }),
    {
        if decision.is_match() {
            self.scan_matched = true;
        }
    }

    pub fn record_connection_result(&mut self, result: R10BleConnectionResult)
        ensures
            *final(self) == report_after_connection(*old(self), result),
    {
        match result {
            R10BleConnectionResult::Connected => self.connected = true,
            R10BleConnectionResult::ConnectFailed | R10BleConnectionResult::LinkLost => {
                self.connected = false;
                self.notify_subscribed = false;
                self.remote_started = false;
            },
        }
    }

    pub fn record_discovery_status(&mut self, status: R10BleGattDiscoveryStatus)
        ensures
            *final(self) == (R10BleProbeReport { gatt_ready: status is Ready, ..*old(self) }),
    {
        self.gatt_ready = status.is_ready();
    }

    pub fn record_write_result(&mut self, result: R10BleWriteResult)
        ensures
            *final(self) == report_after_write(*old(self), result),
    {
        match result {
            R10BleWriteResult::Success(R10BleWritePhase::Subscribe) => {
                self.notify_subscribed = true;
            },
            R10BleWriteResult::Success(R10BleWritePhase::RemoteStart) => {
                self.remote_started = true;
            },
            R10BleWriteResult::Success(R10BleWritePhase::Poll) => {
                self.polls_written = self.polls_written.saturating_add(1);
            },
            R10BleWriteResult::Success(R10BleWritePhase::Shutdown) => {
                self.remote_stopped = true;
                self.remote_started = false;
            },
            R10BleWriteResult::Failed(_) => {
                self.connected = false;
                self.notify_subscribed = false;
                self.remote_started = false;
            },
        }
    }

    pub fn record_notify_kind(&mut self, kind: R10BleProbeNotifyKind)
        ensures
            *final(self) == report_after_notify(*old(self), kind),
    {
        self.notifications_total = self.notifications_total.saturating_add(1);
        match kind {
            R10BleProbeNotifyKind::NoEvent => {
                self.no_event_count = self.no_event_count.saturating_add(1);
            },
            R10BleProbeNotifyKind::Motion => {
                self.motion_count = self.motion_count.saturating_add(1);
            },
            R10BleProbeNotifyKind::VendorStatus7301 => {
                self.vendor_status_7301_count = self.vendor_status_7301_count.saturating_add(1);
            },
            R10BleProbeNotifyKind::UnknownValid => {
                self.unknown_valid_count = self.unknown_valid_count.saturating_add(1);
            },
            R10BleProbeNotifyKind::BadChecksum => {
                self.bad_checksum_count = self.bad_checksum_count.saturating_add(1);
            },
            R10BleProbeNotifyKind::WrongHandle => {
                self.wrong_handle_count = self.wrong_handle_count.saturating_add(1);
            },
            R10BleProbeNotifyKind::WrongLength => {
                self.wrong_length_count = self.wrong_length_count.saturating_add(1);
            },
        }
    }

    pub fn connectivity_validated(&self) -> (r: bool)
        ensures
            r == validated_spec(*self),
    {
        self.scan_matched && self.connected && self.gatt_ready && self.notify_subscribed
            && self.remote_started && self.notifications_total > 0
    }
}

impl Default for R10BleProbeReport {
    fn default() -> (r: Self)
        ensures
            report_empty(r),
    {
        Self::new()
    }
}

/// How the probe files a notify accepted by the handle and length check.
pub open spec fn classify_accepted_spec(p: Seq<u8>) -> R10BleProbeNotifyKind {
    if !packet_checksum_valid(p) {
        R10BleProbeNotifyKind::BadChecksum
    } else if p == R10_NO_EVENT_PACKET@ {
        R10BleProbeNotifyKind::NoEvent
    } else if p == R10_MOTION_PACKET@ {
        R10BleProbeNotifyKind::Motion
    } else if p == R10_VENDOR_STATUS_7301_PACKET@ {
        R10BleProbeNotifyKind::VendorStatus7301
    } else {
        R10BleProbeNotifyKind::UnknownValid
    }
}

/// How the probe files any notify.
pub open spec fn classify_notify_spec(h: R10BleGattHandles, handle: u16, payload: Seq<u8>) -> R10BleProbeNotifyKind {
    if h.notify_value_handle != Some(handle) {
        R10BleProbeNotifyKind::WrongHandle
    } else if payload.len() != 16 {
        R10BleProbeNotifyKind::WrongLength
    } else {
        classify_accepted_spec(payload)
    }
}

fn array16_eq(a: &[u8; 16], b: &[u8; 16]) -> (r: bool)
    ensures
        r == (a@ == b@),
{
    crate::byte_text::bytes_eq(a.as_slice(), b.as_slice())
}

pub fn classify_notify(handles: &R10BleGattHandles, handle: u16, payload: &[u8]) -> (r: R10BleProbeNotifyKind)
    ensures
        r == classify_notify_spec(*handles, handle, payload@),
{
    match handles.gate_notify(handle, payload) {
        R10BleGattNotifyGate::Accepted(packet) => classify_accepted_packet(packet),
        R10BleGattNotifyGate::WrongHandle { .. } => R10BleProbeNotifyKind::WrongHandle,
        R10BleGattNotifyGate::WrongLength { .. } => R10BleProbeNotifyKind::WrongLength,
    }
}

pub fn classify_accepted_packet(packet: [u8; 16]) -> (r: R10BleProbeNotifyKind)
    ensures
        r == classify_accepted_spec(packet@),
{
    if !packet_checksum_ok(&packet) {
        return R10BleProbeNotifyKind::BadChecksum;
    }
    if array16_eq(&packet, &R10_NO_EVENT_PACKET) {
        return R10BleProbeNotifyKind::NoEvent;
    }
    if array16_eq(&packet, &R10_MOTION_PACKET) {
        return R10BleProbeNotifyKind::Motion;
    }
    if array16_eq(&packet, &R10_VENDOR_STATUS_7301_PACKET) {
        return R10BleProbeNotifyKind::VendorStatus7301;
    }
    R10BleProbeNotifyKind::UnknownValid
}

pub fn packet_checksum_ok(packet: &[u8; 16]) -> (r: bool)
    ensures
        r == packet_checksum_valid(packet@),
{
    R10RemotePacket::checksum_ok(packet.as_slice())
}

#[derive(Clone, Copy, Debug, PartialEq, Eq)]
pub struct R10BleOnDeviceProbe {
    pub config: R10BleProbeConfig,
    pub runtime: R10BleRemoteRuntime,
    pub report: R10BleProbeReport,
}

/// The probe as `new(config)` makes it: the configured Reader-remote
/// runtime, idle, with no handles and an empty report.
pub open spec fn probe_fresh(p: R10BleOnDeviceProbe, config: R10BleProbeConfig) -> bool {
    &&& p.config == config
    &&& p.runtime.session.state == R10BleTransportState::Idle
    &&& p.runtime.session.policy.enabled
    &&& p.runtime.session.policy.screen == R10RemoteScreen::Reader
    &&& p.runtime.session.policy.debounce.last_accept() is None
    &&& p.runtime.session.policy.debounce.window() == config.debounce_ms
    &&& p.runtime.session.poll_interval_ms == R10_BLE_POLL_INTERVAL_MS
    &&& p.runtime.session.next_poll_due_ms == 0
    &&& p.runtime.handles == R10BleGattHandles::spec_unresolved()
    &&& report_empty(p.report)
}

/// The configuration of the live ring: its default address and name
/// prefix, a thirty-second run and the stock debounce.
pub open spec fn live_r10_config(c: R10BleProbeConfig) -> bool {
    &&& c.target.address == Some(R10_BLE_DEFAULT_TARGET_ADDRESS)
    &&& c.target.name_prefix == Some(R10_BLE_DEFAULT_NAME_PREFIX)
    &&& c.duration_ms == R10_BLE_PROBE_DEFAULT_DURATION_MS
    &&& c.debounce_ms == R10_BLE_PROBE_DEFAULT_DEBOUNCE_MS
}

/// `p` with its session replaced.
pub open spec fn probe_with_session(p: R10BleOnDeviceProbe, s: R10BleRemoteSession) -> R10BleOnDeviceProbe {
    R10BleOnDeviceProbe { runtime: R10BleRemoteRuntime { session: s, handles: p.runtime.handles }, ..p }
}

/// `p` with its GATT handles replaced.
pub open spec fn probe_with_handles(p: R10BleOnDeviceProbe, h: R10BleGattHandles) -> R10BleOnDeviceProbe {
    R10BleOnDeviceProbe { runtime: R10BleRemoteRuntime { session: p.runtime.session, handles: h }, ..p }
}

/// The probe after its scan began.
pub open spec fn probe_after_scan_start(p: R10BleOnDeviceProbe) -> R10BleOnDeviceProbe {
    probe_with_session(p, R10BleRemoteSession { state: R10BleTransportState::Scanning, ..p.runtime.session })
}

/// The probe after an advertisement: a match moves it to connecting and is
/// recorded, anything else leaves it as it was.
pub open spec fn probe_after_advertisement(p: R10BleOnDeviceProbe, device: R10BleAdvertisedDevice) -> R10BleOnDeviceProbe {
    if scan_decision_spec(p.config.target, device) != R10BleScanDecision::Ignored {
        R10BleOnDeviceProbe {
            report: R10BleProbeReport { scan_matched: true, ..p.report },
            ..probe_with_session(p, R10BleRemoteSession { state: R10BleTransportState::Connecting, ..p.runtime.session })
        }
    } else {
        p
    }
}

/// The probe after the link came up.
pub open spec fn probe_after_connected(p: R10BleOnDeviceProbe) -> R10BleOnDeviceProbe {
    R10BleOnDeviceProbe {
        report: report_after_connection(p.report, R10BleConnectionResult::Connected),
        ..probe_with_session(p, R10BleRemoteSession { state: R10BleTransportState::Discovering, ..p.runtime.session })
    }
}

/// The probe after a connection attempt failed at `now_ms`.
pub open spec fn probe_after_connect_failed(p: R10BleOnDeviceProbe, now_ms: u64) -> R10BleOnDeviceProbe {
    R10BleOnDeviceProbe {
        report: report_after_connection(p.report, R10BleConnectionResult::ConnectFailed),
        ..probe_with_session(p, session_backoff(p.runtime.session, now_ms))
    }
}

/// The probe after discovery finished with the handles it holds: it
/// subscribes when they are complete and backs off otherwise.
pub open spec fn probe_after_discovery_complete(p: R10BleOnDeviceProbe) -> R10BleOnDeviceProbe {
    let ok = handles_complete(p.runtime.handles);
    R10BleOnDeviceProbe {
        report: R10BleProbeReport { gatt_ready: ok, ..p.report },
        ..probe_with_session(p, R10BleRemoteSession {
            state: if ok { R10BleTransportState::Subscribing } else { R10BleTransportState::Backoff },
            ..p.runtime.session
        })
    }
}

/// The outcome of a write in `phase`.
pub open spec fn write_result_spec(phase: R10BleWritePhase, success: bool) -> R10BleWriteResult {
    if success {
        R10BleWriteResult::Success(phase)
    } else {
        R10BleWriteResult::Failed(phase)
    }
}

/// The probe after a write in `phase` finished at `now_ms`.
pub open spec fn probe_after_write(p: R10BleOnDeviceProbe, phase: R10BleWritePhase, success: bool, now_ms: u64) -> R10BleOnDeviceProbe {
    R10BleOnDeviceProbe {
        report: report_after_write(p.report, write_result_spec(phase, success)),
        ..probe_with_session(p, if success {
            session_after_write_success(p.runtime.session, phase, now_ms)
        } else {
            session_backoff(p.runtime.session, now_ms)
        })
    }
}

/// `next` is the probe after a notify: its report counts the notify's kind,
/// its configuration and GATT handles are unchanged, and its session
/// follows `gatt_notify_session`.
pub open spec fn probe_notified(
    p: R10BleOnDeviceProbe,
    handle: u16,
    payload: Seq<u8>,
    now_ms: u64,
    next: R10BleOnDeviceProbe,
) -> bool {
    &&& next.report == report_after_notify(p.report, classify_notify_spec(p.runtime.handles, handle, payload))
    &&& next.config == p.config
    &&& next.runtime.handles == p.runtime.handles
    &&& gatt_notify_session(p.runtime.session, p.runtime.handles, handle, payload, now_ms, next.runtime.session)
}

impl R10BleOnDeviceProbe {
    pub fn live_r10() -> (r: Self)
        ensures
            r.config.target.address == Some(R10_BLE_DEFAULT_TARGET_ADDRESS),
            r.config.target.name_prefix == Some(R10_BLE_DEFAULT_NAME_PREFIX),
            r.config.duration_ms == R10_BLE_PROBE_DEFAULT_DURATION_MS,
            r.config.debounce_ms == R10_BLE_PROBE_DEFAULT_DEBOUNCE_MS,
            r.runtime.session.state == R10BleTransportState::Idle,
            r.runtime.session.policy.debounce.window() == R10_BLE_PROBE_DEFAULT_DEBOUNCE_MS,
            r.runtime.handles == R10BleGattHandles::spec_unresolved(),
            report_empty(r.report),
            probe_fresh(r, r.config),
            live_r10_config(r.config),
    {
        Self::new(R10BleProbeConfig::live_r10())
    }

    /// A probe for `config`: a Reader-remote runtime with the configured
    /// debounce, no handles and an empty report.
    pub fn new(config: R10BleProbeConfig) -> (r: Self)
        ensures
            r.config == config,
            r.runtime.session.state == R10BleTransportState::Idle,
            r.runtime.session.policy.enabled,
            r.runtime.session.policy.debounce.last_accept() is None,
            r.runtime.session.policy.debounce.window() == config.debounce_ms,
            r.runtime.session.poll_interval_ms == R10_BLE_POLL_INTERVAL_MS,
            r.runtime.session.next_poll_due_ms == 0,
            r.runtime.handles == R10BleGattHandles::spec_unresolved(),
            report_empty(r.report),
            probe_fresh(r, config),
    {
        Self {
            runtime: R10BleRemoteRuntime::reader_remote(config.debounce_ms),
            config,
            report: R10BleProbeReport::new(),
        }
    }

    pub fn begin_scan(&mut self)
        ensures
            final(self).runtime.session == (R10BleRemoteSession { state: R10BleTransportState::Scanning, ..old(self).runtime.session }),
            final(self).runtime.handles == old(self).runtime.handles,
            final(self).report == old(self).report,
            final(self).config == old(self).config,
            *final(self) == probe_after_scan_start(*old(self)),
    {
        self.runtime.session.begin_scan();
    }

    /// Matches an advertisement against the configured target; a match is
    /// recorded.
    pub fn on_advertised_device(&mut self, device: R10BleAdvertisedDevice<'_>) -> (r: R10BleRuntimeEffect)
        ensures
            r == R10BleRuntimeEffect::Scan(scan_decision_spec(old(self).config.target, device)),
            final(self).config == old(self).config,
            final(self).runtime.handles == old(self).runtime.handles,
            final(self).runtime.session == (if scan_decision_spec(old(self).config.target, device) != R10BleScanDecision::Ignored {
                R10BleRemoteSession { state: R10BleTransportState::Connecting, ..old(self).runtime.session }
            } else {
                old(self).runtime.session
            }),
            final(self).report == (if scan_decision_spec(old(self).config.target, device) != R10BleScanDecision::Ignored {
                R10BleProbeReport { scan_matched: true, ..old(self).report }
            } else {
                old(self).report
            }),
            *final(self) == probe_after_advertisement(*old(self), device),
    {
        let effect = self.runtime.scan_device_effect(self.config.target, device);
        if let R10BleRuntimeEffect::Scan(decision) = effect {
            self.report.record_scan_decision(decision);
        }
        effect
    }

    pub fn on_connected(&mut self) -> (r: R10BleRuntimeEffect)
        ensures
            r == R10BleRuntimeEffect::Connection(R10BleConnectionResult::Connected),
            final(self).config == old(self).config,
            final(self).runtime.handles == old(self).runtime.handles,
            final(self).runtime.session == (R10BleRemoteSession { state: R10BleTransportState::Discovering, ..old(self).runtime.session }),
            final(self).report == report_after_connection(old(self).report, R10BleConnectionResult::Connected),
            *final(self) == probe_after_connected(*old(self)),
    {
        let effect = self.runtime.connect_success_effect();
        self.report.record_connection_result(R10BleConnectionResult::Connected);
        effect
    }

    pub fn on_connect_failed(&mut self, now_ms: u64) -> (r: R10BleRuntimeEffect)
        ensures
            r == R10BleRuntimeEffect::Connection(R10BleConnectionResult::ConnectFailed),
            final(self).config == old(self).config,
            final(self).runtime.handles == old(self).runtime.handles,
            final(self).runtime.session == session_backoff(old(self).runtime.session, now_ms),
            final(self).report == report_after_connection(old(self).report, R10BleConnectionResult::ConnectFailed),
            *final(self) == probe_after_connect_failed(*old(self), now_ms),
    {
        let effect = self.runtime.connect_failed_effect(now_ms);
        self.report.record_connection_result(R10BleConnectionResult::ConnectFailed);
        effect
    }

    pub fn on_discovery_event(&mut self, event: R10BleGattDiscoveryEvent) -> (r: R10BleRuntimeEffect)
        ensures
            final(self).runtime.handles == discovery_applied(old(self).runtime.handles, event),
            r == R10BleRuntimeEffect::Discovery(discovery_status_spec(final(self).runtime.handles)),
            final(self).runtime.session == old(self).runtime.session,
            final(self).config == old(self).config,
            final(self).report == old(self).report,
    {
        self.runtime.discovery_event_effect(event)
    }

    /// Discovery finished; the report takes whether the handles are ready.
    pub fn on_discovery_complete(&mut self) -> (r: R10BleRuntimeEffect)
        ensures
            r == R10BleRuntimeEffect::Discovery(discovery_status_spec(old(self).runtime.handles)),
            final(self).config == old(self).config,
            final(self).runtime.handles == old(self).runtime.handles,
            final(self).runtime.session == (R10BleRemoteSession {
                state: if handles_complete(old(self).runtime.handles) {
                    R10BleTransportState::Subscribing
                } else {
                    R10BleTransportState::Backoff
                },
                ..old(self).runtime.session
            }),
            final(self).report == (R10BleProbeReport { gatt_ready: handles_complete(old(self).runtime.handles), ..old(self).report }),
            *final(self) == probe_after_discovery_complete(*old(self)),
    {
        let effect = self.runtime.discovery_complete_effect();
        if let R10BleRuntimeEffect::Discovery(status) = effect {
            self.report.record_discovery_status(status);
        }
        effect
    }

    /// A write finished; the report and the session follow its outcome.
    pub fn on_write_result(&mut self, phase: R10BleWritePhase, success: bool, now_ms: u64) -> (r: R10BleRuntimeEffect)
        ensures
            r == R10BleRuntimeEffect::WriteResult(if success {
                R10BleWriteResult::Success(phase)
            } else {
                R10BleWriteResult::Failed(phase)
            }),
            final(self).config == old(self).config,
            final(self).runtime.handles == old(self).runtime.handles,
            final(self).runtime.session == (if success {
                session_after_write_success(old(self).runtime.session, phase, now_ms)
            } else {
                session_backoff(old(self).runtime.session, now_ms)
            }),
            final(self).report == report_after_write(old(self).report, if success {
                R10BleWriteResult::Success(phase)
            } else {
                R10BleWriteResult::Failed(phase)
            }),
            *final(self) == probe_after_write(*old(self), phase, success, now_ms),
    {
        let effect = if success {
            self.runtime.write_success_effect(phase, now_ms)
        } else {
            self.runtime.write_failed_effect(phase, now_ms)
        };
        if let R10BleRuntimeEffect::WriteResult(result) = effect {
            self.report.record_write_result(result);
        }
        effect
    }

    /// Files the notify in the report, then hands it to the runtime.
    pub fn on_notify(&mut self, handle: u16, payload: &[u8], now_ms: u64) -> (r: R10BleRuntimeEffect)
        ensures
            final(self).report == report_after_notify(
                old(self).report,
                classify_notify_spec(old(self).runtime.handles, handle, payload@),
            ),
            final(self).config == old(self).config,
            final(self).runtime.handles == old(self).runtime.handles,
            (r matches R10BleRuntimeEffect::Notify(n) && gatt_notify_result(
                old(self).runtime.session.policy,
                old(self).runtime.handles,
                handle,
                payload@,
                now_ms,
                n,
            )),
            gatt_notify_session(old(self).runtime.session, old(self).runtime.handles, handle, payload@, now_ms, final(self).runtime.session),
            probe_notified(*old(self), handle, payload@, now_ms, *final(self)),
    {
        let kind = classify_notify(&self.runtime.handles, handle, payload);
        self.report.record_notify_kind(kind);
        self.runtime.notify_effect(handle, payload, now_ms)
    }
}

/// The report validates exactly when every step of the connectivity script
/// was recorded: a report that went through scan match, connection, ready
/// discovery, subscription, remote start and one notify validates, whatever
/// the notify's kind.
pub proof fn lemma_probe_script_validates(
    r0: R10BleProbeReport,
    handles: R10BleGattHandles,
    kind: R10BleProbeNotifyKind,
)
    requires
        handles_complete(handles),
        r0.notifications_total < u32::MAX,
    ensures
        validated_spec(
            report_after_notify(
                report_after_write(
                    report_after_write(
                        R10BleProbeReport {
                            gatt_ready: discovery_status_spec(handles) is Ready,
                            ..report_after_connection(R10BleProbeReport { scan_matched: true, ..r0 }, R10BleConnectionResult::Connected)
                        },
                        R10BleWriteResult::Success(R10BleWritePhase::Subscribe),
                    ),
                    R10BleWriteResult::Success(R10BleWritePhase::RemoteStart),
                ),
                kind,
            ),
        ),
{
}

/// A lost link or a failed write clears validation until the steps are
/// recorded again.
pub proof fn lemma_failure_clears_validation(r: R10BleProbeReport, phase: R10BleWritePhase)
    ensures
        !validated_spec(report_after_connection(r, R10BleConnectionResult::LinkLost)),
        !validated_spec(report_after_write(r, R10BleWriteResult::Failed(phase))),
{
}

} // verus!
