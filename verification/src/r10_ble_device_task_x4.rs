//! The X4 ProbeOnly bridge: BLE adapter callbacks feed it, it drives the
//! connectivity probe, keeps a bounded transcript of the stages reached and
//! renders each stage as a monitor-safe serial record. It never enables
//! Reader input.
use vstd::prelude::*;
use vstd::string::StringSliceAdditionalSpecFns;
use crate::byte_text::str_eq;
use crate::monitor_label::r10_ble_device_task_monitor_label_is_safe as safe;
use crate::r10_ble_probe::{
    R10BleOnDeviceProbe, R10BleProbeNotifyKind, R10BleProbeReport, classify_notify,
    classify_notify_spec, live_r10_config, probe_after_advertisement, probe_after_connect_failed,
    probe_after_connected, probe_after_discovery_complete, probe_after_scan_start,
    probe_after_write, probe_fresh, probe_notified, probe_with_handles, report_after_notify,
    report_after_write,
};
use crate::r10_ble_transport::{
    R10BleAdvertisedDevice, R10BleGattDiscoveryEvent, R10BleGattHandles, R10BleScanDecision,
    R10BleWritePhase, R10BleWriteResult, R10_BLE_LIVE_NOTIFY_CCCD_HANDLE,
    R10_BLE_LIVE_NOTIFY_VALUE_HANDLE, R10_BLE_LIVE_SERVICE_END_HANDLE,
    R10_BLE_LIVE_SERVICE_START_HANDLE, R10_BLE_LIVE_WRITE_VALUE_HANDLE, handles_complete,
    scan_decision_spec,
};

verus! {

#[derive(Clone, Copy, Debug, PartialEq, Eq, Structural)]
pub enum R10BleDeviceTaskX4DeployMode {
    Disabled,
    ProbeOnly,
    ReaderRemote,
}

/// One line of runtime serial output, as monitor-safe key/value fields.
#[derive(Clone, Copy, Debug, PartialEq, Eq)]
pub struct R10BleDeviceTaskX4RuntimeSerialRecord {
    pub event: &'static str,
    pub kind: &'static str,
    pub mode: &'static str,
    pub source: &'static str,
    pub lifecycle: &'static str,
    pub command: &'static str,
    pub outcome: &'static str,
    pub reader: &'static str,
    pub status: &'static str,
}

/// `key` names the field `name`.
pub open spec fn key_is(key: &str, name: &str) -> bool {
    key.spec_bytes() == name.spec_bytes()
}

/// The value a record holds under `key`, if `key` names one of its fields.
pub open spec fn record_value(r: R10BleDeviceTaskX4RuntimeSerialRecord, key: &str) -> Option<&'static str> {
    if key_is(key, "event") {
        Some(r.event)
    } else if key_is(key, "kind") {
        Some(r.kind)
    } else if key_is(key, "mode") {
        Some(r.mode)
    } else if key_is(key, "source") {
        Some(r.source)
    } else if key_is(key, "lifecycle") {
        Some(r.lifecycle)
    } else if key_is(key, "command") {
        Some(r.command)
    } else if key_is(key, "outcome") {
        Some(r.outcome)
    } else if key_is(key, "reader") {
        Some(r.reader)
    } else if key_is(key, "status") {
        Some(r.status)
    } else {
        None
    }
}

/// Every field of the record is a monitor-safe label.
pub open spec fn record_safe(r: R10BleDeviceTaskX4RuntimeSerialRecord) -> bool {
    &&& crate::monitor_label::label_safe(r.event)
    &&& crate::monitor_label::label_safe(r.kind)
    &&& crate::monitor_label::label_safe(r.mode)
    &&& crate::monitor_label::label_safe(r.source)
    &&& crate::monitor_label::label_safe(r.lifecycle)
    &&& crate::monitor_label::label_safe(r.command)
    &&& crate::monitor_label::label_safe(r.outcome)
    &&& crate::monitor_label::label_safe(r.reader)
    &&& crate::monitor_label::label_safe(r.status)
}

impl R10BleDeviceTaskX4RuntimeSerialRecord {
    pub fn value_for_key(&self, key: &str) -> (r: Option<&'static str>)
        ensures
            r == record_value(*self, key),
    {
        if str_eq(key, "event") {
            Some(self.event)
        } else if str_eq(key, "kind") {
            Some(self.kind)
        } else if str_eq(key, "mode") {
            Some(self.mode)
        } else if str_eq(key, "source") {
            Some(self.source)
        } else if str_eq(key, "lifecycle") {
            Some(self.lifecycle)
        } else if str_eq(key, "command") {
            Some(self.command)
        } else if str_eq(key, "outcome") {
            Some(self.outcome)
        } else if str_eq(key, "reader") {
            Some(self.reader)
        } else if str_eq(key, "status") {
            Some(self.status)
        } else {
            None
        }
    }

    pub fn kind_value(&self) -> (r: &'static str)
        ensures
            r == self.kind,
    {
        self.kind
    }

    pub fn is_monitor_safe(&self) -> (r: bool)
        ensures
            r == record_safe(*self),
    {
        safe(self.event) && safe(self.kind) && safe(self.mode) && safe(self.source) && safe(
            self.lifecycle,
        ) && safe(self.command) && safe(self.outcome) && safe(self.reader) && safe(self.status)
    }
}

#[derive(Clone, Copy, Debug, PartialEq, Eq, Structural)]
pub enum R10BleDeviceTaskX4ProbeOnlyBridgeStage {
    ScanStarted,
    TargetSeen,
    AdvertisementIgnored,
    Connected,
    ConnectFailed,
    GattReady,
    GattIncomplete,
    Subscribed,
    SubscribeFailed,
    RemoteStarted,
    RemoteStartFailed,
    PollWritten,
    PollFailed,
    NotifyReceived,
    NotifyIgnored,
    TimedOut,
}

type Stage = R10BleDeviceTaskX4ProbeOnlyBridgeStage;

/// The lifecycle step a stage belongs to.
pub open spec fn stage_lifecycle(s: Stage) -> &'static str {
    match s {
        Stage::ScanStarted | Stage::AdvertisementIgnored => "start_scan",
        Stage::TargetSeen => "target_seen",
        Stage::Connected | Stage::ConnectFailed => "connect",
        Stage::GattReady | Stage::GattIncomplete => "discover",
        Stage::Subscribed | Stage::SubscribeFailed => "subscribe",
        Stage::RemoteStarted | Stage::RemoteStartFailed => "remote_start",
        Stage::PollWritten | Stage::PollFailed => "poll",
        Stage::NotifyReceived | Stage::NotifyIgnored => "notify",
        Stage::TimedOut => "timeout",
    }
}

/// The BLE command the adapter performs next after a stage.
pub open spec fn stage_command(s: Stage) -> &'static str {
    match s {
        Stage::ScanStarted | Stage::AdvertisementIgnored => "scan_start",
        Stage::TargetSeen => "connect_target",
        Stage::Connected => "discover_gatt",
        Stage::GattReady => "subscribe_cccd",
        Stage::Subscribed => "write_remote_start",
        Stage::RemoteStarted | Stage::PollWritten => "write_poll",
        Stage::NotifyReceived | Stage::NotifyIgnored => "handle_notify",
        _ => "none",
    }
}

pub open spec fn stage_outcome(s: Stage) -> &'static str {
    match s {
        Stage::ScanStarted => "started",
        Stage::AdvertisementIgnored | Stage::NotifyIgnored => "ignored",
        Stage::ConnectFailed | Stage::GattIncomplete | Stage::SubscribeFailed | Stage::RemoteStartFailed
        | Stage::PollFailed => "failed",
        Stage::TimedOut => "timeout",
        _ => "ok",
    }
}

/// A stage after which the adapter stops and backs off.
pub open spec fn stage_terminal(s: Stage) -> bool {
    stage_outcome(s) == "failed" || s == Stage::TimedOut
}

pub open spec fn stage_record(s: Stage) -> R10BleDeviceTaskX4RuntimeSerialRecord {
    R10BleDeviceTaskX4RuntimeSerialRecord {
        event: "ble_task",
        kind: "bridge",
        mode: "probe_only",
        source: "ble_callback",
        lifecycle: stage_lifecycle(s),
        command: stage_command(s),
        outcome: stage_outcome(s),
        reader: "reader_off",
        status: if stage_terminal(s) {
            "terminal"
        } else {
            "running"
        },
    }
}

impl R10BleDeviceTaskX4ProbeOnlyBridgeStage {
    pub fn lifecycle_label(&self) -> (r: &'static str)
        ensures
            r == stage_lifecycle(*self),
    {
        match self {
            Self::ScanStarted | Self::AdvertisementIgnored => "start_scan",
            Self::TargetSeen => "target_seen",
            Self::Connected | Self::ConnectFailed => "connect",
            Self::GattReady | Self::GattIncomplete => "discover",
            Self::Subscribed | Self::SubscribeFailed => "subscribe",
            Self::RemoteStarted | Self::RemoteStartFailed => "remote_start",
            Self::PollWritten | Self::PollFailed => "poll",
            Self::NotifyReceived | Self::NotifyIgnored => "notify",
            Self::TimedOut => "timeout",
        }
    }

    pub fn command_label(&self) -> (r: &'static str)
        ensures
            r == stage_command(*self),
    {
        match self {
            Self::ScanStarted | Self::AdvertisementIgnored => "scan_start",
            Self::TargetSeen => "connect_target",
            Self::Connected => "discover_gatt",
            Self::GattReady => "subscribe_cccd",
            Self::Subscribed => "write_remote_start",
            Self::RemoteStarted | Self::PollWritten => "write_poll",
            Self::NotifyReceived | Self::NotifyIgnored => "handle_notify",
            _ => "none",
        }
    }

    pub fn outcome_label(&self) -> (r: &'static str)
        ensures
            r == stage_outcome(*self),
    {
        match self {
            Self::ScanStarted => "started",
            Self::AdvertisementIgnored | Self::NotifyIgnored => "ignored",
            Self::ConnectFailed | Self::GattIncomplete | Self::SubscribeFailed
            | Self::RemoteStartFailed | Self::PollFailed => "failed",
            Self::TimedOut => "timeout",
            _ => "ok",
        }
    }

    pub fn is_terminal(&self) -> (r: bool)
        ensures
            r == stage_terminal(*self),
    {
        matches!(
            self,
            Self::ConnectFailed | Self::GattIncomplete | Self::SubscribeFailed
                | Self::RemoteStartFailed | Self::PollFailed | Self::TimedOut
        )
    }

    pub fn record(&self) -> (r: R10BleDeviceTaskX4RuntimeSerialRecord)
        ensures
            r == stage_record(*self),
    {
        R10BleDeviceTaskX4RuntimeSerialRecord {
            event: "ble_task",
            kind: "bridge",
            mode: "probe_only",
            source: "ble_callback",
            lifecycle: self.lifecycle_label(),
            command: self.command_label(),
            outcome: self.outcome_label(),
            reader: "reader_off",
            status: if self.is_terminal() {
                "terminal"
            } else {
                "running"
            },
        }
    }
}

#[derive(Clone, Copy, Debug, PartialEq, Eq)]
pub struct R10BleDeviceTaskX4ProbeOnlyBridgeEvent {
    pub stage: R10BleDeviceTaskX4ProbeOnlyBridgeStage,
    pub record: Option<R10BleDeviceTaskX4RuntimeSerialRecord>,
    pub reader_input_enabled: bool,
}

/// The event a stage is reported as: its record, and Reader input off.
pub open spec fn stage_event(s: Stage) -> R10BleDeviceTaskX4ProbeOnlyBridgeEvent {
    R10BleDeviceTaskX4ProbeOnlyBridgeEvent { stage: s, record: Some(stage_record(s)), reader_input_enabled: false }
}

impl R10BleDeviceTaskX4ProbeOnlyBridgeEvent {
    pub fn from_stage(stage: R10BleDeviceTaskX4ProbeOnlyBridgeStage) -> (r: Self)
        ensures
            r == stage_event(stage),
    {
        Self { stage, record: Some(stage.record()), reader_input_enabled: false }
    }

    pub fn is_monitor_safe(&self) -> (r: bool)
        ensures
            r == (match self.record {
                Some(rec) => record_safe(rec),
                None => true,
            }),
    {
        match self.record {
            Some(record) => record.is_monitor_safe(),
            None => true,
        }
    }
}

/// The GATT layout validated on the live ring.
pub open spec fn live_gatt_handles() -> R10BleGattHandles {
    R10BleGattHandles::spec_new(
        R10_BLE_LIVE_SERVICE_START_HANDLE,
        R10_BLE_LIVE_SERVICE_END_HANDLE,
        R10_BLE_LIVE_WRITE_VALUE_HANDLE,
        R10_BLE_LIVE_NOTIFY_VALUE_HANDLE,
        R10_BLE_LIVE_NOTIFY_CCCD_HANDLE,
    )
}

/// The kinds of notify the bridge counts as received rather than ignored.
pub open spec fn notify_kind_valid(k: R10BleProbeNotifyKind) -> bool {
    k == R10BleProbeNotifyKind::NoEvent || k == R10BleProbeNotifyKind::Motion
        || k == R10BleProbeNotifyKind::VendorStatus7301 || k == R10BleProbeNotifyKind::UnknownValid
}

#[derive(Clone, Debug, PartialEq, Eq)]
pub struct R10BleDeviceTaskX4ProbeOnlyBleBridge<const N: usize> {
    probe: R10BleOnDeviceProbe,
    transcript: Vec<R10BleDeviceTaskX4ProbeOnlyBridgeStage>,
    dropped: usize,
}

impl<const N: usize> R10BleDeviceTaskX4ProbeOnlyBleBridge<N> {
    pub closed spec fn wf(&self) -> bool {
        self.transcript@.len() <= N
    }

    /// The probe the bridge drives.
    pub closed spec fn probe_state(&self) -> R10BleOnDeviceProbe {
        self.probe
    }

    /// The stages recorded so far, oldest first.
    pub closed spec fn stages(&self) -> Seq<Stage> {
        self.transcript@
    }

    /// How many stages did not fit the transcript.
    pub closed spec fn dropped_count(&self) -> nat {
        self.dropped as nat
    }

    /// The transcript after recording `s`: appended while there is room,
    /// counted as dropped otherwise.
    pub open spec fn recorded(&self, s: Stage, next: Self) -> bool {
        &&& next.wf()
        &&& if self.stages().len() < N {
            &&& next.stages() == self.stages().push(s)
            &&& next.dropped_count() == self.dropped_count()
        } else {
            &&& next.stages() == self.stages()
            &&& next.dropped_count() == if self.dropped_count() < usize::MAX {
                self.dropped_count() + 1
            } else {
                self.dropped_count()
            }
        }
    }

    pub fn new() -> (r: Self)
        ensures
            r.wf(),
            r.stages().len() == 0,
            r.dropped_count() == 0,
            r.probe_state().config.debounce_ms == crate::r10_ble_probe::R10_BLE_PROBE_DEFAULT_DEBOUNCE_MS,
            r.probe_state().runtime.handles == R10BleGattHandles::spec_unresolved(),
            crate::r10_ble_probe::report_empty(r.probe_state().report),
            probe_fresh(r.probe_state(), r.probe_state().config),
            live_r10_config(r.probe_state().config),
    {
        Self { probe: R10BleOnDeviceProbe::live_r10(), transcript: Vec::new(), dropped: 0 }
    }

    fn record_stage(&mut self, stage: Stage) -> (r: R10BleDeviceTaskX4ProbeOnlyBridgeEvent)
        requires
            old(self).wf(),
        ensures
            old(self).recorded(stage, *final(self)),
            final(self).probe_state() == old(self).probe_state(),
            r == stage_event(stage),
    {
        if self.transcript.len() < N {
            self.transcript.push(stage);
        } else {
            self.dropped = self.dropped.saturating_add(1);
        }
        R10BleDeviceTaskX4ProbeOnlyBridgeEvent::from_stage(stage)
    }

    pub fn report(&self) -> (r: &R10BleProbeReport)
        ensures
            *r == self.probe_state().report,
    {
        &self.probe.report
    }

    pub fn transcript_len(&self) -> (r: usize)
        ensures
            r == self.stages().len(),
    {
        self.transcript.len()
    }

    pub fn stage_at(&self, index: usize) -> (r: Option<R10BleDeviceTaskX4ProbeOnlyBridgeStage>)
        ensures
            r == (if index < self.stages().len() {
                Some(self.stages()[index as int])
            } else {
                None
            }),
    {
        if index < self.transcript.len() {
            Some(self.transcript[index])
        } else {
            None
        }
    }

    pub fn dropped(&self) -> (r: usize)
        ensures
            r == self.dropped_count(),
    {
        self.dropped
    }

    /// The record that describes the deployed ProbeOnly profile.
    pub fn profile_record(&self) -> (r: R10BleDeviceTaskX4RuntimeSerialRecord)
        ensures
            r == profile_record_spec(),
    {
        R10BleDeviceTaskX4RuntimeSerialRecord {
            event: "ble_task",
            kind: "profile",
            mode: "probe_only",
            source: "deploy_script",
            lifecycle: "none",
            command: "none",
            outcome: "ready",
            reader: "reader_off",
            status: "ready",
        }
    }

    /// The record that announces the ProbeOnly start trigger.
    pub fn trigger_record(&self) -> (r: R10BleDeviceTaskX4RuntimeSerialRecord)
        ensures
            r == trigger_record_spec(),
    {
        R10BleDeviceTaskX4RuntimeSerialRecord {
            event: "ble_task",
            kind: "trigger",
            mode: "probe_only",
            source: "boot",
            lifecycle: "start_scan",
            command: "scan_start",
            outcome: "pending",
            reader: "reader_off",
            status: "ready",
        }
    }

    pub fn start_scan(&mut self) -> (r: R10BleDeviceTaskX4ProbeOnlyBridgeEvent)
        requires
            old(self).wf(),
        ensures
            r == stage_event(Stage::ScanStarted),
            old(self).recorded(Stage::ScanStarted, *final(self)),
            final(self).probe_state().report == old(self).probe_state().report,
            final(self).probe_state().runtime.handles == old(self).probe_state().runtime.handles,
            final(self).probe_state() == probe_after_scan_start(old(self).probe_state()),
    {
        self.probe.begin_scan();
        self.record_stage(Stage::ScanStarted)
    }

    /// An advertisement: the configured target is seen, or it is ignored.
    pub fn on_advertised_device(&mut self, device: R10BleAdvertisedDevice<'_>) -> (r: R10BleDeviceTaskX4ProbeOnlyBridgeEvent)
        requires
            old(self).wf(),
        ensures
            ({
                let hit = scan_decision_spec(old(self).probe_state().config.target, device) != R10BleScanDecision::Ignored;
                let s = if hit { Stage::TargetSeen } else { Stage::AdvertisementIgnored };
                &&& r == stage_event(s)
                &&& old(self).recorded(s, *final(self))
                &&& final(self).probe_state().report.scan_matched == (old(self).probe_state().report.scan_matched || hit)
            }),
            final(self).probe_state().runtime.handles == old(self).probe_state().runtime.handles,
            final(self).probe_state() == probe_after_advertisement(old(self).probe_state(), device),
    {
        let effect = self.probe.on_advertised_device(device);
        let stage = match effect {
            crate::r10_ble_transport::R10BleRuntimeEffect::Scan(decision) => if decision.is_match() {
                Stage::TargetSeen
            } else {
                Stage::AdvertisementIgnored
            },
            _ => Stage::AdvertisementIgnored,
        };
        self.record_stage(stage)
    }

    pub fn on_connected(&mut self) -> (r: R10BleDeviceTaskX4ProbeOnlyBridgeEvent)
        requires
            old(self).wf(),
        ensures
            r == stage_event(Stage::Connected),
            old(self).recorded(Stage::Connected, *final(self)),
            final(self).probe_state().report == (R10BleProbeReport { connected: true, ..old(self).probe_state().report }),
            final(self).probe_state().runtime.handles == old(self).probe_state().runtime.handles,
            final(self).probe_state() == probe_after_connected(old(self).probe_state()),
    {
        let _ = self.probe.on_connected();
        self.record_stage(Stage::Connected)
    }

    pub fn on_connect_failed(&mut self, now_ms: u64) -> (r: R10BleDeviceTaskX4ProbeOnlyBridgeEvent)
        requires
            old(self).wf(),
        ensures
            r == stage_event(Stage::ConnectFailed),
            old(self).recorded(Stage::ConnectFailed, *final(self)),
            !final(self).probe_state().report.connected,
            final(self).probe_state().runtime.handles == old(self).probe_state().runtime.handles,
            final(self).probe_state() == probe_after_connect_failed(old(self).probe_state(), now_ms),
    {
        let _ = self.probe.on_connect_failed(now_ms);
        self.record_stage(Stage::ConnectFailed)
    }

    /// Handles found by discovery: ready when they form the complete contract.
    pub fn on_discovered_handles(&mut self, handles: R10BleGattHandles) -> (r: R10BleDeviceTaskX4ProbeOnlyBridgeEvent)
        requires
            old(self).wf(),
        ensures
            ({
                let s = if handles_complete(handles) { Stage::GattReady } else { Stage::GattIncomplete };
                &&& r == stage_event(s)
                &&& old(self).recorded(s, *final(self))
            }),
            final(self).probe_state().runtime.handles == handles,
            final(self).probe_state().report.gatt_ready == handles_complete(handles),
            final(self).probe_state() == probe_after_discovery_complete(probe_with_handles(old(self).probe_state(), handles)),
    {
        self.probe.runtime.handles = handles;
        let _ = self.probe.on_discovery_complete();
        let stage = if handles.is_complete() {
            Stage::GattReady
        } else {
            Stage::GattIncomplete
        };
        self.record_stage(stage)
    }

    /// The live ring's GATT layout was found as validated.
    pub fn on_live_gatt_contract_discovered(&mut self) -> (r: R10BleDeviceTaskX4ProbeOnlyBridgeEvent)
        requires
            old(self).wf(),
        ensures
            r == stage_event(Stage::GattReady),
            old(self).recorded(Stage::GattReady, *final(self)),
            final(self).probe_state().runtime.handles == R10BleGattHandles::spec_new(
                R10_BLE_LIVE_SERVICE_START_HANDLE,
                R10_BLE_LIVE_SERVICE_END_HANDLE,
                R10_BLE_LIVE_WRITE_VALUE_HANDLE,
                R10_BLE_LIVE_NOTIFY_VALUE_HANDLE,
                R10_BLE_LIVE_NOTIFY_CCCD_HANDLE,
            ),
            final(self).probe_state().report == (R10BleProbeReport { gatt_ready: true, ..old(self).probe_state().report }),
            final(self).probe_state() == probe_after_discovery_complete(
                probe_with_handles(old(self).probe_state(), live_gatt_handles()),
            ),
    {
        let _ = self.probe.on_discovery_event(R10BleGattDiscoveryEvent::Service {
            start_handle: R10_BLE_LIVE_SERVICE_START_HANDLE,
            end_handle: R10_BLE_LIVE_SERVICE_END_HANDLE,
        });
        let _ = self.probe.on_discovery_event(R10BleGattDiscoveryEvent::WriteCharacteristic {
            value_handle: R10_BLE_LIVE_WRITE_VALUE_HANDLE,
        });
        let _ = self.probe.on_discovery_event(R10BleGattDiscoveryEvent::NotifyCharacteristic {
            value_handle: R10_BLE_LIVE_NOTIFY_VALUE_HANDLE,
        });
        let _ = self.probe.on_discovery_event(R10BleGattDiscoveryEvent::NotifyCccd {
            handle: R10_BLE_LIVE_NOTIFY_CCCD_HANDLE,
        });
        let _ = self.probe.on_discovery_complete();
        self.record_stage(Stage::GattReady)
    }

    fn on_write(&mut self, phase: R10BleWritePhase, success: bool, now_ms: u64, ok: Stage, failed: Stage) -> (r: R10BleDeviceTaskX4ProbeOnlyBridgeEvent)
        requires
            old(self).wf(),
        ensures
            ({
                let s = if success { ok } else { failed };
                &&& r == stage_event(s)
                &&& old(self).recorded(s, *final(self))
            }),
            final(self).probe_state().report == report_after_write(
                old(self).probe_state().report,
                if success { R10BleWriteResult::Success(phase) } else { R10BleWriteResult::Failed(phase) },
            ),
            final(self).probe_state().runtime.handles == old(self).probe_state().runtime.handles,
            final(self).probe_state() == probe_after_write(old(self).probe_state(), phase, success, now_ms),
    {
        let _ = self.probe.on_write_result(phase, success, now_ms);
        self.record_stage(if success { ok } else { failed })
    }

    pub fn on_subscribe_written(&mut self, success: bool, now_ms: u64) -> (r: R10BleDeviceTaskX4ProbeOnlyBridgeEvent)
        requires
            old(self).wf(),
        ensures
            ({
                let s = if success { Stage::Subscribed } else { Stage::SubscribeFailed };
                &&& r == stage_event(s)
                &&& old(self).recorded(s, *final(self))
            }),
            final(self).probe_state().report == report_after_write(
                old(self).probe_state().report,
                if success { R10BleWriteResult::Success(R10BleWritePhase::Subscribe) } else { R10BleWriteResult::Failed(R10BleWritePhase::Subscribe) },
            ),
            final(self).probe_state().runtime.handles == old(self).probe_state().runtime.handles,
            final(self).probe_state() == probe_after_write(old(self).probe_state(), R10BleWritePhase::Subscribe, success, now_ms),
    {
        self.on_write(R10BleWritePhase::Subscribe, success, now_ms, Stage::Subscribed, Stage::SubscribeFailed)
    }

    pub fn on_remote_start_written(&mut self, success: bool, now_ms: u64) -> (r: R10BleDeviceTaskX4ProbeOnlyBridgeEvent)
        requires
            old(self).wf(),
        ensures
            ({
                let s = if success { Stage::RemoteStarted } else { Stage::RemoteStartFailed };
                &&& r == stage_event(s)
                &&& old(self).recorded(s, *final(self))
            }),
            final(self).probe_state().report == report_after_write(
                old(self).probe_state().report,
                if success { R10BleWriteResult::Success(R10BleWritePhase::RemoteStart) } else { R10BleWriteResult::Failed(R10BleWritePhase::RemoteStart) },
            ),
            final(self).probe_state().runtime.handles == old(self).probe_state().runtime.handles,
            final(self).probe_state() == probe_after_write(old(self).probe_state(), R10BleWritePhase::RemoteStart, success, now_ms),
    {
        self.on_write(R10BleWritePhase::RemoteStart, success, now_ms, Stage::RemoteStarted, Stage::RemoteStartFailed)
    }

    pub fn on_poll_written(&mut self, success: bool, now_ms: u64) -> (r: R10BleDeviceTaskX4ProbeOnlyBridgeEvent)
        requires
            old(self).wf(),
        ensures
            ({
                let s = if success { Stage::PollWritten } else { Stage::PollFailed };
                &&& r == stage_event(s)
                &&& old(self).recorded(s, *final(self))
            }),
            final(self).probe_state().report == report_after_write(
                old(self).probe_state().report,
                if success { R10BleWriteResult::Success(R10BleWritePhase::Poll) } else { R10BleWriteResult::Failed(R10BleWritePhase::Poll) },
            ),
            final(self).probe_state().runtime.handles == old(self).probe_state().runtime.handles,
            final(self).probe_state() == probe_after_write(old(self).probe_state(), R10BleWritePhase::Poll, success, now_ms),
    {
        self.on_write(R10BleWritePhase::Poll, success, now_ms, Stage::PollWritten, Stage::PollFailed)
    }

    /// A notify is filed in the report; a packet that passed every check is
    /// received, anything else ignored. It is never turned into Reader input.
    pub fn on_notify(&mut self, handle: u16, payload: &[u8], now_ms: u64) -> (r: R10BleDeviceTaskX4ProbeOnlyBridgeEvent)
        requires
            old(self).wf(),
        ensures
            ({
                let k = classify_notify_spec(old(self).probe_state().runtime.handles, handle, payload@);
                let s = if notify_kind_valid(k) { Stage::NotifyReceived } else { Stage::NotifyIgnored };
                &&& r == stage_event(s)
                &&& old(self).recorded(s, *final(self))
                &&& final(self).probe_state().report == report_after_notify(old(self).probe_state().report, k)
            }),
            final(self).probe_state().runtime.handles == old(self).probe_state().runtime.handles,
            probe_notified(old(self).probe_state(), handle, payload@, now_ms, final(self).probe_state()),
    {
        let kind = classify_notify(&self.probe.runtime.handles, handle, payload);
        let _ = self.probe.on_notify(handle, payload, now_ms);
        let stage = match kind {
            R10BleProbeNotifyKind::NoEvent | R10BleProbeNotifyKind::Motion
            | R10BleProbeNotifyKind::VendorStatus7301 | R10BleProbeNotifyKind::UnknownValid => {
                Stage::NotifyReceived
            },
            _ => Stage::NotifyIgnored,
        };
        self.record_stage(stage)
    }

    pub fn on_timeout(&mut self) -> (r: R10BleDeviceTaskX4ProbeOnlyBridgeEvent)
        requires
            old(self).wf(),
        ensures
            r == stage_event(Stage::TimedOut),
            old(self).recorded(Stage::TimedOut, *final(self)),
            final(self).probe_state() == old(self).probe_state(),
    {
        self.record_stage(Stage::TimedOut)
    }
}

pub open spec fn profile_record_spec() -> R10BleDeviceTaskX4RuntimeSerialRecord {
    R10BleDeviceTaskX4RuntimeSerialRecord {
        event: "ble_task",
        kind: "profile",
        mode: "probe_only",
        source: "deploy_script",
        lifecycle: "none",
        command: "none",
        outcome: "ready",
        reader: "reader_off",
        status: "ready",
    }
}

pub open spec fn trigger_record_spec() -> R10BleDeviceTaskX4RuntimeSerialRecord {
    R10BleDeviceTaskX4RuntimeSerialRecord {
        event: "ble_task",
        kind: "trigger",
        mode: "probe_only",
        source: "boot",
        lifecycle: "start_scan",
        command: "scan_start",
        outcome: "pending",
        reader: "reader_off",
        status: "ready",
    }
}

/// The ProbeOnly bridge keeps Reader input off: every event it reports, for
/// every stage, has Reader input disabled and a `reader_off` record.
pub proof fn lemma_bridge_reader_off(s: Stage)
    ensures
        !stage_event(s).reader_input_enabled,
        stage_event(s).record matches Some(rec) && rec.reader == "reader_off",
{
}

} // verus!
