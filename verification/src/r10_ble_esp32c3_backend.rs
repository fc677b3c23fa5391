//! The ESP32-C3 ProbeOnly backend task: the controller that the radio and
//! host-stack callbacks feed. It owns the ProbeOnly bridge, keeps Reader
//! input disabled, and turns each callback into a backend state and a
//! monitor-safe serial record.
use vstd::prelude::*;
use crate::r10_ble_device_task_x4::{
    R10BleDeviceTaskX4ProbeOnlyBleBridge, R10BleDeviceTaskX4ProbeOnlyBridgeEvent,
    R10BleDeviceTaskX4ProbeOnlyBridgeStage as Stage, R10BleDeviceTaskX4RuntimeSerialRecord,
    live_gatt_handles, notify_kind_valid, record_safe, stage_event, trigger_record_spec,
};
use crate::r10_ble_probe::{
    R10BleOnDeviceProbe, classify_notify_spec, live_r10_config, probe_after_advertisement,
    probe_after_connect_failed, probe_after_connected, probe_after_discovery_complete,
    probe_after_scan_start, probe_after_write, probe_fresh, probe_notified, probe_with_handles,
};
use crate::r10_ble_transport::{
    R10BleAdvertisedDevice, R10BleGattHandles, R10BleScanDecision, R10BleWritePhase,
    R10_BLE_DEFAULT_ADVERTISED_NAME, R10_BLE_DEFAULT_TARGET_ADDRESS,
    handles_complete, scan_decision_spec,
};

verus! {

#[derive(Clone, Copy, Debug, PartialEq, Eq, Structural)]
pub enum R10BleEsp32c3ProbeBackendStep {
    InitRadio,
    BuildController,
    BuildHostStack,
    StartScan,
    ConnectMatched,
    DiscoverGatt,
    SubscribeNotify,
    WriteRemoteStart,
    PollAndNotify,
}

pub open spec fn backend_step_label(s: R10BleEsp32c3ProbeBackendStep) -> &'static str {
    match s {
        R10BleEsp32c3ProbeBackendStep::InitRadio => "init_radio",
        R10BleEsp32c3ProbeBackendStep::BuildController => "build_controller",
        R10BleEsp32c3ProbeBackendStep::BuildHostStack => "build_host_stack",
        R10BleEsp32c3ProbeBackendStep::StartScan => "start_scan",
        R10BleEsp32c3ProbeBackendStep::ConnectMatched => "connect_matched",
        R10BleEsp32c3ProbeBackendStep::DiscoverGatt => "discover_gatt",
        R10BleEsp32c3ProbeBackendStep::SubscribeNotify => "subscribe_notify",
        R10BleEsp32c3ProbeBackendStep::WriteRemoteStart => "write_remote_start",
        R10BleEsp32c3ProbeBackendStep::PollAndNotify => "poll_and_notify",
    }
}

impl R10BleEsp32c3ProbeBackendStep {
    pub fn as_str(&self) -> (r: &'static str)
        ensures
            r == backend_step_label(*self),
    {
        match self {
            Self::InitRadio => "init_radio",
            Self::BuildController => "build_controller",
            Self::BuildHostStack => "build_host_stack",
            Self::StartScan => "start_scan",
            Self::ConnectMatched => "connect_matched",
            Self::DiscoverGatt => "discover_gatt",
            Self::SubscribeNotify => "subscribe_notify",
            Self::WriteRemoteStart => "write_remote_start",
            Self::PollAndNotify => "poll_and_notify",
        }
    }
}

pub const R10_BLE_ESP32C3_PROBE_BACKEND_PLAN: [R10BleEsp32c3ProbeBackendStep; 9] = [
    R10BleEsp32c3ProbeBackendStep::InitRadio,
    R10BleEsp32c3ProbeBackendStep::BuildController,
    R10BleEsp32c3ProbeBackendStep::BuildHostStack,
    R10BleEsp32c3ProbeBackendStep::StartScan,
    R10BleEsp32c3ProbeBackendStep::ConnectMatched,
    R10BleEsp32c3ProbeBackendStep::DiscoverGatt,
    R10BleEsp32c3ProbeBackendStep::SubscribeNotify,
    R10BleEsp32c3ProbeBackendStep::WriteRemoteStart,
    R10BleEsp32c3ProbeBackendStep::PollAndNotify,
];

/// The backend bring-up plan, radio first, polling last.
pub open spec fn backend_plan() -> Seq<R10BleEsp32c3ProbeBackendStep> {
    seq![
        R10BleEsp32c3ProbeBackendStep::InitRadio,
        R10BleEsp32c3ProbeBackendStep::BuildController,
        R10BleEsp32c3ProbeBackendStep::BuildHostStack,
        R10BleEsp32c3ProbeBackendStep::StartScan,
        R10BleEsp32c3ProbeBackendStep::ConnectMatched,
        R10BleEsp32c3ProbeBackendStep::DiscoverGatt,
        R10BleEsp32c3ProbeBackendStep::SubscribeNotify,
        R10BleEsp32c3ProbeBackendStep::WriteRemoteStart,
        R10BleEsp32c3ProbeBackendStep::PollAndNotify,
    ]
}

/// The names the host build gives the BLE stack boundary types.
pub fn r10_ble_esp32c3_probe_backend_type_boundary() -> (r: (&'static str, &'static str, &'static str))
    ensures
        r == ("host_test_r10_ble_controller_boundary", "host_test_r10_ble_host_resources_boundary", "host_test_r10_ble_stack_boundary"),
{
    (
        "host_test_r10_ble_controller_boundary",
        "host_test_r10_ble_host_resources_boundary",
        "host_test_r10_ble_stack_boundary",
    )
}

pub fn r10_ble_esp32c3_probe_backend_plan() -> (r: &'static [R10BleEsp32c3ProbeBackendStep])
    ensures
        r@ == backend_plan(),
{
    let plan: &'static [R10BleEsp32c3ProbeBackendStep] = R10_BLE_ESP32C3_PROBE_BACKEND_PLAN.as_slice();
    assert(plan@ =~= backend_plan());
    plan
}

#[derive(Clone, Copy, Debug, PartialEq, Eq, Structural)]
pub enum R10BleEsp32c3ProbeBackendState {
    Created,
    AdapterReady,
    Scanning,
    Connecting,
    Discovering,
    Subscribing,
    StartingRemote,
    Polling,
    Notified,
    Backoff,
    Completed,
}

pub open spec fn backend_state_label(s: R10BleEsp32c3ProbeBackendState) -> &'static str {
    match s {
        R10BleEsp32c3ProbeBackendState::Created => "created",
        R10BleEsp32c3ProbeBackendState::AdapterReady => "adapter_ready",
        R10BleEsp32c3ProbeBackendState::Scanning => "scanning",
        R10BleEsp32c3ProbeBackendState::Connecting => "connecting",
        R10BleEsp32c3ProbeBackendState::Discovering => "discovering",
        R10BleEsp32c3ProbeBackendState::Subscribing => "subscribing",
        R10BleEsp32c3ProbeBackendState::StartingRemote => "starting_remote",
        R10BleEsp32c3ProbeBackendState::Polling => "polling",
        R10BleEsp32c3ProbeBackendState::Notified => "notified",
        R10BleEsp32c3ProbeBackendState::Backoff => "backoff",
        R10BleEsp32c3ProbeBackendState::Completed => "completed",
    }
}

/// The backend is terminal once it backed off or completed.
pub open spec fn backend_state_terminal(s: R10BleEsp32c3ProbeBackendState) -> bool {
    s == R10BleEsp32c3ProbeBackendState::Backoff || s == R10BleEsp32c3ProbeBackendState::Completed
}

/// The backend is active between adapter readiness and a notify.
pub open spec fn backend_state_active(s: R10BleEsp32c3ProbeBackendState) -> bool {
    !backend_state_terminal(s) && s != R10BleEsp32c3ProbeBackendState::Created
}

impl R10BleEsp32c3ProbeBackendState {
    pub fn as_str(&self) -> (r: &'static str)
        ensures
            r == backend_state_label(*self),
    {
        match self {
            Self::Created => "created",
            Self::AdapterReady => "adapter_ready",
            Self::Scanning => "scanning",
            Self::Connecting => "connecting",
            Self::Discovering => "discovering",
            Self::Subscribing => "subscribing",
            Self::StartingRemote => "starting_remote",
            Self::Polling => "polling",
            Self::Notified => "notified",
            Self::Backoff => "backoff",
            Self::Completed => "completed",
        }
    }

    pub fn is_active(&self) -> (r: bool)
        ensures
            r == backend_state_active(*self),
    {
        match self {
            Self::AdapterReady | Self::Scanning | Self::Connecting | Self::Discovering
            | Self::Subscribing | Self::StartingRemote | Self::Polling | Self::Notified => true,
            _ => false,
        }
    }

    pub fn is_terminal(&self) -> (r: bool)
        ensures
            r == backend_state_terminal(*self),
    {
        match self {
            Self::Backoff | Self::Completed => true,
            _ => false,
        }
    }
}

#[derive(Clone, Copy, Debug, PartialEq, Eq)]
pub enum R10BleEsp32c3ProbeBackendEvent<'a> {
    Start,
    AdapterReady,
    ScanStarted,
    Advertisement { address: Option<&'a str>, name: Option<&'a str> },
    ConnectOk,
    ConnectFailed { now_ms: u64 },
    GattHandles { handles: R10BleGattHandles },
    LiveGattContract,
    SubscribeWritten { success: bool, now_ms: u64 },
    RemoteStartWritten { success: bool, now_ms: u64 },
    PollWritten { success: bool, now_ms: u64 },
    Notify { handle: u16, payload: &'a [u8], now_ms: u64 },
    Timeout,
    Complete,
}

pub open spec fn backend_event_label(e: R10BleEsp32c3ProbeBackendEvent) -> &'static str {
    match e {
        R10BleEsp32c3ProbeBackendEvent::Start => "start",
        R10BleEsp32c3ProbeBackendEvent::AdapterReady => "adapter_ready",
        R10BleEsp32c3ProbeBackendEvent::ScanStarted => "scan_started",
        R10BleEsp32c3ProbeBackendEvent::Advertisement { .. } => "advertisement",
        R10BleEsp32c3ProbeBackendEvent::ConnectOk => "connect_ok",
        R10BleEsp32c3ProbeBackendEvent::ConnectFailed { .. } => "connect_failed",
        R10BleEsp32c3ProbeBackendEvent::GattHandles { .. } => "gatt_handles",
        R10BleEsp32c3ProbeBackendEvent::LiveGattContract => "live_gatt_contract",
        R10BleEsp32c3ProbeBackendEvent::SubscribeWritten { .. } => "subscribe_written",
        R10BleEsp32c3ProbeBackendEvent::RemoteStartWritten { .. } => "remote_start_written",
        R10BleEsp32c3ProbeBackendEvent::PollWritten { .. } => "poll_written",
        R10BleEsp32c3ProbeBackendEvent::Notify { .. } => "notify",
        R10BleEsp32c3ProbeBackendEvent::Timeout => "timeout",
        R10BleEsp32c3ProbeBackendEvent::Complete => "complete",
    }
}

impl<'a> R10BleEsp32c3ProbeBackendEvent<'a> {
    pub fn as_str(&self) -> (r: &'static str)
        ensures
            r == backend_event_label(*self),
    {
        match self {
            Self::Start => "start",
            Self::AdapterReady => "adapter_ready",
            Self::ScanStarted => "scan_started",
            Self::Advertisement { .. } => "advertisement",
            Self::ConnectOk => "connect_ok",
            Self::ConnectFailed { .. } => "connect_failed",
            Self::GattHandles { .. } => "gatt_handles",
            Self::LiveGattContract => "live_gatt_contract",
            Self::SubscribeWritten { .. } => "subscribe_written",
            Self::RemoteStartWritten { .. } => "remote_start_written",
            Self::PollWritten { .. } => "poll_written",
            Self::Notify { .. } => "notify",
            Self::Timeout => "timeout",
            Self::Complete => "complete",
        }
    }
}

#[derive(Clone, Copy, Debug, PartialEq, Eq)]
pub struct R10BleEsp32c3ProbeBackendOutput {
    pub state: R10BleEsp32c3ProbeBackendState,
    pub bridge_event: Option<R10BleDeviceTaskX4ProbeOnlyBridgeEvent>,
    pub record: Option<R10BleDeviceTaskX4RuntimeSerialRecord>,
    pub reader_input_enabled: bool,
}

/// An output that carries nothing but the state.
pub open spec fn empty_output(state: R10BleEsp32c3ProbeBackendState) -> R10BleEsp32c3ProbeBackendOutput {
    R10BleEsp32c3ProbeBackendOutput { state, bridge_event: None, record: None, reader_input_enabled: false }
}

/// An output that forwards a bridge event and its record.
pub open spec fn bridge_output(
    state: R10BleEsp32c3ProbeBackendState,
    event: R10BleDeviceTaskX4ProbeOnlyBridgeEvent,
) -> R10BleEsp32c3ProbeBackendOutput {
    R10BleEsp32c3ProbeBackendOutput { state, bridge_event: Some(event), record: event.record, reader_input_enabled: false }
}

/// An output for a bridge stage.
pub open spec fn stage_output(state: R10BleEsp32c3ProbeBackendState, s: Stage) -> R10BleEsp32c3ProbeBackendOutput {
    bridge_output(state, stage_event(s))
}

impl R10BleEsp32c3ProbeBackendOutput {
    pub fn empty(state: R10BleEsp32c3ProbeBackendState) -> (r: Self)
        ensures
            r == empty_output(state),
    {
        Self { state, bridge_event: None, record: None, reader_input_enabled: false }
    }

    pub fn from_bridge_event(
        state: R10BleEsp32c3ProbeBackendState,
        event: R10BleDeviceTaskX4ProbeOnlyBridgeEvent,
    ) -> (r: Self)
        ensures
            r == bridge_output(state, event),
    {
        Self { state, bridge_event: Some(event), record: event.record, reader_input_enabled: false }
    }

    pub fn is_monitor_safe(&self) -> (r: bool)
        ensures
            r == ((match self.bridge_event {
                Some(e) => match e.record {
                    Some(rec) => record_safe(rec),
                    None => true,
                },
                None => true,
            }) && (match self.record {
                Some(rec) => record_safe(rec),
                None => true,
            })),
    {
        let event_safe = match self.bridge_event {
            Some(event) => event.is_monitor_safe(),
            None => true,
        };
        let record_ok = match self.record {
            Some(record) => record.is_monitor_safe(),
            None => true,
        };
        event_safe && record_ok
    }
}

/// The bridge stage an event is recorded as, for a bridge whose probe is
/// `p`; the adapter start, readiness and completion do not reach the bridge.
pub open spec fn event_stage(p: R10BleOnDeviceProbe, e: R10BleEsp32c3ProbeBackendEvent) -> Option<Stage> {
    match e {
        R10BleEsp32c3ProbeBackendEvent::Start | R10BleEsp32c3ProbeBackendEvent::AdapterReady
        | R10BleEsp32c3ProbeBackendEvent::Complete => None,
        R10BleEsp32c3ProbeBackendEvent::ScanStarted => Some(Stage::ScanStarted),
        R10BleEsp32c3ProbeBackendEvent::Advertisement { address, name } => Some(
            if scan_decision_spec(p.config.target, R10BleAdvertisedDevice { address, name }) != R10BleScanDecision::Ignored {
                Stage::TargetSeen
            } else {
                Stage::AdvertisementIgnored
            },
        ),
        R10BleEsp32c3ProbeBackendEvent::ConnectOk => Some(Stage::Connected),
        R10BleEsp32c3ProbeBackendEvent::ConnectFailed { .. } => Some(Stage::ConnectFailed),
        R10BleEsp32c3ProbeBackendEvent::GattHandles { handles } => Some(
            if handles_complete(handles) { Stage::GattReady } else { Stage::GattIncomplete },
        ),
        R10BleEsp32c3ProbeBackendEvent::LiveGattContract => Some(Stage::GattReady),
        R10BleEsp32c3ProbeBackendEvent::SubscribeWritten { success, .. } => Some(
            if success { Stage::Subscribed } else { Stage::SubscribeFailed },
        ),
        R10BleEsp32c3ProbeBackendEvent::RemoteStartWritten { success, .. } => Some(
            if success { Stage::RemoteStarted } else { Stage::RemoteStartFailed },
        ),
        R10BleEsp32c3ProbeBackendEvent::PollWritten { success, .. } => Some(
            if success { Stage::PollWritten } else { Stage::PollFailed },
        ),
        R10BleEsp32c3ProbeBackendEvent::Notify { handle, payload, .. } => Some(
            if notify_kind_valid(classify_notify_spec(p.runtime.handles, handle, payload@)) {
                Stage::NotifyReceived
            } else {
                Stage::NotifyIgnored
            },
        ),
        R10BleEsp32c3ProbeBackendEvent::Timeout => Some(Stage::TimedOut),
    }
}

/// The backend state after an event, for a bridge whose probe is `p`.
pub open spec fn event_state(p: R10BleOnDeviceProbe, e: R10BleEsp32c3ProbeBackendEvent) -> R10BleEsp32c3ProbeBackendState {
    match e {
        R10BleEsp32c3ProbeBackendEvent::Start | R10BleEsp32c3ProbeBackendEvent::AdapterReady => {
            R10BleEsp32c3ProbeBackendState::AdapterReady
        },
        R10BleEsp32c3ProbeBackendEvent::ScanStarted => R10BleEsp32c3ProbeBackendState::Scanning,
        R10BleEsp32c3ProbeBackendEvent::Advertisement { .. } => if event_stage(p, e) == Some(Stage::TargetSeen) {
            R10BleEsp32c3ProbeBackendState::Connecting
        } else {
            R10BleEsp32c3ProbeBackendState::Scanning
        },
        R10BleEsp32c3ProbeBackendEvent::ConnectOk => R10BleEsp32c3ProbeBackendState::Discovering,
        R10BleEsp32c3ProbeBackendEvent::GattHandles { handles } => if handles_complete(handles) {
            R10BleEsp32c3ProbeBackendState::Subscribing
        } else {
            R10BleEsp32c3ProbeBackendState::Backoff
        },
        R10BleEsp32c3ProbeBackendEvent::LiveGattContract => R10BleEsp32c3ProbeBackendState::Subscribing,
        R10BleEsp32c3ProbeBackendEvent::SubscribeWritten { success, .. } => if success {
            R10BleEsp32c3ProbeBackendState::StartingRemote
        } else {
            R10BleEsp32c3ProbeBackendState::Backoff
        },
        R10BleEsp32c3ProbeBackendEvent::RemoteStartWritten { success, .. }
        | R10BleEsp32c3ProbeBackendEvent::PollWritten { success, .. } => if success {
            R10BleEsp32c3ProbeBackendState::Polling
        } else {
            R10BleEsp32c3ProbeBackendState::Backoff
        },
        R10BleEsp32c3ProbeBackendEvent::Notify { .. } => R10BleEsp32c3ProbeBackendState::Notified,
        R10BleEsp32c3ProbeBackendEvent::ConnectFailed { .. } | R10BleEsp32c3ProbeBackendEvent::Timeout => {
            R10BleEsp32c3ProbeBackendState::Backoff
        },
        R10BleEsp32c3ProbeBackendEvent::Complete => R10BleEsp32c3ProbeBackendState::Completed,
    }
}

/// What the backend answers an event with: the start trigger's record at
/// adapter start, the bridge stage's event where the bridge is reached, and
/// the bare state otherwise.
pub open spec fn event_output(p: R10BleOnDeviceProbe, e: R10BleEsp32c3ProbeBackendEvent) -> R10BleEsp32c3ProbeBackendOutput {
    if e is Start {
        R10BleEsp32c3ProbeBackendOutput {
            state: R10BleEsp32c3ProbeBackendState::AdapterReady,
            bridge_event: None,
            record: Some(trigger_record_spec()),
            reader_input_enabled: false,
        }
    } else {
        match event_stage(p, e) {
            Some(s) => stage_output(event_state(p, e), s),
            None => empty_output(event_state(p, e)),
        }
    }
}

/// `next` is the probe `p` after the event reached the bridge.
pub open spec fn event_probe(p: R10BleOnDeviceProbe, e: R10BleEsp32c3ProbeBackendEvent, next: R10BleOnDeviceProbe) -> bool {
    match e {
        R10BleEsp32c3ProbeBackendEvent::ScanStarted => next == probe_after_scan_start(p),
        R10BleEsp32c3ProbeBackendEvent::Advertisement { address, name } => {
            next == probe_after_advertisement(p, R10BleAdvertisedDevice { address, name })
        },
        R10BleEsp32c3ProbeBackendEvent::ConnectOk => next == probe_after_connected(p),
        R10BleEsp32c3ProbeBackendEvent::ConnectFailed { now_ms } => next == probe_after_connect_failed(p, now_ms),
        R10BleEsp32c3ProbeBackendEvent::GattHandles { handles } => {
            next == probe_after_discovery_complete(probe_with_handles(p, handles))
        },
        R10BleEsp32c3ProbeBackendEvent::LiveGattContract => {
            next == probe_after_discovery_complete(probe_with_handles(p, live_gatt_handles()))
        },
        R10BleEsp32c3ProbeBackendEvent::SubscribeWritten { success, now_ms } => {
            next == probe_after_write(p, R10BleWritePhase::Subscribe, success, now_ms)
        },
        R10BleEsp32c3ProbeBackendEvent::RemoteStartWritten { success, now_ms } => {
            next == probe_after_write(p, R10BleWritePhase::RemoteStart, success, now_ms)
        },
        R10BleEsp32c3ProbeBackendEvent::PollWritten { success, now_ms } => {
            next == probe_after_write(p, R10BleWritePhase::Poll, success, now_ms)
        },
        R10BleEsp32c3ProbeBackendEvent::Notify { handle, payload, now_ms } => {
            probe_notified(p, handle, payload@, now_ms, next)
        },
        _ => next == p,
    }
}

#[derive(Clone, Debug, PartialEq, Eq)]
pub struct R10BleEsp32c3ProbeBackendTask<const N: usize> {
    bridge: R10BleDeviceTaskX4ProbeOnlyBleBridge<N>,
    state: R10BleEsp32c3ProbeBackendState,
    last_record: Option<R10BleDeviceTaskX4RuntimeSerialRecord>,
}

impl<const N: usize> R10BleEsp32c3ProbeBackendTask<N> {
    pub closed spec fn wf(&self) -> bool {
        self.bridge.wf()
    }

    /// The bridge the backend drives.
    pub closed spec fn bridge_spec(&self) -> R10BleDeviceTaskX4ProbeOnlyBleBridge<N> {
        self.bridge
    }

    pub closed spec fn state_spec(&self) -> R10BleEsp32c3ProbeBackendState {
        self.state
    }

    pub closed spec fn last_record_spec(&self) -> Option<R10BleDeviceTaskX4RuntimeSerialRecord> {
        self.last_record
    }

    pub fn new() -> (r: Self)
        ensures
            r.wf(),
            r.state_spec() == R10BleEsp32c3ProbeBackendState::Created,
            r.last_record_spec() is None,
            r.bridge_spec().stages().len() == 0,
            r.bridge_spec().dropped_count() == 0,
            crate::r10_ble_probe::report_empty(r.bridge_spec().probe_state().report),
            probe_fresh(r.bridge_spec().probe_state(), r.bridge_spec().probe_state().config),
            live_r10_config(r.bridge_spec().probe_state().config),
    {
        Self {
            bridge: R10BleDeviceTaskX4ProbeOnlyBleBridge::new(),
            state: R10BleEsp32c3ProbeBackendState::Created,
            last_record: None,
        }
    }

    pub fn state(&self) -> (r: R10BleEsp32c3ProbeBackendState)
        ensures
            r == self.state_spec(),
    {
        self.state
    }

    /// The backend never hands ring input to the Reader.
    pub fn is_reader_input_enabled(&self) -> (r: bool)
        ensures
            !r,
    {
        false
    }

    pub fn bridge(&self) -> (r: &R10BleDeviceTaskX4ProbeOnlyBleBridge<N>)
        ensures
            *r == self.bridge_spec(),
    {
        &self.bridge
    }

    pub fn last_record(&self) -> (r: Option<R10BleDeviceTaskX4RuntimeSerialRecord>)
        ensures
            r == self.last_record_spec(),
    {
        self.last_record
    }

    pub fn profile_record(&self) -> (r: R10BleDeviceTaskX4RuntimeSerialRecord)
        ensures
            r == crate::r10_ble_device_task_x4::profile_record_spec(),
    {
        self.bridge.profile_record()
    }

    pub fn trigger_record(&self) -> (r: R10BleDeviceTaskX4RuntimeSerialRecord)
        ensures
            r == trigger_record_spec(),
    {
        self.bridge.trigger_record()
    }

    /// `next` is this backend after `event`: it takes the event's state,
    /// keeps the event's record as the last one, and its bridge either stays
    /// as it was (the events that do not reach the bridge) or records the
    /// event's stage with the probe moved as the event says.
    pub open spec fn handled(&self, event: R10BleEsp32c3ProbeBackendEvent, next: Self) -> bool {
        let p = self.bridge_spec().probe_state();
        let out = event_output(p, event);
        &&& next.wf()
        &&& next.state_spec() == out.state
        &&& next.last_record_spec() == out.record
        &&& match event_stage(p, event) {
            Some(s) => {
                &&& self.bridge_spec().recorded(s, next.bridge_spec())
                &&& event_probe(p, event, next.bridge_spec().probe_state())
            },
            None => next.bridge_spec() == self.bridge_spec(),
        }
    }

    /// Feeds one backend callback through the bridge: the output carries the
    /// new backend state, the bridge event and its record, with Reader input
    /// off; the record is kept as the last one.
    pub fn handle_event<'a>(&mut self, event: R10BleEsp32c3ProbeBackendEvent<'a>) -> (r: R10BleEsp32c3ProbeBackendOutput)
        requires
            old(self).wf(),
        ensures
            final(self).wf(),
            r == event_output(old(self).bridge_spec().probe_state(), event),
            old(self).handled(event, *final(self)),
            final(self).state_spec() == r.state,
            final(self).last_record_spec() == r.record,
            !r.reader_input_enabled,
    {
        let output = match event {
            R10BleEsp32c3ProbeBackendEvent::Start => {
                self.state = R10BleEsp32c3ProbeBackendState::AdapterReady;
                R10BleEsp32c3ProbeBackendOutput {
                    state: self.state,
                    bridge_event: None,
                    record: Some(self.trigger_record()),
                    reader_input_enabled: false,
                }
            },
            R10BleEsp32c3ProbeBackendEvent::AdapterReady => {
                self.state = R10BleEsp32c3ProbeBackendState::AdapterReady;
                R10BleEsp32c3ProbeBackendOutput::empty(self.state)
            },
            R10BleEsp32c3ProbeBackendEvent::ScanStarted => {
                self.state = R10BleEsp32c3ProbeBackendState::Scanning;
                let bridge_event = self.bridge.start_scan();
                R10BleEsp32c3ProbeBackendOutput::from_bridge_event(self.state, bridge_event)
            },
            R10BleEsp32c3ProbeBackendEvent::Advertisement { address, name } => {
                let bridge_event = self.bridge.on_advertised_device(R10BleAdvertisedDevice { address, name });
                self.state = if bridge_event.stage == Stage::TargetSeen {
                    R10BleEsp32c3ProbeBackendState::Connecting
                } else {
                    R10BleEsp32c3ProbeBackendState::Scanning
                };
                R10BleEsp32c3ProbeBackendOutput::from_bridge_event(self.state, bridge_event)
            },
            R10BleEsp32c3ProbeBackendEvent::ConnectOk => {
                self.state = R10BleEsp32c3ProbeBackendState::Discovering;
                let bridge_event = self.bridge.on_connected();
                R10BleEsp32c3ProbeBackendOutput::from_bridge_event(self.state, bridge_event)
            },
            R10BleEsp32c3ProbeBackendEvent::ConnectFailed { now_ms } => {
                self.state = R10BleEsp32c3ProbeBackendState::Backoff;
                let bridge_event = self.bridge.on_connect_failed(now_ms);
                R10BleEsp32c3ProbeBackendOutput::from_bridge_event(self.state, bridge_event)
            },
            R10BleEsp32c3ProbeBackendEvent::GattHandles { handles } => {
                let bridge_event = self.bridge.on_discovered_handles(handles);
                self.state = if bridge_event.stage == Stage::GattReady {
                    R10BleEsp32c3ProbeBackendState::Subscribing
                } else {
                    R10BleEsp32c3ProbeBackendState::Backoff
                };
                R10BleEsp32c3ProbeBackendOutput::from_bridge_event(self.state, bridge_event)
            },
            R10BleEsp32c3ProbeBackendEvent::LiveGattContract => {
                let bridge_event = self.bridge.on_live_gatt_contract_discovered();
                self.state = R10BleEsp32c3ProbeBackendState::Subscribing;
                R10BleEsp32c3ProbeBackendOutput::from_bridge_event(self.state, bridge_event)
            },
            R10BleEsp32c3ProbeBackendEvent::SubscribeWritten { success, now_ms } => {
                let bridge_event = self.bridge.on_subscribe_written(success, now_ms);
                self.state = if success {
                    R10BleEsp32c3ProbeBackendState::StartingRemote
                } else {
                    R10BleEsp32c3ProbeBackendState::Backoff
                };
                R10BleEsp32c3ProbeBackendOutput::from_bridge_event(self.state, bridge_event)
            },
            R10BleEsp32c3ProbeBackendEvent::RemoteStartWritten { success, now_ms } => {
                let bridge_event = self.bridge.on_remote_start_written(success, now_ms);
                self.state = if success {
                    R10BleEsp32c3ProbeBackendState::Polling
                } else {
                    R10BleEsp32c3ProbeBackendState::Backoff
                };
                R10BleEsp32c3ProbeBackendOutput::from_bridge_event(self.state, bridge_event)
            },
            R10BleEsp32c3ProbeBackendEvent::PollWritten { success, now_ms } => {
                let bridge_event = self.bridge.on_poll_written(success, now_ms);
                self.state = if success {
                    R10BleEsp32c3ProbeBackendState::Polling
                } else {
                    R10BleEsp32c3ProbeBackendState::Backoff
                };
                R10BleEsp32c3ProbeBackendOutput::from_bridge_event(self.state, bridge_event)
            },
            R10BleEsp32c3ProbeBackendEvent::Notify { handle, payload, now_ms } => {
                let bridge_event = self.bridge.on_notify(handle, payload, now_ms);
                self.state = R10BleEsp32c3ProbeBackendState::Notified;
                R10BleEsp32c3ProbeBackendOutput::from_bridge_event(self.state, bridge_event)
            },
            R10BleEsp32c3ProbeBackendEvent::Timeout => {
                self.state = R10BleEsp32c3ProbeBackendState::Backoff;
                let bridge_event = self.bridge.on_timeout();
                R10BleEsp32c3ProbeBackendOutput::from_bridge_event(self.state, bridge_event)
            },
            R10BleEsp32c3ProbeBackendEvent::Complete => {
                self.state = R10BleEsp32c3ProbeBackendState::Completed;
                R10BleEsp32c3ProbeBackendOutput::empty(self.state)
            },
        };
        self.last_record = output.record;
        output
    }

    pub fn on_scan_started(&mut self) -> (r: R10BleEsp32c3ProbeBackendOutput)
        requires
            old(self).wf(),
        ensures
            final(self).wf(),
            r == stage_output(R10BleEsp32c3ProbeBackendState::Scanning, Stage::ScanStarted),
            final(self).state_spec() == R10BleEsp32c3ProbeBackendState::Scanning,
            final(self).last_record_spec() == r.record,
            old(self).bridge_spec().recorded(Stage::ScanStarted, final(self).bridge_spec()),
            old(self).handled(R10BleEsp32c3ProbeBackendEvent::ScanStarted, *final(self)),
            final(self).bridge_spec().probe_state() == probe_after_scan_start(old(self).bridge_spec().probe_state()),
    {
        self.handle_event(R10BleEsp32c3ProbeBackendEvent::ScanStarted)
    }

    /// An advertisement with the live ring's default address and name.
    pub fn on_default_r10_advertisement(&mut self) -> (r: R10BleEsp32c3ProbeBackendOutput)
        requires
            old(self).wf(),
        ensures
            final(self).wf(),
            ({
                let device = R10BleAdvertisedDevice {
                    address: Some(R10_BLE_DEFAULT_TARGET_ADDRESS),
                    name: Some(R10_BLE_DEFAULT_ADVERTISED_NAME),
                };
                let hit = scan_decision_spec(old(self).bridge_spec().probe_state().config.target, device)
                    != R10BleScanDecision::Ignored;
                let s = if hit { Stage::TargetSeen } else { Stage::AdvertisementIgnored };
                let st = if hit {
                    R10BleEsp32c3ProbeBackendState::Connecting
                } else {
                    R10BleEsp32c3ProbeBackendState::Scanning
                };
                &&& r == stage_output(st, s)
                &&& old(self).bridge_spec().recorded(s, final(self).bridge_spec())
            }),
            final(self).state_spec() == r.state,
            final(self).last_record_spec() == r.record,
            old(self).handled(
                R10BleEsp32c3ProbeBackendEvent::Advertisement {
                    address: Some(R10_BLE_DEFAULT_TARGET_ADDRESS),
                    name: Some(R10_BLE_DEFAULT_ADVERTISED_NAME),
                },
                *final(self),
            ),
    {
        self.handle_event(R10BleEsp32c3ProbeBackendEvent::Advertisement {
            address: Some(R10_BLE_DEFAULT_TARGET_ADDRESS),
            name: Some(R10_BLE_DEFAULT_ADVERTISED_NAME),
        })
    }
}

impl Default for R10BleEsp32c3ProbeBackendTask<8> {
    fn default() -> (r: Self)
        ensures
            r.wf(),
            r.state_spec() == R10BleEsp32c3ProbeBackendState::Created,
            r.last_record_spec() is None,
            r.bridge_spec().stages().len() == 0,
            r.bridge_spec().dropped_count() == 0,
            crate::r10_ble_probe::report_empty(r.bridge_spec().probe_state().report),
            probe_fresh(r.bridge_spec().probe_state(), r.bridge_spec().probe_state().config),
            live_r10_config(r.bridge_spec().probe_state().config),
    {
        Self::new()
    }
}

} // verus!
