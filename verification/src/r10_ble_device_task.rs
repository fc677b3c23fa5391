//! The on-device BLE task adapter: maps the runtime configuration to a
//! one-shot start request and the lifecycle the hardware runner follows.
use vstd::prelude::*;
use crate::r10_ble_transport::{
    R10BleRuntimeConfig, R10BleRuntimeMode, R10BleRuntimeStartDecision, start_decision_spec,
};

verus! {

#[derive(Clone, Copy, Debug, Default, PartialEq, Eq, Structural)]
pub enum R10BleDeviceTaskAction {
    #[default]
    StayDisabled,
    StartProbeOnly,
    StartReaderRemote,
}

pub open spec fn action_label(a: R10BleDeviceTaskAction) -> &'static str {
    match a {
        R10BleDeviceTaskAction::StayDisabled => "stay_disabled",
        R10BleDeviceTaskAction::StartProbeOnly => "start_probe_only",
        R10BleDeviceTaskAction::StartReaderRemote => "start_reader_remote",
    }
}

/// The task action a runtime mode leads to.
pub open spec fn action_for_mode(mode: R10BleRuntimeMode) -> R10BleDeviceTaskAction {
    match mode {
        R10BleRuntimeMode::Disabled => R10BleDeviceTaskAction::StayDisabled,
        R10BleRuntimeMode::ProbeOnly => R10BleDeviceTaskAction::StartProbeOnly,
        R10BleRuntimeMode::ReaderRemote => R10BleDeviceTaskAction::StartReaderRemote,
    }
}

impl R10BleDeviceTaskAction {
    pub fn as_str(&self) -> (r: &'static str)
        ensures
            r == action_label(*self),
    {
        match self {
            Self::StayDisabled => "stay_disabled",
            Self::StartProbeOnly => "start_probe_only",
            Self::StartReaderRemote => "start_reader_remote",
        }
    }

    pub fn starts_ble(&self) -> (r: bool)
        ensures
            r == (*self != R10BleDeviceTaskAction::StayDisabled),
    {
        !matches!(self, Self::StayDisabled)
    }

    pub fn starts_probe(&self) -> (r: bool)
        ensures
            r == (*self == R10BleDeviceTaskAction::StartProbeOnly),
    {
        matches!(self, Self::StartProbeOnly)
    }

    pub fn starts_reader_remote(&self) -> (r: bool)
        ensures
            r == (*self == R10BleDeviceTaskAction::StartReaderRemote),
    {
        matches!(self, Self::StartReaderRemote)
    }
}

#[derive(Clone, Copy, Debug, PartialEq, Eq)]
pub struct R10BleDeviceTaskPlan {
    pub config: R10BleRuntimeConfig,
    pub action: R10BleDeviceTaskAction,
}

impl R10BleDeviceTaskPlan {
    /// The plan keeps the configuration and starts what its mode asks for.
    pub fn from_config(config: R10BleRuntimeConfig) -> (r: Self)
        ensures
            r.config == config,
            r.action == action_for_mode(config.mode),
    {
        let action = match config.start_decision() {
            R10BleRuntimeStartDecision::StayDisabled => R10BleDeviceTaskAction::StayDisabled,
            R10BleRuntimeStartDecision::StartProbe => R10BleDeviceTaskAction::StartProbeOnly,
            R10BleRuntimeStartDecision::StartReaderRemote => R10BleDeviceTaskAction::StartReaderRemote,
        };
        Self { config, action }
    }

    pub fn disabled() -> (r: Self)
        ensures
            r.config.mode == R10BleRuntimeMode::Disabled,
            r.config.reader_debounce_ms == crate::r10_ble_transport::R10_BLE_RUNTIME_DEFAULT_READER_DEBOUNCE_MS,
            r.action == R10BleDeviceTaskAction::StayDisabled,
    {
        Self::from_config(R10BleRuntimeConfig::disabled())
    }

    pub fn probe_only_live_r10() -> (r: Self)
        ensures
            r.config.mode == R10BleRuntimeMode::ProbeOnly,
            r.config.scan_target.address == Some(crate::r10_ble_transport::R10_BLE_DEFAULT_TARGET_ADDRESS),
            r.config.scan_target.name_prefix == Some(crate::r10_ble_transport::R10_BLE_DEFAULT_NAME_PREFIX),
            r.config.reader_debounce_ms == crate::r10_ble_transport::R10_BLE_RUNTIME_DEFAULT_READER_DEBOUNCE_MS,
            r.action == R10BleDeviceTaskAction::StartProbeOnly,
    {
        Self::from_config(R10BleRuntimeConfig::probe_only_live_r10())
    }

    pub fn reader_remote_live_r10() -> (r: Self)
        ensures
            r.config.mode == R10BleRuntimeMode::ReaderRemote,
            r.config.scan_target.address == Some(crate::r10_ble_transport::R10_BLE_DEFAULT_TARGET_ADDRESS),
            r.config.scan_target.name_prefix == Some(crate::r10_ble_transport::R10_BLE_DEFAULT_NAME_PREFIX),
            r.config.reader_debounce_ms == crate::r10_ble_transport::R10_BLE_RUNTIME_DEFAULT_READER_DEBOUNCE_MS,
            r.action == R10BleDeviceTaskAction::StartReaderRemote,
    {
        Self::from_config(R10BleRuntimeConfig::reader_remote_live_r10())
    }

    pub fn should_start_ble(&self) -> (r: bool)
        ensures
            r == (self.action != R10BleDeviceTaskAction::StayDisabled),
    {
        self.action.starts_ble()
    }

    pub fn should_start_probe(&self) -> (r: bool)
        ensures
            r == (self.action == R10BleDeviceTaskAction::StartProbeOnly),
    {
        self.action.starts_probe()
    }

    pub fn should_start_reader_remote(&self) -> (r: bool)
        ensures
            r == (self.action == R10BleDeviceTaskAction::StartReaderRemote),
    {
        self.action.starts_reader_remote()
    }

    pub fn mode(&self) -> (r: R10BleRuntimeMode)
        ensures
            r == self.config.mode,
    {
        self.config.mode
    }

    pub fn reader_debounce_ms(&self) -> (r: u64)
        ensures
            r == self.config.reader_debounce_ms,
    {
        self.config.reader_debounce_ms
    }
}

impl Default for R10BleDeviceTaskPlan {
    fn default() -> (r: Self)
        ensures
            r.config.mode == R10BleRuntimeMode::Disabled,
            r.action == R10BleDeviceTaskAction::StayDisabled,
    {
        Self::from_config(R10BleRuntimeConfig::default())
    }
}

#[derive(Clone, Copy, Debug, PartialEq, Eq)]
pub struct R10BleDeviceTaskStartRequest {
    pub action: R10BleDeviceTaskAction,
    pub config: R10BleRuntimeConfig,
}

impl R10BleDeviceTaskStartRequest {
    pub fn should_run_probe(&self) -> (r: bool)
        ensures
            r == (self.action == R10BleDeviceTaskAction::StartProbeOnly),
    {
        matches!(self.action, R10BleDeviceTaskAction::StartProbeOnly)
    }

    pub fn should_run_reader_remote(&self) -> (r: bool)
        ensures
            r == (self.action == R10BleDeviceTaskAction::StartReaderRemote),
    {
        matches!(self.action, R10BleDeviceTaskAction::StartReaderRemote)
    }

    pub fn should_start_ble(&self) -> (r: bool)
        ensures
            r == (self.action != R10BleDeviceTaskAction::StayDisabled),
    {
        self.action.starts_ble()
    }

    pub fn reader_debounce_ms(&self) -> (r: u64)
        ensures
            r == self.config.reader_debounce_ms,
    {
        self.config.reader_debounce_ms
    }
}

#[derive(Clone, Copy, Debug, PartialEq, Eq, Structural)]
pub enum R10BleDeviceTaskLifecycleEvent {
    StartScan,
    TargetSeen,
    Connect,
    Discover,
    Subscribe,
    RemoteStart,
    Poll,
    Notify,
    Timeout,
}

pub open spec fn lifecycle_label(e: R10BleDeviceTaskLifecycleEvent) -> &'static str {
    match e {
        R10BleDeviceTaskLifecycleEvent::StartScan => "start_scan",
        R10BleDeviceTaskLifecycleEvent::TargetSeen => "target_seen",
        R10BleDeviceTaskLifecycleEvent::Connect => "connect",
        R10BleDeviceTaskLifecycleEvent::Discover => "discover",
        R10BleDeviceTaskLifecycleEvent::Subscribe => "subscribe",
        R10BleDeviceTaskLifecycleEvent::RemoteStart => "remote_start",
        R10BleDeviceTaskLifecycleEvent::Poll => "poll",
        R10BleDeviceTaskLifecycleEvent::Notify => "notify",
        R10BleDeviceTaskLifecycleEvent::Timeout => "timeout",
    }
}

impl R10BleDeviceTaskLifecycleEvent {
    pub fn as_str(&self) -> (r: &'static str)
        ensures
            r == lifecycle_label(*self),
    {
        match self {
            Self::StartScan => "start_scan",
            Self::TargetSeen => "target_seen",
            Self::Connect => "connect",
            Self::Discover => "discover",
            Self::Subscribe => "subscribe",
            Self::RemoteStart => "remote_start",
            Self::Poll => "poll",
            Self::Notify => "notify",
            Self::Timeout => "timeout",
        }
    }

    /// The script ends with a notify or a timeout.
    pub fn is_terminal(&self) -> (r: bool)
        ensures
            r == (*self == R10BleDeviceTaskLifecycleEvent::Notify || *self == R10BleDeviceTaskLifecycleEvent::Timeout),
    {
        matches!(self, Self::Notify | Self::Timeout)
    }
}

pub const R10_BLE_DEVICE_TASK_PROBE_LIFECYCLE: [R10BleDeviceTaskLifecycleEvent; 9] = [
    R10BleDeviceTaskLifecycleEvent::StartScan,
    R10BleDeviceTaskLifecycleEvent::TargetSeen,
    R10BleDeviceTaskLifecycleEvent::Connect,
    R10BleDeviceTaskLifecycleEvent::Discover,
    R10BleDeviceTaskLifecycleEvent::Subscribe,
    R10BleDeviceTaskLifecycleEvent::RemoteStart,
    R10BleDeviceTaskLifecycleEvent::Poll,
    R10BleDeviceTaskLifecycleEvent::Notify,
    R10BleDeviceTaskLifecycleEvent::Timeout,
];

/// The probe lifecycle, in script order.
pub open spec fn probe_lifecycle() -> Seq<R10BleDeviceTaskLifecycleEvent> {
    seq![
        R10BleDeviceTaskLifecycleEvent::StartScan,
        R10BleDeviceTaskLifecycleEvent::TargetSeen,
        R10BleDeviceTaskLifecycleEvent::Connect,
        R10BleDeviceTaskLifecycleEvent::Discover,
        R10BleDeviceTaskLifecycleEvent::Subscribe,
        R10BleDeviceTaskLifecycleEvent::RemoteStart,
        R10BleDeviceTaskLifecycleEvent::Poll,
        R10BleDeviceTaskLifecycleEvent::Notify,
        R10BleDeviceTaskLifecycleEvent::Timeout,
    ]
}

#[derive(Clone, Copy, Debug, PartialEq, Eq)]
pub struct R10BleDeviceTaskRunnerPlan {
    pub request: R10BleDeviceTaskStartRequest,
    pub lifecycle: &'static [R10BleDeviceTaskLifecycleEvent],
    pub reader_events_enabled: bool,
}

impl R10BleDeviceTaskRunnerPlan {
    /// A runner plan for a start request: the probe lifecycle, with Reader
    /// events only for ReaderRemote; none for a disabled request.
    pub fn from_start_request(request: R10BleDeviceTaskStartRequest) -> (r: Option<Self>)
        ensures
            r is None <==> request.action == R10BleDeviceTaskAction::StayDisabled,
            r matches Some(p) ==> {
                &&& p.request == request
                &&& p.lifecycle@ == probe_lifecycle()
                &&& p.reader_events_enabled == (request.action == R10BleDeviceTaskAction::StartReaderRemote)
            },
    {
        let lifecycle: &'static [R10BleDeviceTaskLifecycleEvent] = R10_BLE_DEVICE_TASK_PROBE_LIFECYCLE.as_slice();
        assert(lifecycle@ =~= probe_lifecycle());
        match request.action {
            R10BleDeviceTaskAction::StartProbeOnly => Some(
                Self { request, lifecycle, reader_events_enabled: false },
            ),
            R10BleDeviceTaskAction::StartReaderRemote => Some(
                Self { request, lifecycle, reader_events_enabled: true },
            ),
            R10BleDeviceTaskAction::StayDisabled => None,
        }
    }

    /// Takes the task's one-shot start request and plans it.
    pub fn from_state_start(state: &mut R10BleDeviceTaskState) -> (r: Option<Self>)
        ensures
            final(state).plan == old(state).plan,
            final(state).started == (old(state).started || old(state).plan.action != R10BleDeviceTaskAction::StayDisabled),
            r is Some <==> (!old(state).started && old(state).plan.action != R10BleDeviceTaskAction::StayDisabled),
            r matches Some(p) ==> {
                &&& p.request.action == old(state).plan.action
                &&& p.request.config == old(state).plan.config
                &&& p.lifecycle@ == probe_lifecycle()
                &&& p.reader_events_enabled == (old(state).plan.action == R10BleDeviceTaskAction::StartReaderRemote)
            },
    {
        match state.start_request() {
            Some(request) => Self::from_start_request(request),
            None => None,
        }
    }

    pub fn should_run_probe(&self) -> (r: bool)
        ensures
            r == (self.request.action == R10BleDeviceTaskAction::StartProbeOnly),
    {
        self.request.should_run_probe()
    }

    pub fn should_run_reader_remote(&self) -> (r: bool)
        ensures
            r == (self.request.action == R10BleDeviceTaskAction::StartReaderRemote),
    {
        self.request.should_run_reader_remote()
    }

    pub fn should_emit_reader_events(&self) -> (r: bool)
        ensures
            r == self.reader_events_enabled,
    {
        self.reader_events_enabled
    }

    pub fn lifecycle_len(&self) -> (r: usize)
        ensures
            r == self.lifecycle@.len(),
    {
        self.lifecycle.len()
    }

    pub fn lifecycle_contains(&self, event: R10BleDeviceTaskLifecycleEvent) -> (r: bool)
        ensures
            r == self.lifecycle@.contains(event),
    {
        let mut i: usize = 0;
        while i < self.lifecycle.len()
            invariant
                0 <= i <= self.lifecycle@.len(),
                forall|j: int| 0 <= j < i ==> self.lifecycle@[j] != event,
            decreases self.lifecycle@.len() - i,
        {
            if self.lifecycle[i] == event {
                return true;
            }
            i = i + 1;
        }
        false
    }

    pub fn lifecycle_label_at(&self, index: usize) -> (r: Option<&'static str>)
        ensures
            r == (if index < self.lifecycle@.len() {
                Some(lifecycle_label(self.lifecycle@[index as int]))
            } else {
                None
            }),
    {
        if index < self.lifecycle.len() {
            Some(self.lifecycle[index].as_str())
        } else {
            None
        }
    }
}

#[derive(Clone, Copy, Debug, PartialEq, Eq)]
pub struct R10BleDeviceTaskState {
    pub plan: R10BleDeviceTaskPlan,
    pub started: bool,
}

impl R10BleDeviceTaskState {
    pub fn new(config: R10BleRuntimeConfig) -> (r: Self)
        ensures
            r.plan.config == config,
            r.plan.action == action_for_mode(config.mode),
            !r.started,
    {
        Self { plan: R10BleDeviceTaskPlan::from_config(config), started: false }
    }

    /// A new configuration replaces the plan and allows one start again.
    pub fn configure(&mut self, config: R10BleRuntimeConfig)
        ensures
            final(self).plan.config == config,
            final(self).plan.action == action_for_mode(config.mode),
            !final(self).started,
    {
        self.plan = R10BleDeviceTaskPlan::from_config(config);
        self.started = false;
    }

    /// The plan's action the first time, and StayDisabled after that until
    /// the task is stopped or reconfigured. A disabled plan never counts as
    /// started.
    pub fn start_action(&mut self) -> (r: R10BleDeviceTaskAction)
        ensures
            r == (if old(self).started {
                R10BleDeviceTaskAction::StayDisabled
            } else {
                old(self).plan.action
            }),
            final(self).plan == old(self).plan,
            final(self).started == (old(self).started || old(self).plan.action != R10BleDeviceTaskAction::StayDisabled),
    {
        if self.started {
            return R10BleDeviceTaskAction::StayDisabled;
        }
        self.started = self.plan.should_start_ble();
        self.plan.action
    }

    /// The one-shot start request.
    pub fn start_request(&mut self) -> (r: Option<R10BleDeviceTaskStartRequest>)
        ensures
            r == start_request_spec(*old(self)),
            *final(self) == state_after_start(*old(self)),
    {
        let action = self.start_action();
        if action.starts_ble() {
            Some(R10BleDeviceTaskStartRequest { action, config: self.plan.config })
        } else {
            None
        }
    }

    pub fn stop(&mut self)
        ensures
            final(self).plan == old(self).plan,
            !final(self).started,
    {
        self.started = false;
    }

    pub fn is_started(&self) -> (r: bool)
        ensures
            r == self.started,
    {
        self.started
    }
}

impl Default for R10BleDeviceTaskState {
    fn default() -> (r: Self)
        ensures
            r.plan.config.mode == R10BleRuntimeMode::Disabled,
            r.plan.action == R10BleDeviceTaskAction::StayDisabled,
            !r.started,
    {
        Self::new(R10BleRuntimeConfig::default())
    }
}

/// What `start_request` hands out.
pub open spec fn start_request_spec(s: R10BleDeviceTaskState) -> Option<R10BleDeviceTaskStartRequest> {
    if !s.started && s.plan.action != R10BleDeviceTaskAction::StayDisabled {
        Some(R10BleDeviceTaskStartRequest { action: s.plan.action, config: s.plan.config })
    } else {
        None
    }
}

/// The task after `start_request`.
pub open spec fn state_after_start(s: R10BleDeviceTaskState) -> R10BleDeviceTaskState {
    R10BleDeviceTaskState {
        started: s.started || s.plan.action != R10BleDeviceTaskAction::StayDisabled,
        ..s
    }
}

/// Starting is one-shot: after a start request was handed out the next one is
/// refused, and stopping the task allows exactly one more. A disabled plan
/// never hands out a request.
pub proof fn lemma_start_request_one_shot(s: R10BleDeviceTaskState)
    ensures
        start_request_spec(s) is Some ==> start_request_spec(state_after_start(s)) is None,
        start_request_spec(state_after_start(s)) is None,
        s.plan.action != R10BleDeviceTaskAction::StayDisabled ==> start_request_spec(
            R10BleDeviceTaskState { started: false, ..state_after_start(s) },
        ) == Some(R10BleDeviceTaskStartRequest { action: s.plan.action, config: s.plan.config }),
        s.plan.action == R10BleDeviceTaskAction::StayDisabled ==> start_request_spec(s) is None,
{
}

pub fn r10_ble_device_task_default_config() -> (r: R10BleRuntimeConfig)
    ensures
        r.mode == R10BleRuntimeMode::Disabled,
        r.scan_target.address == Some(crate::r10_ble_transport::R10_BLE_DEFAULT_TARGET_ADDRESS),
        r.scan_target.name_prefix == Some(crate::r10_ble_transport::R10_BLE_DEFAULT_NAME_PREFIX),
        r.reader_debounce_ms == crate::r10_ble_transport::R10_BLE_RUNTIME_DEFAULT_READER_DEBOUNCE_MS,
{
    R10BleRuntimeConfig::disabled()
}

pub fn r10_ble_device_task_probe_config() -> (r: R10BleRuntimeConfig)
    ensures
        r.mode == R10BleRuntimeMode::ProbeOnly,
        r.scan_target.address == Some(crate::r10_ble_transport::R10_BLE_DEFAULT_TARGET_ADDRESS),
        r.scan_target.name_prefix == Some(crate::r10_ble_transport::R10_BLE_DEFAULT_NAME_PREFIX),
        r.reader_debounce_ms == crate::r10_ble_transport::R10_BLE_RUNTIME_DEFAULT_READER_DEBOUNCE_MS,
{
    R10BleRuntimeConfig::probe_only_live_r10()
}

pub fn r10_ble_device_task_reader_remote_config() -> (r: R10BleRuntimeConfig)
    ensures
        r.mode == R10BleRuntimeMode::ReaderRemote,
        r.scan_target.address == Some(crate::r10_ble_transport::R10_BLE_DEFAULT_TARGET_ADDRESS),
        r.scan_target.name_prefix == Some(crate::r10_ble_transport::R10_BLE_DEFAULT_NAME_PREFIX),
        r.reader_debounce_ms == crate::r10_ble_transport::R10_BLE_RUNTIME_DEFAULT_READER_DEBOUNCE_MS,
{
    R10BleRuntimeConfig::reader_remote_live_r10()
}

} // verus!
