//! The ESP32-C3 ProbeOnly runner: it works through the session operation
//! queue, turns each operation's outcome into a backend callback, and keeps
//! a phase and a monitor-safe record of every step. Reader input stays off.
use vstd::prelude::*;
use crate::monitor_label::label_safe;
use crate::monitor_label::r10_ble_device_task_monitor_label_is_safe as safe;
use crate::r10_ble_device_task_x4::{
    R10BleDeviceTaskX4ProbeOnlyBridgeStage as Stage, notify_kind_valid, record_safe,
    trigger_record_spec,
};
use crate::r10_ble_esp32c3_backend::{
    R10BleEsp32c3ProbeBackendEvent, R10BleEsp32c3ProbeBackendOutput,
    R10BleEsp32c3ProbeBackendState, R10BleEsp32c3ProbeBackendTask, stage_output,
};
use crate::r10_ble_esp32c3_operations::{
    Op, R10BleEsp32c3ProbeOperation, R10BleEsp32c3ProbeOperationQueue, filled_with,
    operation_label, r10_ble_esp32c3_probe_session_operation_queue, session_operations,
};
use crate::r10_ble_probe::{classify_notify_spec, live_r10_config, probe_fresh};
use crate::r10_ble_transport::{
    R10BleAdvertisedDevice, R10BleScanDecision, R10_BLE_DEFAULT_ADVERTISED_NAME,
    R10_BLE_DEFAULT_TARGET_ADDRESS, R10_BLE_LIVE_NOTIFY_VALUE_HANDLE, scan_decision_spec,
};

verus! {

#[derive(Clone, Copy, Debug, PartialEq, Eq, Structural)]
pub enum R10BleEsp32c3ProbeRunnerPhase {
    Created,
    RadioReady,
    ControllerReady,
    HostReady,
    Scanning,
    Matched,
    Connecting,
    Discovering,
    Subscribing,
    StartingRemote,
    Polling,
    AwaitingNotify,
    Notified,
    Backoff,
    Complete,
}

pub type Phase = R10BleEsp32c3ProbeRunnerPhase;

pub open spec fn phase_label(p: Phase) -> &'static str {
    match p {
        Phase::Created => "created",
        Phase::RadioReady => "radio_ready",
        Phase::ControllerReady => "controller_ready",
        Phase::HostReady => "host_ready",
        Phase::Scanning => "scanning",
        Phase::Matched => "matched",
        Phase::Connecting => "connecting",
        Phase::Discovering => "discovering",
        Phase::Subscribing => "subscribing",
        Phase::StartingRemote => "starting_remote",
        Phase::Polling => "polling",
        Phase::AwaitingNotify => "awaiting_notify",
        Phase::Notified => "notified",
        Phase::Backoff => "backoff",
        Phase::Complete => "complete",
    }
}

impl R10BleEsp32c3ProbeRunnerPhase {
    pub fn as_str(&self) -> (r: &'static str)
        ensures
            r == phase_label(*self),
    {
        match self {
            Self::Created => "created",
            Self::RadioReady => "radio_ready",
            Self::ControllerReady => "controller_ready",
            Self::HostReady => "host_ready",
            Self::Scanning => "scanning",
            Self::Matched => "matched",
            Self::Connecting => "connecting",
            Self::Discovering => "discovering",
            Self::Subscribing => "subscribing",
            Self::StartingRemote => "starting_remote",
            Self::Polling => "polling",
            Self::AwaitingNotify => "awaiting_notify",
            Self::Notified => "notified",
            Self::Backoff => "backoff",
            Self::Complete => "complete",
        }
    }

    pub fn is_terminal(&self) -> (r: bool)
        ensures
            r == (*self == Phase::Backoff || *self == Phase::Complete),
    {
        match self {
            Self::Backoff | Self::Complete => true,
            _ => false,
        }
    }
}

#[derive(Clone, Copy, Debug, PartialEq, Eq, Structural)]
pub enum R10BleEsp32c3ProbeRunnerStatus {
    Ready,
    Pending,
    Succeeded,
    Ignored,
    Failed,
    Awaiting,
    Complete,
}

pub type Status = R10BleEsp32c3ProbeRunnerStatus;

pub open spec fn status_label(s: Status) -> &'static str {
    match s {
        Status::Ready => "ready",
        Status::Pending => "pending",
        Status::Succeeded => "ok",
        Status::Ignored => "ignored",
        Status::Failed => "failed",
        Status::Awaiting => "awaiting",
        Status::Complete => "complete",
    }
}

impl R10BleEsp32c3ProbeRunnerStatus {
    pub fn as_str(&self) -> (r: &'static str)
        ensures
            r == status_label(*self),
    {
        match self {
            Self::Ready => "ready",
            Self::Pending => "pending",
            Self::Succeeded => "ok",
            Self::Ignored => "ignored",
            Self::Failed => "failed",
            Self::Awaiting => "awaiting",
            Self::Complete => "complete",
        }
    }
}

#[derive(Clone, Copy, Debug, PartialEq, Eq)]
pub struct R10BleEsp32c3ProbeRunnerRecord {
    pub event: &'static str,
    pub target: &'static str,
    pub phase: &'static str,
    pub operation: &'static str,
    pub reader: &'static str,
    pub status: &'static str,
}

pub open spec fn runner_operation_label_spec(op: Option<Op>) -> &'static str {
    match op {
        Some(o) => operation_label(o),
        None => "none",
    }
}

/// The record of a runner step.
pub open spec fn runner_record_spec(phase: Phase, op: Option<Op>, status: Status) -> R10BleEsp32c3ProbeRunnerRecord {
    R10BleEsp32c3ProbeRunnerRecord {
        event: "ble_runner",
        target: "esp_c",
        phase: phase_label(phase),
        operation: runner_operation_label_spec(op),
        reader: "reader_off",
        status: status_label(status),
    }
}

pub open spec fn runner_record_safe(r: R10BleEsp32c3ProbeRunnerRecord) -> bool {
    &&& label_safe(r.event)
    &&& label_safe(r.target)
    &&& label_safe(r.phase)
    &&& label_safe(r.operation)
    &&& label_safe(r.reader)
    &&& label_safe(r.status)
}

impl R10BleEsp32c3ProbeRunnerRecord {
    pub fn new(phase: Phase, operation: Option<R10BleEsp32c3ProbeOperation>, status: Status) -> (r: Self)
        ensures
            r == runner_record_spec(phase, operation, status),
    {
        Self {
            event: "ble_runner",
            target: "esp_c",
            phase: phase.as_str(),
            operation: runner_operation_label(operation),
            reader: "reader_off",
            status: status.as_str(),
        }
    }

    pub fn is_monitor_safe(&self) -> (r: bool)
        ensures
            r == runner_record_safe(*self),
    {
        safe(self.event) && safe(self.target) && safe(self.phase) && safe(self.operation)
            && safe(self.reader) && safe(self.status)
    }
}

pub fn runner_operation_label(operation: Option<R10BleEsp32c3ProbeOperation>) -> (r: &'static str)
    ensures
        r == runner_operation_label_spec(operation),
{
    match operation {
        Some(operation) => operation.as_str(),
        None => "none",
    }
}

#[derive(Clone, Copy, Debug, PartialEq, Eq)]
pub struct R10BleEsp32c3ProbeRunnerResult {
    pub phase: Phase,
    pub operation: Option<R10BleEsp32c3ProbeOperation>,
    pub backend_output: Option<R10BleEsp32c3ProbeBackendOutput>,
    pub record: R10BleEsp32c3ProbeRunnerRecord,
    pub reader_input_enabled: bool,
}

/// The result of a runner step: its phase, operation, backend output and
/// record, with Reader input off.
pub open spec fn runner_result_spec(
    phase: Phase,
    op: Option<Op>,
    out: Option<R10BleEsp32c3ProbeBackendOutput>,
    status: Status,
) -> R10BleEsp32c3ProbeRunnerResult {
    R10BleEsp32c3ProbeRunnerResult {
        phase,
        operation: op,
        backend_output: out,
        record: runner_record_spec(phase, op, status),
        reader_input_enabled: false,
    }
}

pub open spec fn output_safe(o: R10BleEsp32c3ProbeBackendOutput) -> bool {
    &&& (match o.bridge_event {
        Some(e) => match e.record {
            Some(rec) => record_safe(rec),
            None => true,
        },
        None => true,
    })
    &&& (match o.record {
        Some(rec) => record_safe(rec),
        None => true,
    })
}

impl R10BleEsp32c3ProbeRunnerResult {
    /// A runner result never hands ring input to the Reader.
    pub fn is_reader_input_enabled(&self) -> (r: bool)
        ensures
            !r,
    {
        false
    }

    pub fn is_monitor_safe(&self) -> (r: bool)
        ensures
            r == (runner_record_safe(self.record) && match self.backend_output {
                Some(o) => output_safe(o),
                None => true,
            }),
    {
        let record_ok = self.record.is_monitor_safe();
        let output_ok = match self.backend_output {
            Some(output) => output.is_monitor_safe(),
            None => true,
        };
        record_ok && output_ok
    }
}

/// The phase a successful operation leads to.
pub open spec fn success_phase(op: Option<Op>) -> Phase {
    match op {
        Some(Op::InitRadio) => Phase::RadioReady,
        Some(Op::BuildController) => Phase::ControllerReady,
        Some(Op::BuildHostStack) => Phase::HostReady,
        Some(Op::StartScan) => Phase::Scanning,
        Some(Op::ConnectTarget) => Phase::Discovering,
        Some(Op::DiscoverGatt) => Phase::Subscribing,
        Some(Op::SubscribeCccd { .. }) => Phase::StartingRemote,
        Some(Op::WriteRemoteStart { .. }) => Phase::Polling,
        Some(Op::WritePoll { .. }) => Phase::AwaitingNotify,
        Some(Op::AwaitNotify { .. }) => Phase::AwaitingNotify,
        Some(Op::Backoff) => Phase::Backoff,
        None => Phase::Complete,
    }
}

/// What the backend reports when an operation succeeds; the radio and
/// controller bring-up, a notify wait and a backoff do not reach it.
pub open spec fn success_output(op: Option<Op>) -> Option<R10BleEsp32c3ProbeBackendOutput> {
    match op {
        Some(Op::BuildHostStack) => Some(R10BleEsp32c3ProbeBackendOutput {
            state: R10BleEsp32c3ProbeBackendState::AdapterReady,
            bridge_event: None,
            record: Some(trigger_record_spec()),
            reader_input_enabled: false,
        }),
        Some(Op::StartScan) => Some(stage_output(R10BleEsp32c3ProbeBackendState::Scanning, Stage::ScanStarted)),
        Some(Op::ConnectTarget) => Some(stage_output(R10BleEsp32c3ProbeBackendState::Discovering, Stage::Connected)),
        Some(Op::DiscoverGatt) => Some(stage_output(R10BleEsp32c3ProbeBackendState::Subscribing, Stage::GattReady)),
        Some(Op::SubscribeCccd { .. }) => Some(stage_output(R10BleEsp32c3ProbeBackendState::StartingRemote, Stage::Subscribed)),
        Some(Op::WriteRemoteStart { .. }) => Some(stage_output(R10BleEsp32c3ProbeBackendState::Polling, Stage::RemoteStarted)),
        Some(Op::WritePoll { .. }) => Some(stage_output(R10BleEsp32c3ProbeBackendState::Polling, Stage::PollWritten)),
        _ => None,
    }
}

/// The status of a successful step: a notify wait keeps awaiting, an empty
/// queue completes.
pub open spec fn success_status(op: Option<Op>) -> Status {
    match op {
        Some(Op::AwaitNotify { .. }) => Status::Awaiting,
        None => Status::Complete,
        _ => Status::Succeeded,
    }
}

/// What the backend reports when an operation fails: the failure of that
/// connect or write, or a timeout for any other operation.
pub open spec fn failure_output(op: Option<Op>) -> R10BleEsp32c3ProbeBackendOutput {
    match op {
        Some(Op::ConnectTarget) => stage_output(R10BleEsp32c3ProbeBackendState::Backoff, Stage::ConnectFailed),
        Some(Op::SubscribeCccd { .. }) => stage_output(R10BleEsp32c3ProbeBackendState::Backoff, Stage::SubscribeFailed),
        Some(Op::WriteRemoteStart { .. }) => stage_output(R10BleEsp32c3ProbeBackendState::Backoff, Stage::RemoteStartFailed),
        Some(Op::WritePoll { .. }) => stage_output(R10BleEsp32c3ProbeBackendState::Backoff, Stage::PollFailed),
        _ => stage_output(R10BleEsp32c3ProbeBackendState::Backoff, Stage::TimedOut),
    }
}

/// The backend callback a successful operation amounts to; the radio and
/// controller bring-up, a notify wait, a backoff and an empty queue do not
/// reach the backend.
pub open spec fn success_event(op: Option<Op>, now_ms: u64) -> Option<R10BleEsp32c3ProbeBackendEvent<'static>> {
    match op {
        Some(Op::BuildHostStack) => Some(R10BleEsp32c3ProbeBackendEvent::Start),
        Some(Op::StartScan) => Some(R10BleEsp32c3ProbeBackendEvent::ScanStarted),
        Some(Op::ConnectTarget) => Some(R10BleEsp32c3ProbeBackendEvent::ConnectOk),
        Some(Op::DiscoverGatt) => Some(R10BleEsp32c3ProbeBackendEvent::LiveGattContract),
        Some(Op::SubscribeCccd { .. }) => Some(R10BleEsp32c3ProbeBackendEvent::SubscribeWritten { success: true, now_ms }),
        Some(Op::WriteRemoteStart { .. }) => Some(R10BleEsp32c3ProbeBackendEvent::RemoteStartWritten { success: true, now_ms }),
        Some(Op::WritePoll { .. }) => Some(R10BleEsp32c3ProbeBackendEvent::PollWritten { success: true, now_ms }),
        _ => None,
    }
}

/// The backend callback a failed operation amounts to: the failure of that
/// connect or write, or a timeout for any other operation.
pub open spec fn failure_event(op: Option<Op>, now_ms: u64) -> R10BleEsp32c3ProbeBackendEvent<'static> {
    match op {
        Some(Op::ConnectTarget) => R10BleEsp32c3ProbeBackendEvent::ConnectFailed { now_ms },
        Some(Op::SubscribeCccd { .. }) => R10BleEsp32c3ProbeBackendEvent::SubscribeWritten { success: false, now_ms },
        Some(Op::WriteRemoteStart { .. }) => R10BleEsp32c3ProbeBackendEvent::RemoteStartWritten { success: false, now_ms },
        Some(Op::WritePoll { .. }) => R10BleEsp32c3ProbeBackendEvent::PollWritten { success: false, now_ms },
        _ => R10BleEsp32c3ProbeBackendEvent::Timeout,
    }
}

#[derive(Clone, Debug, PartialEq, Eq)]
pub struct R10BleEsp32c3ProbeRunner {
    backend: R10BleEsp32c3ProbeBackendTask<16>,
    queue: R10BleEsp32c3ProbeOperationQueue<12>,
    phase: Phase,
    last_result: Option<R10BleEsp32c3ProbeRunnerResult>,
}

impl R10BleEsp32c3ProbeRunner {
    pub closed spec fn wf(&self) -> bool {
        &&& self.backend.wf()
        &&& self.queue.wf()
    }

    pub closed spec fn phase_spec(&self) -> Phase {
        self.phase
    }

    pub closed spec fn backend_spec(&self) -> R10BleEsp32c3ProbeBackendTask<16> {
        self.backend
    }

    pub closed spec fn queue_spec(&self) -> R10BleEsp32c3ProbeOperationQueue<12> {
        self.queue
    }

    pub closed spec fn last_result_spec(&self) -> Option<R10BleEsp32c3ProbeRunnerResult> {
        self.last_result
    }

    /// The operation at the head of the queue.
    pub open spec fn current_op(&self) -> Option<Op> {
        let q = self.queue_spec();
        if q.cursor_spec() < q.operations().len() {
            Some(q.operations()[q.cursor_spec() as int])
        } else {
            None
        }
    }

    /// The queue moved past its head and nothing else changed in it.
    pub open spec fn advanced(&self, next: Self) -> bool {
        &&& next.queue_spec().operations() == self.queue_spec().operations()
        &&& next.queue_spec().cursor_spec() == self.queue_spec().cursor_spec() + 1
    }

    pub fn new() -> (r: Self)
        ensures
            r.wf(),
            r.phase_spec() == Phase::Created,
            r.last_result_spec() is None,
            r.backend_spec().state_spec() == R10BleEsp32c3ProbeBackendState::Created,
            r.backend_spec().last_record_spec() is None,
            r.backend_spec().bridge_spec().stages().len() == 0,
            r.backend_spec().bridge_spec().dropped_count() == 0,
            probe_fresh(
                r.backend_spec().bridge_spec().probe_state(),
                r.backend_spec().bridge_spec().probe_state().config,
            ),
            live_r10_config(r.backend_spec().bridge_spec().probe_state().config),
            filled_with(r.queue_spec(), session_operations()),
    {
        Self {
            backend: R10BleEsp32c3ProbeBackendTask::new(),
            queue: r10_ble_esp32c3_probe_session_operation_queue(),
            phase: Phase::Created,
            last_result: None,
        }
    }

    pub fn phase(&self) -> (r: Phase)
        ensures
            r == self.phase_spec(),
    {
        self.phase
    }

    pub fn backend(&self) -> (r: &R10BleEsp32c3ProbeBackendTask<16>)
        ensures
            *r == self.backend_spec(),
    {
        &self.backend
    }

    pub fn current_operation(&self) -> (r: Option<R10BleEsp32c3ProbeOperation>)
        requires
            self.wf(),
        ensures
            r == self.current_op(),
    {
        self.queue.peek()
    }

    pub fn queue_remaining(&self) -> (r: usize)
        requires
            self.wf(),
        ensures
            r == self.queue_spec().operations().len() - self.queue_spec().cursor_spec(),
    {
        self.queue.remaining()
    }

    /// The runner never hands ring input to the Reader.
    pub fn is_reader_input_enabled(&self) -> (r: bool)
        ensures
            !r,
    {
        false
    }

    pub fn last_result(&self) -> (r: Option<R10BleEsp32c3ProbeRunnerResult>)
        ensures
            r == self.last_result_spec(),
    {
        self.last_result
    }

    /// The record announcing the runner in its current phase.
    pub fn startup_record(&self) -> (r: R10BleEsp32c3ProbeRunnerRecord)
        requires
            self.wf(),
        ensures
            r == runner_record_spec(self.phase_spec(), self.current_op(), Status::Ready),
    {
        R10BleEsp32c3ProbeRunnerRecord::new(self.phase, self.current_operation(), Status::Ready)
    }

    fn result(
        &mut self,
        operation: Option<R10BleEsp32c3ProbeOperation>,
        backend_output: Option<R10BleEsp32c3ProbeBackendOutput>,
        status: Status,
    ) -> (r: R10BleEsp32c3ProbeRunnerResult)
        ensures
            r == runner_result_spec(old(self).phase_spec(), operation, backend_output, status),
            final(self).last_result_spec() == Some(r),
            final(self).phase_spec() == old(self).phase_spec(),
            final(self).backend_spec() == old(self).backend_spec(),
            final(self).queue_spec() == old(self).queue_spec(),
            final(self).wf() == old(self).wf(),
    {
        let result = R10BleEsp32c3ProbeRunnerResult {
            phase: self.phase,
            operation,
            backend_output,
            record: R10BleEsp32c3ProbeRunnerRecord::new(self.phase, operation, status),
            reader_input_enabled: false,
        };
        self.last_result = Some(result);
        result
    }

    /// Reports that the operation at the head of the queue succeeded: the
    /// backend hears of it where it concerns the backend, the queue moves on
    /// (a notify wait stays until a notify arrives), and the phase follows.
    pub fn complete_current_success(&mut self, now_ms: u64) -> (r: R10BleEsp32c3ProbeRunnerResult)
        requires
            old(self).wf(),
        ensures
            final(self).wf(),
            ({
                let op = old(self).current_op();
                &&& r == runner_result_spec(success_phase(op), op, success_output(op), success_status(op))
                &&& final(self).phase_spec() == success_phase(op)
                &&& final(self).last_result_spec() == Some(r)
                &&& if op is Some && !(op->0 is AwaitNotify) {
                    old(self).advanced(*final(self))
                } else {
                    final(self).queue_spec() == old(self).queue_spec()
                }
                &&& match success_event(op, now_ms) {
                    Some(e) => old(self).backend_spec().handled(e, final(self).backend_spec()),
                    None => final(self).backend_spec() == old(self).backend_spec(),
                }
            }),
    {
        let operation = self.current_operation();
        match operation {
            Some(Op::InitRadio) => {
                let _ = self.queue.advance();
                self.phase = Phase::RadioReady;
                self.result(operation, None, Status::Succeeded)
            },
            Some(Op::BuildController) => {
                let _ = self.queue.advance();
                self.phase = Phase::ControllerReady;
                self.result(operation, None, Status::Succeeded)
            },
            Some(Op::BuildHostStack) => {
                let backend_output = self.backend.handle_event(R10BleEsp32c3ProbeBackendEvent::Start);
                let _ = self.queue.advance();
                self.phase = Phase::HostReady;
                self.result(operation, Some(backend_output), Status::Succeeded)
            },
            Some(Op::StartScan) => {
                let backend_output = self.backend.on_scan_started();
                let _ = self.queue.advance();
                self.phase = Phase::Scanning;
                self.result(operation, Some(backend_output), Status::Succeeded)
            },
            Some(Op::ConnectTarget) => {
                let backend_output = self.backend.handle_event(R10BleEsp32c3ProbeBackendEvent::ConnectOk);
                let _ = self.queue.advance();
                self.phase = Phase::Discovering;
                self.result(operation, Some(backend_output), Status::Succeeded)
            },
            Some(Op::DiscoverGatt) => {
                let backend_output = self.backend.handle_event(R10BleEsp32c3ProbeBackendEvent::LiveGattContract);
                let _ = self.queue.advance();
                self.phase = Phase::Subscribing;
                self.result(operation, Some(backend_output), Status::Succeeded)
            },
            Some(Op::SubscribeCccd { .. }) => {
                let backend_output = self.backend.handle_event(
                    R10BleEsp32c3ProbeBackendEvent::SubscribeWritten { success: true, now_ms },
                );
                let _ = self.queue.advance();
                self.phase = Phase::StartingRemote;
                self.result(operation, Some(backend_output), Status::Succeeded)
            },
            Some(Op::WriteRemoteStart { .. }) => {
                let backend_output = self.backend.handle_event(
                    R10BleEsp32c3ProbeBackendEvent::RemoteStartWritten { success: true, now_ms },
                );
                let _ = self.queue.advance();
                self.phase = Phase::Polling;
                self.result(operation, Some(backend_output), Status::Succeeded)
            },
            Some(Op::WritePoll { .. }) => {
                let backend_output = self.backend.handle_event(
                    R10BleEsp32c3ProbeBackendEvent::PollWritten { success: true, now_ms },
                );
                let _ = self.queue.advance();
                self.phase = Phase::AwaitingNotify;
                self.result(operation, Some(backend_output), Status::Succeeded)
            },
            Some(Op::AwaitNotify { .. }) => {
                self.phase = Phase::AwaitingNotify;
                self.result(operation, None, Status::Awaiting)
            },
            Some(Op::Backoff) => {
                let _ = self.queue.advance();
                self.phase = Phase::Backoff;
                self.result(operation, None, Status::Succeeded)
            },
            None => {
                self.phase = Phase::Complete;
                self.result(None, None, Status::Complete)
            },
        }
    }

    /// Reports that the operation at the head of the queue failed: the
    /// backend backs off, the queue stays, and the runner enters backoff.
    pub fn fail_current(&mut self, now_ms: u64) -> (r: R10BleEsp32c3ProbeRunnerResult)
        requires
            old(self).wf(),
        ensures
            final(self).wf(),
            ({
                let op = old(self).current_op();
                &&& r == runner_result_spec(Phase::Backoff, op, Some(failure_output(op)), Status::Failed)
                &&& final(self).phase_spec() == Phase::Backoff
                &&& final(self).last_result_spec() == Some(r)
                &&& final(self).queue_spec() == old(self).queue_spec()
                &&& final(self).backend_spec().state_spec() == R10BleEsp32c3ProbeBackendState::Backoff
                &&& old(self).backend_spec().handled(failure_event(op, now_ms), final(self).backend_spec())
            }),
    {
        let operation = self.current_operation();
        let backend_output = match operation {
            Some(Op::ConnectTarget) => self.backend.handle_event(
                R10BleEsp32c3ProbeBackendEvent::ConnectFailed { now_ms },
            ),
            Some(Op::SubscribeCccd { .. }) => self.backend.handle_event(
                R10BleEsp32c3ProbeBackendEvent::SubscribeWritten { success: false, now_ms },
            ),
            Some(Op::WriteRemoteStart { .. }) => self.backend.handle_event(
                R10BleEsp32c3ProbeBackendEvent::RemoteStartWritten { success: false, now_ms },
            ),
            Some(Op::WritePoll { .. }) => self.backend.handle_event(
                R10BleEsp32c3ProbeBackendEvent::PollWritten { success: false, now_ms },
            ),
            _ => self.backend.handle_event(R10BleEsp32c3ProbeBackendEvent::Timeout),
        };
        self.phase = Phase::Backoff;
        self.result(operation, Some(backend_output), Status::Failed)
    }

    /// An advertisement seen while scanning: the target moves the runner to
    /// Matched, anything else keeps it scanning and is reported as ignored.
    pub fn on_advertisement(&mut self, address: Option<&str>, name: Option<&str>) -> (r: R10BleEsp32c3ProbeRunnerResult)
        requires
            old(self).wf(),
        ensures
            final(self).wf(),
            ({
                let op = old(self).current_op();
                let device = R10BleAdvertisedDevice { address, name };
                let hit = scan_decision_spec(
                    old(self).backend_spec().bridge_spec().probe_state().config.target,
                    device,
                ) != R10BleScanDecision::Ignored;
                let out = if hit {
                    stage_output(R10BleEsp32c3ProbeBackendState::Connecting, Stage::TargetSeen)
                } else {
                    stage_output(R10BleEsp32c3ProbeBackendState::Scanning, Stage::AdvertisementIgnored)
                };
                let phase = if hit { Phase::Matched } else { Phase::Scanning };
                &&& r == runner_result_spec(phase, op, Some(out), if hit { Status::Succeeded } else { Status::Ignored })
                &&& final(self).phase_spec() == phase
                &&& final(self).last_result_spec() == Some(r)
                &&& final(self).queue_spec() == old(self).queue_spec()
                &&& final(self).backend_spec().state_spec() == out.state
                &&& old(self).backend_spec().handled(
                    R10BleEsp32c3ProbeBackendEvent::Advertisement { address, name },
                    final(self).backend_spec(),
                )
            }),
    {
        let operation = self.current_operation();
        let backend_output = self.backend.handle_event(
            R10BleEsp32c3ProbeBackendEvent::Advertisement { address, name },
        );
        self.phase = if backend_output.state == R10BleEsp32c3ProbeBackendState::Connecting {
            Phase::Matched
        } else {
            Phase::Scanning
        };
        let status = if self.phase == Phase::Matched {
            Status::Succeeded
        } else {
            Status::Ignored
        };
        self.result(operation, Some(backend_output), status)
    }

    pub fn on_default_r10_advertisement(&mut self) -> (r: R10BleEsp32c3ProbeRunnerResult)
        requires
            old(self).wf(),
        ensures
            final(self).wf(),
            ({
                let op = old(self).current_op();
                let device = R10BleAdvertisedDevice {
                    address: Some(R10_BLE_DEFAULT_TARGET_ADDRESS),
                    name: Some(R10_BLE_DEFAULT_ADVERTISED_NAME),
                };
                let hit = scan_decision_spec(
                    old(self).backend_spec().bridge_spec().probe_state().config.target,
                    device,
                ) != R10BleScanDecision::Ignored;
                let out = if hit {
                    stage_output(R10BleEsp32c3ProbeBackendState::Connecting, Stage::TargetSeen)
                } else {
                    stage_output(R10BleEsp32c3ProbeBackendState::Scanning, Stage::AdvertisementIgnored)
                };
                let phase = if hit { Phase::Matched } else { Phase::Scanning };
                &&& r == runner_result_spec(phase, op, Some(out), if hit { Status::Succeeded } else { Status::Ignored })
                &&& final(self).phase_spec() == phase
                &&& final(self).last_result_spec() == Some(r)
                &&& final(self).queue_spec() == old(self).queue_spec()
                &&& old(self).backend_spec().handled(
                    R10BleEsp32c3ProbeBackendEvent::Advertisement {
                        address: Some(R10_BLE_DEFAULT_TARGET_ADDRESS),
                        name: Some(R10_BLE_DEFAULT_ADVERTISED_NAME),
                    },
                    final(self).backend_spec(),
                )
            }),
    {
        self.on_advertisement(Some(R10_BLE_DEFAULT_TARGET_ADDRESS), Some(R10_BLE_DEFAULT_ADVERTISED_NAME))
    }

    /// A notify from the ring: while the runner awaits one, the backend logs
    /// it and the wait is done; at any other time it is ignored and nothing
    /// but the last result changes.
    pub fn on_notify(&mut self, payload: &[u8], now_ms: u64) -> (r: R10BleEsp32c3ProbeRunnerResult)
        requires
            old(self).wf(),
        ensures
            final(self).wf(),
            final(self).last_result_spec() == Some(r),
            ({
                let op = old(self).current_op();
                if op matches Some(Op::AwaitNotify { .. }) {
                    let k = classify_notify_spec(
                        old(self).backend_spec().bridge_spec().probe_state().runtime.handles,
                        R10_BLE_LIVE_NOTIFY_VALUE_HANDLE,
                        payload@,
                    );
                    let s = if notify_kind_valid(k) { Stage::NotifyReceived } else { Stage::NotifyIgnored };
                    &&& r == runner_result_spec(
                        Phase::Notified,
                        op,
                        Some(stage_output(R10BleEsp32c3ProbeBackendState::Notified, s)),
                        Status::Succeeded,
                    )
                    &&& final(self).phase_spec() == Phase::Notified
                    &&& old(self).advanced(*final(self))
                    &&& old(self).backend_spec().handled(
                        R10BleEsp32c3ProbeBackendEvent::Notify {
                            handle: R10_BLE_LIVE_NOTIFY_VALUE_HANDLE,
                            payload,
                            now_ms,
                        },
                        final(self).backend_spec(),
                    )
                } else {
                    &&& r == runner_result_spec(old(self).phase_spec(), op, None, Status::Ignored)
                    &&& final(self).phase_spec() == old(self).phase_spec()
                    &&& final(self).queue_spec() == old(self).queue_spec()
                    &&& final(self).backend_spec() == old(self).backend_spec()
                }
            }),
    {
        let operation = self.current_operation();
        let awaiting = match operation {
            Some(Op::AwaitNotify { .. }) => true,
            _ => false,
        };
        if !awaiting {
            return self.result(operation, None, Status::Ignored);
        }
        let backend_output = self.backend.handle_event(
            R10BleEsp32c3ProbeBackendEvent::Notify { handle: R10_BLE_LIVE_NOTIFY_VALUE_HANDLE, payload, now_ms },
        );
        let _ = self.queue.advance();
        self.phase = Phase::Notified;
        self.result(operation, Some(backend_output), Status::Succeeded)
    }
}

impl Default for R10BleEsp32c3ProbeRunner {
    fn default() -> (r: Self)
        ensures
            r.wf(),
            r.phase_spec() == Phase::Created,
            r.last_result_spec() is None,
            r.backend_spec().state_spec() == R10BleEsp32c3ProbeBackendState::Created,
            r.backend_spec().last_record_spec() is None,
            r.backend_spec().bridge_spec().stages().len() == 0,
            r.backend_spec().bridge_spec().dropped_count() == 0,
            probe_fresh(
                r.backend_spec().bridge_spec().probe_state(),
                r.backend_spec().bridge_spec().probe_state().config,
            ),
            live_r10_config(r.backend_spec().bridge_spec().probe_state().config),
            filled_with(r.queue_spec(), session_operations()),
    {
        Self::new()
    }
}

} // verus!
