//! The ESP32-C3 ProbeOnly operation queue: it turns backend states and plan
//! steps into the concrete BLE host operations a radio runner executes, and
//! keeps them in a bounded FIFO with a cursor.
use vstd::prelude::*;
use crate::monitor_label::label_safe;
use crate::monitor_label::r10_ble_device_task_monitor_label_is_safe as safe;
use crate::r10_ble_esp32c3_backend::{
    R10BleEsp32c3ProbeBackendOutput, R10BleEsp32c3ProbeBackendState,
    R10BleEsp32c3ProbeBackendStep, backend_plan, backend_state_label,
    r10_ble_esp32c3_probe_backend_plan,
};
use crate::r10_ble_transport::{
    R10BleCommand, R10_BLE_LIVE_NOTIFY_CCCD_HANDLE, R10_BLE_LIVE_NOTIFY_VALUE_HANDLE,
    R10_BLE_LIVE_WRITE_VALUE_HANDLE, R10_REMOTE_POLL_PACKET, R10_REMOTE_START_PACKET,
    command_packet, lemma_packet_array, packet_array,
};

verus! {

#[derive(Clone, Copy, Debug, PartialEq, Eq)]
pub enum R10BleEsp32c3ProbeOperation {
    InitRadio,
    BuildController,
    BuildHostStack,
    StartScan,
    ConnectTarget,
    DiscoverGatt,
    SubscribeCccd { cccd_handle: u16 },
    WriteRemoteStart { value_handle: u16, payload: &'static [u8] },
    WritePoll { value_handle: u16, payload: &'static [u8] },
    AwaitNotify { notify_handle: u16 },
    Backoff,
}

pub type Op = R10BleEsp32c3ProbeOperation;

/// The remote-start packet, as the payload slice an operation carries.
pub open spec fn start_payload() -> &'static [u8] {
    vstd::array::spec_array_as_slice(&R10_REMOTE_START_PACKET)
}

/// The poll packet, as the payload slice an operation carries.
pub open spec fn poll_payload() -> &'static [u8] {
    vstd::array::spec_array_as_slice(&R10_REMOTE_POLL_PACKET)
}

/// The operation payloads are the stock command packets.
pub proof fn lemma_operation_payloads()
    ensures
        start_payload()@ == command_packet(R10BleCommand::StartRemote),
        poll_payload()@ == command_packet(R10BleCommand::PollRemote),
{
    lemma_packet_array(R10BleCommand::StartRemote);
    lemma_packet_array(R10BleCommand::PollRemote);
    assert(packet_array(R10BleCommand::StartRemote) == R10_REMOTE_START_PACKET);
}

fn start_payload_exec() -> (r: &'static [u8])
    ensures
        r == start_payload(),
{
    &R10_REMOTE_START_PACKET
}

fn poll_payload_exec() -> (r: &'static [u8])
    ensures
        r == poll_payload(),
{
    &R10_REMOTE_POLL_PACKET
}

/// The live-contract subscribe operation.
pub open spec fn subscribe_op() -> Op {
    Op::SubscribeCccd { cccd_handle: R10_BLE_LIVE_NOTIFY_CCCD_HANDLE }
}

/// The live-contract remote-start write.
pub open spec fn remote_start_op() -> Op {
    Op::WriteRemoteStart { value_handle: R10_BLE_LIVE_WRITE_VALUE_HANDLE, payload: start_payload() }
}

/// The live-contract poll write.
pub open spec fn poll_op() -> Op {
    Op::WritePoll { value_handle: R10_BLE_LIVE_WRITE_VALUE_HANDLE, payload: poll_payload() }
}

/// The live-contract notify wait.
pub open spec fn await_notify_op() -> Op {
    Op::AwaitNotify { notify_handle: R10_BLE_LIVE_NOTIFY_VALUE_HANDLE }
}

pub open spec fn operation_label(op: Op) -> &'static str {
    match op {
        Op::InitRadio => "init_radio",
        Op::BuildController => "build_controller",
        Op::BuildHostStack => "build_host_stack",
        Op::StartScan => "start_scan",
        Op::ConnectTarget => "connect_target",
        Op::DiscoverGatt => "discover_gatt",
        Op::SubscribeCccd { .. } => "subscribe_cccd",
        Op::WriteRemoteStart { .. } => "write_remote_start",
        Op::WritePoll { .. } => "write_poll",
        Op::AwaitNotify { .. } => "await_notify",
        Op::Backoff => "backoff",
    }
}

/// An operation writes to the ring: the CCCD subscribe or a command write.
pub open spec fn operation_is_write(op: Op) -> bool {
    op is SubscribeCccd || op is WriteRemoteStart || op is WritePoll
}

/// The attribute handle an operation addresses, if it addresses one.
pub open spec fn operation_handle(op: Op) -> Option<u16> {
    match op {
        Op::SubscribeCccd { cccd_handle } => Some(cccd_handle),
        Op::WriteRemoteStart { value_handle, .. } => Some(value_handle),
        Op::WritePoll { value_handle, .. } => Some(value_handle),
        Op::AwaitNotify { notify_handle } => Some(notify_handle),
        _ => None,
    }
}

/// The bytes an operation writes, if it writes a command.
pub open spec fn operation_payload(op: Op) -> Option<&'static [u8]> {
    match op {
        Op::WriteRemoteStart { payload, .. } => Some(payload),
        Op::WritePoll { payload, .. } => Some(payload),
        _ => None,
    }
}

pub open spec fn handle_label_spec(op: Op) -> &'static str {
    match op {
        Op::SubscribeCccd { .. } => "notify_cccd",
        Op::WriteRemoteStart { .. } => "write_value",
        Op::WritePoll { .. } => "write_value",
        Op::AwaitNotify { .. } => "notify_value",
        _ => "none",
    }
}

pub open spec fn payload_label_spec(op: Op) -> &'static str {
    match op {
        Op::SubscribeCccd { .. } => "cccd_enable",
        Op::WriteRemoteStart { .. } => "remote_start",
        Op::WritePoll { .. } => "poll",
        _ => "none",
    }
}

impl R10BleEsp32c3ProbeOperation {
    pub fn as_str(&self) -> (r: &'static str)
        ensures
            r == operation_label(*self),
    {
        match self {
            Self::InitRadio => "init_radio",
            Self::BuildController => "build_controller",
            Self::BuildHostStack => "build_host_stack",
            Self::StartScan => "start_scan",
            Self::ConnectTarget => "connect_target",
            Self::DiscoverGatt => "discover_gatt",
            Self::SubscribeCccd { .. } => "subscribe_cccd",
            Self::WriteRemoteStart { .. } => "write_remote_start",
            Self::WritePoll { .. } => "write_poll",
            Self::AwaitNotify { .. } => "await_notify",
            Self::Backoff => "backoff",
        }
    }

    pub fn is_write(&self) -> (r: bool)
        ensures
            r == operation_is_write(*self),
    {
        match self {
            Self::SubscribeCccd { .. } | Self::WriteRemoteStart { .. } | Self::WritePoll { .. } => true,
            _ => false,
        }
    }

    /// No operation hands ring input to the Reader.
    pub fn is_reader_input_enabled(&self) -> (r: bool)
        ensures
            !r,
    {
        false
    }

    pub fn expected_handle(&self) -> (r: Option<u16>)
        ensures
            r == operation_handle(*self),
    {
        match self {
            Self::SubscribeCccd { cccd_handle } => Some(*cccd_handle),
            Self::WriteRemoteStart { value_handle, .. } => Some(*value_handle),
            Self::WritePoll { value_handle, .. } => Some(*value_handle),
            Self::AwaitNotify { notify_handle } => Some(*notify_handle),
            _ => None,
        }
    }

    pub fn payload(&self) -> (r: Option<&'static [u8]>)
        ensures
            r == operation_payload(*self),
    {
        match self {
            Self::WriteRemoteStart { payload, .. } => Some(*payload),
            Self::WritePoll { payload, .. } => Some(*payload),
            _ => None,
        }
    }
}

#[derive(Clone, Copy, Debug, PartialEq, Eq)]
pub struct R10BleEsp32c3ProbeOperationRecord {
    pub event: &'static str,
    pub target: &'static str,
    pub operation: &'static str,
    pub state: &'static str,
    pub handle: &'static str,
    pub payload: &'static str,
    pub reader: &'static str,
    pub status: &'static str,
}

/// The record that describes `op` while the backend is in `state`.
pub open spec fn operation_record_spec(op: Op, state: R10BleEsp32c3ProbeBackendState) -> R10BleEsp32c3ProbeOperationRecord {
    R10BleEsp32c3ProbeOperationRecord {
        event: "ble_operation",
        target: "esp_c",
        operation: operation_label(op),
        state: backend_state_label(state),
        handle: handle_label_spec(op),
        payload: payload_label_spec(op),
        reader: "reader_off",
        status: "ready",
    }
}

pub open spec fn operation_record_safe(r: R10BleEsp32c3ProbeOperationRecord) -> bool {
    &&& label_safe(r.event)
    &&& label_safe(r.target)
    &&& label_safe(r.operation)
    &&& label_safe(r.state)
    &&& label_safe(r.handle)
    &&& label_safe(r.payload)
    &&& label_safe(r.reader)
    &&& label_safe(r.status)
}

impl R10BleEsp32c3ProbeOperationRecord {
    pub fn from_operation(operation: R10BleEsp32c3ProbeOperation, state: R10BleEsp32c3ProbeBackendState) -> (r: Self)
        ensures
            r == operation_record_spec(operation, state),
    {
        Self {
            event: "ble_operation",
            target: "esp_c",
            operation: operation.as_str(),
            state: state.as_str(),
            handle: operation_handle_label(operation),
            payload: operation_payload_label(operation),
            reader: "reader_off",
            status: "ready",
        }
    }

    pub fn is_monitor_safe(&self) -> (r: bool)
        ensures
            r == operation_record_safe(*self),
    {
        safe(self.event) && safe(self.target) && safe(self.operation) && safe(self.state)
            && safe(self.handle) && safe(self.payload) && safe(self.reader) && safe(self.status)
    }
}

pub fn operation_handle_label(operation: R10BleEsp32c3ProbeOperation) -> (r: &'static str)
    ensures
        r == handle_label_spec(operation),
{
    match operation {
        R10BleEsp32c3ProbeOperation::SubscribeCccd { .. } => "notify_cccd",
        R10BleEsp32c3ProbeOperation::WriteRemoteStart { .. } => "write_value",
        R10BleEsp32c3ProbeOperation::WritePoll { .. } => "write_value",
        R10BleEsp32c3ProbeOperation::AwaitNotify { .. } => "notify_value",
        _ => "none",
    }
}

pub fn operation_payload_label(operation: R10BleEsp32c3ProbeOperation) -> (r: &'static str)
    ensures
        r == payload_label_spec(operation),
{
    match operation {
        R10BleEsp32c3ProbeOperation::SubscribeCccd { .. } => "cccd_enable",
        R10BleEsp32c3ProbeOperation::WriteRemoteStart { .. } => "remote_start",
        R10BleEsp32c3ProbeOperation::WritePoll { .. } => "poll",
        _ => "none",
    }
}

/// A bounded FIFO of operations: pushes beyond the capacity `N` are counted
/// as dropped, and a cursor marks the next operation to run.
#[derive(Clone, Debug, PartialEq, Eq)]
pub struct R10BleEsp32c3ProbeOperationQueue<const N: usize> {
    items: Vec<R10BleEsp32c3ProbeOperation>,
    cursor: usize,
    dropped: usize,
}

/// What a queue built by pushing `ops` into an empty queue of capacity `n`
/// holds: the operations that fit, in order, with the rest counted as dropped.
pub open spec fn filled_with<const N: usize>(q: R10BleEsp32c3ProbeOperationQueue<N>, ops: Seq<Op>) -> bool {
    let kept = if ops.len() <= N { ops.len() } else { N as nat };
    &&& q.wf()
    &&& q.operations() == ops.take(kept as int)
    &&& q.cursor_spec() == 0
    &&& q.dropped_spec() == ops.len() - kept
}

impl<const N: usize> R10BleEsp32c3ProbeOperationQueue<N> {
    pub closed spec fn wf(&self) -> bool {
        &&& self.items@.len() <= N
        &&& self.cursor <= self.items@.len()
    }

    /// The operations pushed so far, oldest first.
    pub closed spec fn operations(&self) -> Seq<Op> {
        self.items@
    }

    /// How many operations have been handed out.
    pub closed spec fn cursor_spec(&self) -> nat {
        self.cursor as nat
    }

    /// How many pushes found the queue full.
    pub closed spec fn dropped_spec(&self) -> nat {
        self.dropped as nat
    }

    pub fn new() -> (r: Self)
        ensures
            r.wf(),
            r.operations() == Seq::<Op>::empty(),
            r.cursor_spec() == 0,
            r.dropped_spec() == 0,
    {
        Self { items: Vec::new(), cursor: 0, dropped: 0 }
    }

    pub fn len(&self) -> (r: usize)
        ensures
            r == self.operations().len(),
    {
        self.items.len()
    }

    pub fn dropped(&self) -> (r: usize)
        ensures
            r == self.dropped_spec(),
    {
        self.dropped
    }

    /// How many pushed operations are still ahead of the cursor.
    pub fn remaining(&self) -> (r: usize)
        requires
            self.wf(),
        ensures
            r == self.operations().len() - self.cursor_spec(),
    {
        self.items.len() - self.cursor
    }

    pub fn is_empty(&self) -> (r: bool)
        requires
            self.wf(),
        ensures
            r == (self.cursor_spec() == self.operations().len()),
    {
        self.remaining() == 0
    }

    pub fn clear(&mut self)
        ensures
            final(self).wf(),
            final(self).operations() == Seq::<Op>::empty(),
            final(self).cursor_spec() == 0,
            final(self).dropped_spec() == 0,
    {
        self.items = Vec::new();
        self.cursor = 0;
        self.dropped = 0;
    }

    /// Appends an operation while there is room; a full queue counts it as
    /// dropped and reports `false`.
    pub fn push(&mut self, operation: R10BleEsp32c3ProbeOperation) -> (r: bool)
        requires
            old(self).wf(),
            old(self).operations().len() >= N ==> old(self).dropped_spec() < usize::MAX,
        ensures
            final(self).wf(),
            r == (old(self).operations().len() < N),
            final(self).cursor_spec() == old(self).cursor_spec(),
            r ==> final(self).operations() == old(self).operations().push(operation)
                && final(self).dropped_spec() == old(self).dropped_spec(),
            !r ==> final(self).operations() == old(self).operations()
                && final(self).dropped_spec() == old(self).dropped_spec() + 1,
    {
        if self.items.len() < N {
            self.items.push(operation);
            true
        } else {
            self.dropped = self.dropped + 1;
            false
        }
    }

    /// The operation at the cursor, if any is left.
    pub fn peek(&self) -> (r: Option<R10BleEsp32c3ProbeOperation>)
        requires
            self.wf(),
        ensures
            r == (if self.cursor_spec() < self.operations().len() {
                Some(self.operations()[self.cursor_spec() as int])
            } else {
                None
            }),
    {
        if self.cursor < self.items.len() {
            Some(self.items[self.cursor])
        } else {
            None
        }
    }

    /// Hands out the operation at the cursor and moves past it.
    pub fn advance(&mut self) -> (r: Option<R10BleEsp32c3ProbeOperation>)
        requires
            old(self).wf(),
        ensures
            final(self).wf(),
            final(self).operations() == old(self).operations(),
            final(self).dropped_spec() == old(self).dropped_spec(),
            r == (if old(self).cursor_spec() < old(self).operations().len() {
                Some(old(self).operations()[old(self).cursor_spec() as int])
            } else {
                None
            }),
            final(self).cursor_spec() == if r is Some {
                old(self).cursor_spec() + 1
            } else {
                old(self).cursor_spec()
            },
    {
        let current = self.peek();
        if current.is_some() {
            self.cursor = self.cursor + 1;
        }
        current
    }

    pub fn operation_at(&self, index: usize) -> (r: Option<R10BleEsp32c3ProbeOperation>)
        ensures
            r == (if index < self.operations().len() {
                Some(self.operations()[index as int])
            } else {
                None
            }),
    {
        if index < self.items.len() {
            Some(self.items[index])
        } else {
            None
        }
    }

    pub fn record_at(&self, index: usize, state: R10BleEsp32c3ProbeBackendState) -> (r: Option<R10BleEsp32c3ProbeOperationRecord>)
        ensures
            r == (if index < self.operations().len() {
                Some(operation_record_spec(self.operations()[index as int], state))
            } else {
                None
            }),
    {
        match self.operation_at(index) {
            Some(operation) => Some(R10BleEsp32c3ProbeOperationRecord::from_operation(operation, state)),
            None => None,
        }
    }

    /// A queue filled by pushing `ops` in order into an empty queue.
    fn filled(ops: &[Op]) -> (r: Self)
        ensures
            filled_with(r, ops@),
    {
        let mut queue = Self::new();
        let mut i: usize = 0;
        assert(ops@.take(0) =~= Seq::<Op>::empty());
        assert(ops@.take(0).take(0) =~= Seq::<Op>::empty());
        while i < ops.len()
            invariant
                i <= ops@.len(),
                filled_with(queue, ops@.take(i as int)),
            decreases ops@.len() - i,
        {
            proof {
                assert(queue.dropped_spec() <= i);
            }
            let _ = queue.push(ops[i]);
            proof {
                let prefix = ops@.take(i as int);
                let next = ops@.take(i + 1);
                assert(next == prefix.push(ops@[i as int]));
                if i < N {
                    assert(queue.operations() =~= next.take((i + 1) as int));
                } else {
                    assert(next.take(N as int) =~= prefix.take(N as int));
                }
            }
            i = i + 1;
        }
        assert(ops@.take(ops@.len() as int) =~= ops@);
        queue
    }
}

impl Default for R10BleEsp32c3ProbeOperationQueue<12> {
    fn default() -> (r: Self)
        ensures
            r.wf(),
            r.operations() == Seq::<Op>::empty(),
            r.cursor_spec() == 0,
            r.dropped_spec() == 0,
    {
        Self::new()
    }
}

/// The bring-up operations: radio, controller, host stack, scan.
pub open spec fn initial_operations() -> Seq<Op> {
    seq![Op::InitRadio, Op::BuildController, Op::BuildHostStack, Op::StartScan]
}

/// A whole probe session: bring-up, then connect, discover, subscribe,
/// remote start, poll, and the wait for a notify.
pub open spec fn session_operations() -> Seq<Op> {
    initial_operations() + seq![
        Op::ConnectTarget,
        Op::DiscoverGatt,
        subscribe_op(),
        remote_start_op(),
        poll_op(),
        await_notify_op(),
    ]
}

pub fn r10_ble_esp32c3_probe_initial_operation_queue<const N: usize>() -> (r: R10BleEsp32c3ProbeOperationQueue<N>)
    ensures
        filled_with(r, initial_operations()),
{
    let ops = [Op::InitRadio, Op::BuildController, Op::BuildHostStack, Op::StartScan];
    let q = R10BleEsp32c3ProbeOperationQueue::<N>::filled(ops.as_slice());
    assert(ops@ =~= initial_operations());
    q
}

pub fn r10_ble_esp32c3_probe_session_operation_queue<const N: usize>() -> (r: R10BleEsp32c3ProbeOperationQueue<N>)
    ensures
        filled_with(r, session_operations()),
{
    let ops = [
        Op::InitRadio,
        Op::BuildController,
        Op::BuildHostStack,
        Op::StartScan,
        Op::ConnectTarget,
        Op::DiscoverGatt,
        Op::SubscribeCccd { cccd_handle: R10_BLE_LIVE_NOTIFY_CCCD_HANDLE },
        Op::WriteRemoteStart { value_handle: R10_BLE_LIVE_WRITE_VALUE_HANDLE, payload: start_payload_exec() },
        Op::WritePoll { value_handle: R10_BLE_LIVE_WRITE_VALUE_HANDLE, payload: poll_payload_exec() },
        Op::AwaitNotify { notify_handle: R10_BLE_LIVE_NOTIFY_VALUE_HANDLE },
    ];
    let q = R10BleEsp32c3ProbeOperationQueue::<N>::filled(ops.as_slice());
    assert(ops@ =~= session_operations());
    q
}

/// The operation the runner performs next in each backend state; none once
/// the backend completed.
pub open spec fn operation_for_state_spec(state: R10BleEsp32c3ProbeBackendState) -> Option<Op> {
    match state {
        R10BleEsp32c3ProbeBackendState::Created => Some(Op::InitRadio),
        R10BleEsp32c3ProbeBackendState::AdapterReady => Some(Op::StartScan),
        R10BleEsp32c3ProbeBackendState::Scanning => Some(Op::StartScan),
        R10BleEsp32c3ProbeBackendState::Connecting => Some(Op::ConnectTarget),
        R10BleEsp32c3ProbeBackendState::Discovering => Some(Op::DiscoverGatt),
        R10BleEsp32c3ProbeBackendState::Subscribing => Some(subscribe_op()),
        R10BleEsp32c3ProbeBackendState::StartingRemote => Some(remote_start_op()),
        R10BleEsp32c3ProbeBackendState::Polling => Some(poll_op()),
        R10BleEsp32c3ProbeBackendState::Notified => Some(await_notify_op()),
        R10BleEsp32c3ProbeBackendState::Backoff => Some(Op::Backoff),
        R10BleEsp32c3ProbeBackendState::Completed => None,
    }
}

pub fn r10_ble_esp32c3_probe_operation_for_state(state: R10BleEsp32c3ProbeBackendState) -> (r: Option<R10BleEsp32c3ProbeOperation>)
    ensures
        r == operation_for_state_spec(state),
{
    match state {
        R10BleEsp32c3ProbeBackendState::Created => Some(Op::InitRadio),
        R10BleEsp32c3ProbeBackendState::AdapterReady => Some(Op::StartScan),
        R10BleEsp32c3ProbeBackendState::Scanning => Some(Op::StartScan),
        R10BleEsp32c3ProbeBackendState::Connecting => Some(Op::ConnectTarget),
        R10BleEsp32c3ProbeBackendState::Discovering => Some(Op::DiscoverGatt),
        R10BleEsp32c3ProbeBackendState::Subscribing => Some(
            Op::SubscribeCccd { cccd_handle: R10_BLE_LIVE_NOTIFY_CCCD_HANDLE },
        ),
        R10BleEsp32c3ProbeBackendState::StartingRemote => Some(
            Op::WriteRemoteStart { value_handle: R10_BLE_LIVE_WRITE_VALUE_HANDLE, payload: start_payload_exec() },
        ),
        R10BleEsp32c3ProbeBackendState::Polling => Some(
            Op::WritePoll { value_handle: R10_BLE_LIVE_WRITE_VALUE_HANDLE, payload: poll_payload_exec() },
        ),
        R10BleEsp32c3ProbeBackendState::Notified => Some(
            Op::AwaitNotify { notify_handle: R10_BLE_LIVE_NOTIFY_VALUE_HANDLE },
        ),
        R10BleEsp32c3ProbeBackendState::Backoff => Some(Op::Backoff),
        R10BleEsp32c3ProbeBackendState::Completed => None,
    }
}

pub fn r10_ble_esp32c3_probe_operation_after_output(output: R10BleEsp32c3ProbeBackendOutput) -> (r: Option<R10BleEsp32c3ProbeOperation>)
    ensures
        r == operation_for_state_spec(output.state),
{
    r10_ble_esp32c3_probe_operation_for_state(output.state)
}

/// The operation that carries out one step of the backend plan.
pub open spec fn step_operation_spec(step: R10BleEsp32c3ProbeBackendStep) -> Op {
    match step {
        R10BleEsp32c3ProbeBackendStep::InitRadio => Op::InitRadio,
        R10BleEsp32c3ProbeBackendStep::BuildController => Op::BuildController,
        R10BleEsp32c3ProbeBackendStep::BuildHostStack => Op::BuildHostStack,
        R10BleEsp32c3ProbeBackendStep::StartScan => Op::StartScan,
        R10BleEsp32c3ProbeBackendStep::ConnectMatched => Op::ConnectTarget,
        R10BleEsp32c3ProbeBackendStep::DiscoverGatt => Op::DiscoverGatt,
        R10BleEsp32c3ProbeBackendStep::SubscribeNotify => subscribe_op(),
        R10BleEsp32c3ProbeBackendStep::WriteRemoteStart => remote_start_op(),
        R10BleEsp32c3ProbeBackendStep::PollAndNotify => await_notify_op(),
    }
}

pub fn r10_ble_esp32c3_probe_step_operation(step: R10BleEsp32c3ProbeBackendStep) -> (r: R10BleEsp32c3ProbeOperation)
    ensures
        r == step_operation_spec(step),
{
    match step {
        R10BleEsp32c3ProbeBackendStep::InitRadio => Op::InitRadio,
        R10BleEsp32c3ProbeBackendStep::BuildController => Op::BuildController,
        R10BleEsp32c3ProbeBackendStep::BuildHostStack => Op::BuildHostStack,
        R10BleEsp32c3ProbeBackendStep::StartScan => Op::StartScan,
        R10BleEsp32c3ProbeBackendStep::ConnectMatched => Op::ConnectTarget,
        R10BleEsp32c3ProbeBackendStep::DiscoverGatt => Op::DiscoverGatt,
        R10BleEsp32c3ProbeBackendStep::SubscribeNotify => Op::SubscribeCccd {
            cccd_handle: R10_BLE_LIVE_NOTIFY_CCCD_HANDLE,
        },
        R10BleEsp32c3ProbeBackendStep::WriteRemoteStart => Op::WriteRemoteStart {
            value_handle: R10_BLE_LIVE_WRITE_VALUE_HANDLE,
            payload: start_payload_exec(),
        },
        R10BleEsp32c3ProbeBackendStep::PollAndNotify => Op::AwaitNotify {
            notify_handle: R10_BLE_LIVE_NOTIFY_VALUE_HANDLE,
        },
    }
}

/// The backend plan, step by step, as operations.
pub open spec fn plan_operations() -> Seq<Op> {
    backend_plan().map_values(|s: R10BleEsp32c3ProbeBackendStep| step_operation_spec(s))
}

pub fn r10_ble_esp32c3_probe_plan_operation_queue<const N: usize>() -> (r: R10BleEsp32c3ProbeOperationQueue<N>)
    ensures
        filled_with(r, plan_operations()),
{
    let plan = r10_ble_esp32c3_probe_backend_plan();
    let mut ops: Vec<Op> = Vec::new();
    let mut i: usize = 0;
    while i < plan.len()
        invariant
            i <= plan@.len(),
            plan@ == backend_plan(),
            ops@ == plan_operations().take(i as int),
        decreases plan@.len() - i,
    {
        ops.push(r10_ble_esp32c3_probe_step_operation(plan[i]));
        proof {
            assert(ops@ =~= plan_operations().take(i + 1));
        }
        i = i + 1;
    }
    assert(ops@ =~= plan_operations());
    R10BleEsp32c3ProbeOperationQueue::<N>::filled(ops.as_slice())
}

} // verus!
