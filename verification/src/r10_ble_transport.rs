//! COLMI R10 BLE transport contract: the GATT UUIDs and handles, the writes
//! that start, poll and stop remote mode, the notify gate, and the session
//! timer that paces polls.
use vstd::prelude::*;
use crate::r10_protocol::{payload2_bytes, classify_spec, R10RemotePacketKind};
use crate::r10_remote_policy::{R10RemoteAction, R10RemotePolicy};
use crate::byte_text::{bytes_eq, bytes_start_with, starts_with_spec};
use vstd::string::StringSliceAdditionalSpecFns;

verus! {

pub const R10_BLE_SERVICE_UUID: &'static str = "6e40fff0-b5a3-f393-e0a9-e50e24dcca9e";

pub const R10_BLE_WRITE_UUID: &'static str = "6e400002-b5a3-f393-e0a9-e50e24dcca9e";

pub const R10_BLE_NOTIFY_UUID: &'static str = "6e400003-b5a3-f393-e0a9-e50e24dcca9e";

pub const R10_BLE_POLL_INTERVAL_MS: u64 = 1_000;

pub const R10_BLE_RECONNECT_BACKOFF_MS: u64 = 3_000;

pub const R10_BLE_NOTIFY_CCCD_ENABLE: [u8; 2] = [0x01, 0x00];

pub const R10_BLE_NOTIFY_CCCD_DISABLE: [u8; 2] = [0x00, 0x00];

pub const R10_REMOTE_START_PACKET: [u8; 16] = [0x02, 0x04, 0, 0, 0, 0, 0, 0, 0, 0, 0, 0, 0, 0, 0, 0x06];

pub const R10_REMOTE_POLL_PACKET: [u8; 16] = [0x02, 0x05, 0, 0, 0, 0, 0, 0, 0, 0, 0, 0, 0, 0, 0, 0x07];

pub const R10_REMOTE_STOP_PACKET: [u8; 16] = [0x02, 0x06, 0, 0, 0, 0, 0, 0, 0, 0, 0, 0, 0, 0, 0, 0x08];

#[derive(Clone, Copy, Debug, PartialEq, Eq, Structural)]
pub enum R10BleGattDiscoveryEvent {
    Service { start_handle: u16, end_handle: u16 },
    WriteCharacteristic { value_handle: u16 },
    NotifyCharacteristic { value_handle: u16 },
    NotifyCccd { handle: u16 },
}

#[derive(Clone, Copy, Debug, Default, PartialEq, Eq, Structural)]
pub struct R10BleGattHandles {
    pub service_start_handle: Option<u16>,
    pub service_end_handle: Option<u16>,
    pub write_value_handle: Option<u16>,
    pub notify_value_handle: Option<u16>,
    pub notify_cccd_handle: Option<u16>,
}

#[derive(Clone, Copy, Debug, PartialEq, Eq)]
pub enum R10BleGattNotifyGate {
    Accepted([u8; 16]),
    WrongHandle { expected: Option<u16>, actual: u16 },
    WrongLength { actual: usize },
}

#[derive(Clone, Copy, Debug, PartialEq, Eq)]
pub enum R10BleGattNotifyPolicyResult {
    Rejected(R10BleGattNotifyGate),
    Accepted(R10RemoteAction),
}

#[derive(Clone, Copy, Debug, PartialEq, Eq)]
pub enum R10BleGattOperation {
    WriteCccd { handle: u16, value: [u8; 2] },
    WriteRemoteCommand { handle: u16, command: R10BleCommand },
}

#[derive(Clone, Copy, Debug, PartialEq, Eq)]
pub enum R10BleGattWritePayload {
    Cccd([u8; 2]),
    RemoteCommand([u8; 16]),
}

#[derive(Clone, Copy, Debug, PartialEq, Eq, Structural)]
pub enum R10BleGattWriteMode {
    WithResponse,
    WithoutResponse,
}

#[derive(Clone, Copy, Debug, PartialEq, Eq)]
pub struct R10BleGattWrite {
    pub handle: u16,
    pub payload: R10BleGattWritePayload,
    pub mode: R10BleGattWriteMode,
}

#[derive(Clone, Copy, Debug, PartialEq, Eq, Structural)]
pub enum R10BleCommand {
    StartRemote,
    PollRemote,
    StopRemote,
}

/// The packet a remote command writes.
pub open spec fn command_packet(command: R10BleCommand) -> Seq<u8> {
    match command {
        R10BleCommand::StartRemote => payload2_bytes(0x02, 0x04),
        R10BleCommand::PollRemote => payload2_bytes(0x02, 0x05),
        R10BleCommand::StopRemote => payload2_bytes(0x02, 0x06),
    }
}

impl R10BleCommand {
    /// The stock 16-byte packet of this command.
    pub fn packet(self) -> (r: &'static [u8; 16])
        ensures
            r@ == command_packet(self),
    {
        match self {
            Self::StartRemote => {
                assert(R10_REMOTE_START_PACKET@ =~= payload2_bytes(0x02, 0x04));
                &R10_REMOTE_START_PACKET
            },
            Self::PollRemote => {
                assert(R10_REMOTE_POLL_PACKET@ =~= payload2_bytes(0x02, 0x05));
                &R10_REMOTE_POLL_PACKET
            },
            Self::StopRemote => {
                assert(R10_REMOTE_STOP_PACKET@ =~= payload2_bytes(0x02, 0x06));
                &R10_REMOTE_STOP_PACKET
            },
        }
    }
}

/// The bytes a write payload carries.
pub open spec fn payload_bytes(p: R10BleGattWritePayload) -> Seq<u8> {
    match p {
        R10BleGattWritePayload::Cccd(v) => v@,
        R10BleGattWritePayload::RemoteCommand(v) => v@,
    }
}

impl R10BleGattWritePayload {
    pub fn as_slice(&self) -> (r: &[u8])
        ensures
            r@ == payload_bytes(*self),
    {
        match self {
            Self::Cccd(value) => value.as_slice(),
            Self::RemoteCommand(value) => value.as_slice(),
        }
    }

    pub fn len(&self) -> (r: usize)
        ensures
            r == payload_bytes(*self).len(),
    {
        match self {
            Self::Cccd(_) => 2,
            Self::RemoteCommand(_) => 16,
        }
    }
}

impl R10BleGattWrite {
    pub fn payload(&self) -> (r: &[u8])
        ensures
            r@ == payload_bytes(self.payload),
    {
        self.payload.as_slice()
    }

    pub fn payload_len(&self) -> (r: usize)
        ensures
            r == payload_bytes(self.payload).len(),
    {
        self.payload.len()
    }

    pub fn write_mode(&self) -> (r: R10BleGattWriteMode)
        ensures
            r == self.mode,
    {
        self.mode
    }
}

/// The write an operation turns into: a CCCD value is written with response,
/// a remote command's stock packet without.
pub open spec fn write_of(op: R10BleGattOperation) -> R10BleGattWrite {
    match op {
        R10BleGattOperation::WriteCccd { handle, value } => R10BleGattWrite {
            handle,
            payload: R10BleGattWritePayload::Cccd(value),
            mode: R10BleGattWriteMode::WithResponse,
        },
        R10BleGattOperation::WriteRemoteCommand { handle, command } => R10BleGattWrite {
            handle,
            payload: R10BleGattWritePayload::RemoteCommand(
                packet_array(command),
            ),
            mode: R10BleGattWriteMode::WithoutResponse,
        },
    }
}

/// The stock packet of a command as an array.
pub open spec fn packet_array(command: R10BleCommand) -> [u8; 16] {
    match command {
        R10BleCommand::StartRemote => R10_REMOTE_START_PACKET,
        R10BleCommand::PollRemote => R10_REMOTE_POLL_PACKET,
        R10BleCommand::StopRemote => R10_REMOTE_STOP_PACKET,
    }
}

/// The packets the transport writes are the protocol's command packets.
pub proof fn lemma_packet_array(command: R10BleCommand)
    ensures
        packet_array(command)@ == command_packet(command),
{
    assert(R10_REMOTE_START_PACKET@ =~= payload2_bytes(0x02, 0x04));
    assert(R10_REMOTE_POLL_PACKET@ =~= payload2_bytes(0x02, 0x05));
    assert(R10_REMOTE_STOP_PACKET@ =~= payload2_bytes(0x02, 0x06));
}

impl R10BleGattOperation {
    pub fn to_write(self) -> (r: R10BleGattWrite)
        ensures
            r == write_of(self),
            payload_bytes(r.payload) == (match self {
                R10BleGattOperation::WriteCccd { value, .. } => value@,
                R10BleGattOperation::WriteRemoteCommand { command, .. } => command_packet(command),
            }),
    {
        proof {
            match self {
                R10BleGattOperation::WriteRemoteCommand { command, .. } => lemma_packet_array(command),
                _ => {},
            }
        }
        match self {
            Self::WriteCccd { handle, value } => R10BleGattWrite {
                handle,
                payload: R10BleGattWritePayload::Cccd(value),
                mode: R10BleGattWriteMode::WithResponse,
            },
            Self::WriteRemoteCommand { handle, command } => {
                let packet: [u8; 16] = *command.packet();
                assert(packet =~= packet_array(command));
                R10BleGattWrite {
                    handle,
                    payload: R10BleGattWritePayload::RemoteCommand(packet),
                    mode: R10BleGattWriteMode::WithoutResponse,
                }
            },
        }
    }
}

/// A handle lies inside the discovered service range.
pub open spec fn in_service(h: R10BleGattHandles, handle: u16) -> bool {
    match (h.service_start_handle, h.service_end_handle) {
        (Some(start), Some(end)) => start <= handle && handle <= end,
        _ => false,
    }
}

/// An optional handle is resolved and inside the service range.
pub open spec fn handle_ready(h: R10BleGattHandles, handle: Option<u16>) -> bool {
    match handle {
        Some(x) => in_service(h, x),
        None => false,
    }
}

pub open spec fn service_range_valid_spec(h: R10BleGattHandles) -> bool {
    match (h.service_start_handle, h.service_end_handle) {
        (Some(start), Some(end)) => start != 0 && start <= end,
        _ => false,
    }
}

/// All handles the remote contract needs are resolved and consistent.
pub open spec fn handles_complete(h: R10BleGattHandles) -> bool {
    &&& service_range_valid_spec(h)
    &&& handle_ready(h, h.write_value_handle)
    &&& handle_ready(h, h.notify_value_handle)
    &&& handle_ready(h, h.notify_cccd_handle)
}

/// The CCCD write with `value`, when the CCCD handle is usable.
pub open spec fn cccd_operation(h: R10BleGattHandles, value: [u8; 2]) -> Option<R10BleGattOperation> {
    match h.notify_cccd_handle {
        Some(x) => if in_service(h, x) {
            Some(R10BleGattOperation::WriteCccd { handle: x, value })
        } else {
            None
        },
        None => None,
    }
}

/// The command write, when the write handle is usable.
pub open spec fn command_operation(h: R10BleGattHandles, command: R10BleCommand) -> Option<R10BleGattOperation> {
    match h.write_value_handle {
        Some(x) => if in_service(h, x) {
            Some(R10BleGattOperation::WriteRemoteCommand { handle: x, command })
        } else {
            None
        },
        None => None,
    }
}

/// Start and poll need the complete contract; stop needs only the write handle.
pub open spec fn gated_command_operation(h: R10BleGattHandles, command: R10BleCommand) -> Option<R10BleGattOperation> {
    if handles_complete(h) {
        command_operation(h, command)
    } else {
        None
    }
}

/// The startup pair: subscribe to notifications, then start remote mode.
pub open spec fn startup_operations_spec(h: R10BleGattHandles) -> Option<[R10BleGattOperation; 2]> {
    match (cccd_operation(h, R10_BLE_NOTIFY_CCCD_ENABLE), gated_command_operation(h, R10BleCommand::StartRemote)) {
        (Some(a), Some(b)) => Some([a, b]),
        _ => None,
    }
}

/// `g` is the answer of the notify gate: a notify on any handle but the
/// notify value handle is refused as wrong-handle, a payload that is not 16
/// bytes long as wrong-length, anything else is accepted as its 16 bytes.
pub open spec fn gate_spec(h: R10BleGattHandles, handle: u16, payload: Seq<u8>, g: R10BleGattNotifyGate) -> bool {
    if h.notify_value_handle != Some(handle) {
        g == R10BleGattNotifyGate::WrongHandle { expected: h.notify_value_handle, actual: handle }
    } else if payload.len() != 16 {
        g == R10BleGattNotifyGate::WrongLength { actual: payload.len() as usize }
    } else {
        g matches R10BleGattNotifyGate::Accepted(p) && p@ == payload
    }
}

impl R10BleGattHandles {
    /// No handle discovered yet.
    pub open spec fn spec_unresolved() -> Self {
        R10BleGattHandles {
            service_start_handle: None,
            service_end_handle: None,
            write_value_handle: None,
            notify_value_handle: None,
            notify_cccd_handle: None,
        }
    }

    pub fn unresolved() -> (r: Self)
        ensures
            r == Self::spec_unresolved(),
    {
        Self {
            service_start_handle: None,
            service_end_handle: None,
            write_value_handle: None,
            notify_value_handle: None,
            notify_cccd_handle: None,
        }
    }

    /// All five handles resolved.
    pub open spec fn spec_new(
        service_start_handle: u16,
        service_end_handle: u16,
        write_value_handle: u16,
        notify_value_handle: u16,
        notify_cccd_handle: u16,
    ) -> Self {
        R10BleGattHandles {
            service_start_handle: Some(service_start_handle),
            service_end_handle: Some(service_end_handle),
            write_value_handle: Some(write_value_handle),
            notify_value_handle: Some(notify_value_handle),
            notify_cccd_handle: Some(notify_cccd_handle),
        }
    }

    pub fn new(
        service_start_handle: u16,
        service_end_handle: u16,
        write_value_handle: u16,
        notify_value_handle: u16,
        notify_cccd_handle: u16,
    ) -> (r: Self)
        ensures
            r.service_start_handle == Some(service_start_handle),
            r.service_end_handle == Some(service_end_handle),
            r.write_value_handle == Some(write_value_handle),
            r.notify_value_handle == Some(notify_value_handle),
            r.notify_cccd_handle == Some(notify_cccd_handle),
    {
        Self {
            service_start_handle: Some(service_start_handle),
            service_end_handle: Some(service_end_handle),
            write_value_handle: Some(write_value_handle),
            notify_value_handle: Some(notify_value_handle),
            notify_cccd_handle: Some(notify_cccd_handle),
        }
    }

    /// Records one GATT discovery result; the fields it does not name keep
    /// their value.
    pub fn apply_discovery_event(&mut self, event: R10BleGattDiscoveryEvent)
        ensures
            *final(self) == discovery_applied(*old(self), event),
    {
        match event {
            R10BleGattDiscoveryEvent::Service { start_handle, end_handle } => {
                self.service_start_handle = Some(start_handle);
                self.service_end_handle = Some(end_handle);
            },
            R10BleGattDiscoveryEvent::WriteCharacteristic { value_handle } => {
                self.write_value_handle = Some(value_handle);
            },
            R10BleGattDiscoveryEvent::NotifyCharacteristic { value_handle } => {
                self.notify_value_handle = Some(value_handle);
            },
            R10BleGattDiscoveryEvent::NotifyCccd { handle } => {
                self.notify_cccd_handle = Some(handle);
            },
        }
    }

    pub fn with_discovery_event(self, event: R10BleGattDiscoveryEvent) -> (r: Self)
        ensures
            r == discovery_applied(self, event),
    {
        let mut handles = self;
        handles.apply_discovery_event(event);
        handles
    }

    /// The service range is known, starts above zero and is not inverted.
    pub fn service_range_valid(&self) -> (r: bool)
        ensures
            r == service_range_valid_spec(*self),
    {
        match (self.service_start_handle, self.service_end_handle) {
            (Some(start), Some(end)) => start != 0 && start <= end,
            _ => false,
        }
    }

    pub fn contains_handle(&self, handle: u16) -> (r: bool)
        ensures
            r == in_service(*self, handle),
    {
        match (self.service_start_handle, self.service_end_handle) {
            (Some(start), Some(end)) => start <= handle && handle <= end,
            _ => false,
        }
    }

    fn optional_ready(&self, handle: Option<u16>) -> (r: bool)
        ensures
            r == handle_ready(*self, handle),
    {
        match handle {
            Some(h) => self.contains_handle(h),
            None => false,
        }
    }

    pub fn write_handle_ready(&self) -> (r: bool)
        ensures
            r == handle_ready(*self, self.write_value_handle),
    {
        self.optional_ready(self.write_value_handle)
    }

    pub fn notify_handle_ready(&self) -> (r: bool)
        ensures
            r == handle_ready(*self, self.notify_value_handle),
    {
        self.optional_ready(self.notify_value_handle)
    }

    pub fn notify_cccd_ready(&self) -> (r: bool)
        ensures
            r == handle_ready(*self, self.notify_cccd_handle),
    {
        self.optional_ready(self.notify_cccd_handle)
    }

    pub fn is_complete(&self) -> (r: bool)
        ensures
            r == handles_complete(*self),
    {
        self.service_range_valid() && self.write_handle_ready() && self.notify_handle_ready()
            && self.notify_cccd_ready()
    }

    pub fn can_start_remote_mode(&self) -> (r: bool)
        ensures
            r == handles_complete(*self),
    {
        self.is_complete()
    }

    fn cccd_write_operation(&self, value: [u8; 2]) -> (r: Option<R10BleGattOperation>)
        ensures
            r == cccd_operation(*self, value),
    {
        match self.notify_cccd_handle {
            Some(handle) => if self.contains_handle(handle) {
                Some(R10BleGattOperation::WriteCccd { handle, value })
            } else {
                None
            },
            None => None,
        }
    }

    /// Subscribe: write `01 00` to the CCCD, when its handle is usable.
    pub fn enable_notify_operation(&self) -> (r: Option<R10BleGattOperation>)
        ensures
            r == cccd_operation(*self, R10_BLE_NOTIFY_CCCD_ENABLE),
    {
        self.cccd_write_operation(R10_BLE_NOTIFY_CCCD_ENABLE)
    }

    /// Unsubscribe: write `00 00` to the CCCD, when its handle is usable.
    pub fn disable_notify_operation(&self) -> (r: Option<R10BleGattOperation>)
        ensures
            r == cccd_operation(*self, R10_BLE_NOTIFY_CCCD_DISABLE),
    {
        self.cccd_write_operation(R10_BLE_NOTIFY_CCCD_DISABLE)
    }

    pub fn remote_command_operation(&self, command: R10BleCommand) -> (r: Option<R10BleGattOperation>)
        ensures
            r == command_operation(*self, command),
    {
        match self.write_value_handle {
            Some(handle) => if self.contains_handle(handle) {
                Some(R10BleGattOperation::WriteRemoteCommand { handle, command })
            } else {
                None
            },
            None => None,
        }
    }

    pub fn start_remote_operation(&self) -> (r: Option<R10BleGattOperation>)
        ensures
            r == gated_command_operation(*self, R10BleCommand::StartRemote),
    {
        if self.can_start_remote_mode() {
            self.remote_command_operation(R10BleCommand::StartRemote)
        } else {
            None
        }
    }

    pub fn poll_remote_operation(&self) -> (r: Option<R10BleGattOperation>)
        ensures
            r == gated_command_operation(*self, R10BleCommand::PollRemote),
    {
        if self.can_start_remote_mode() {
            self.remote_command_operation(R10BleCommand::PollRemote)
        } else {
            None
        }
    }

    /// Stopping needs only a usable write handle, so a half-discovered ring
    /// can still be told to leave remote mode.
    pub fn stop_remote_operation(&self) -> (r: Option<R10BleGattOperation>)
        ensures
            r == command_operation(*self, R10BleCommand::StopRemote),
    {
        self.remote_command_operation(R10BleCommand::StopRemote)
    }

    /// Subscribe first, then start remote mode.
    pub fn startup_operations(&self) -> (r: Option<[R10BleGattOperation; 2]>)
        ensures
            r == startup_operations_spec(*self),
    {
        let enable = self.enable_notify_operation();
        let start = self.start_remote_operation();
        match (enable, start) {
            (Some(a), Some(b)) => Some([a, b]),
            _ => None,
        }
    }

    pub fn startup_writes(&self) -> (r: Option<[R10BleGattWrite; 2]>)
        ensures
            r == (match startup_operations_spec(*self) {
                Some(ops) => Some([write_of(ops[0]), write_of(ops[1])]),
                None => None,
            }),
    {
        match self.startup_operations() {
            Some(ops) => {
                let a = ops[0].to_write();
                let b = ops[1].to_write();
                Some([a, b])
            },
            None => None,
        }
    }

    pub fn poll_write(&self) -> (r: Option<R10BleGattWrite>)
        ensures
            r == (match gated_command_operation(*self, R10BleCommand::PollRemote) {
                Some(op) => Some(write_of(op)),
                None => None,
            }),
    {
        match self.poll_remote_operation() {
            Some(op) => Some(op.to_write()),
            None => None,
        }
    }

    pub fn stop_write(&self) -> (r: Option<R10BleGattWrite>)
        ensures
            r == (match command_operation(*self, R10BleCommand::StopRemote) {
                Some(op) => Some(write_of(op)),
                None => None,
            }),
    {
        match self.stop_remote_operation() {
            Some(op) => Some(op.to_write()),
            None => None,
        }
    }

    /// Stop remote mode first, then unsubscribe.
    pub fn shutdown_writes(&self) -> (r: Option<[R10BleGattWrite; 2]>)
        ensures
            r == (match (command_operation(*self, R10BleCommand::StopRemote), cccd_operation(*self, R10_BLE_NOTIFY_CCCD_DISABLE)) {
                (Some(a), Some(b)) => Some([write_of(a), write_of(b)]),
                _ => None,
            }),
    {
        let stop = self.stop_remote_operation();
        let disable = self.disable_notify_operation();
        match (stop, disable) {
            (Some(a), Some(b)) => {
                let wa = a.to_write();
                let wb = b.to_write();
                Some([wa, wb])
            },
            _ => None,
        }
    }

    /// Lets a notify through only on the notify value handle and only with a
    /// 16-byte payload.
    pub fn gate_notify(&self, handle: u16, payload: &[u8]) -> (r: R10BleGattNotifyGate)
        ensures
            gate_spec(*self, handle, payload@, r),
    {
        let expected = self.notify_value_handle;
        let matches_handle = match expected {
            Some(h) => h == handle,
            None => false,
        };
        if !matches_handle {
            return R10BleGattNotifyGate::WrongHandle { expected, actual: handle };
        }
        if payload.len() != 16 {
            return R10BleGattNotifyGate::WrongLength { actual: payload.len() };
        }
        let packet: [u8; 16] = [
            payload[0], payload[1], payload[2], payload[3], payload[4], payload[5], payload[6],
            payload[7], payload[8], payload[9], payload[10], payload[11], payload[12], payload[13],
            payload[14], payload[15],
        ];
        assert(packet@ =~= payload@);
        R10BleGattNotifyGate::Accepted(packet)
    }
}

/// The handles after one discovery event.
pub open spec fn discovery_applied(h: R10BleGattHandles, event: R10BleGattDiscoveryEvent) -> R10BleGattHandles {
    match event {
        R10BleGattDiscoveryEvent::Service { start_handle, end_handle } => R10BleGattHandles {
            service_start_handle: Some(start_handle),
            service_end_handle: Some(end_handle),
            ..h
        },
        R10BleGattDiscoveryEvent::WriteCharacteristic { value_handle } => R10BleGattHandles {
            write_value_handle: Some(value_handle),
            ..h
        },
        R10BleGattDiscoveryEvent::NotifyCharacteristic { value_handle } => R10BleGattHandles {
            notify_value_handle: Some(value_handle),
            ..h
        },
        R10BleGattDiscoveryEvent::NotifyCccd { handle } => R10BleGattHandles {
            notify_cccd_handle: Some(handle),
            ..h
        },
    }
}

/// Discovering the service, the write and notify characteristics and the
/// CCCD, in any state and in this order, yields exactly those handles; and the
/// contract is then complete when the service range holds the other three.
pub proof fn lemma_discovery_accumulates(
    h: R10BleGattHandles,
    start: u16,
    end: u16,
    write: u16,
    notify: u16,
    cccd: u16,
)
    ensures
        ({
            let r = discovery_applied(
                discovery_applied(
                    discovery_applied(
                        discovery_applied(h, R10BleGattDiscoveryEvent::Service { start_handle: start, end_handle: end }),
                        R10BleGattDiscoveryEvent::WriteCharacteristic { value_handle: write },
                    ),
                    R10BleGattDiscoveryEvent::NotifyCharacteristic { value_handle: notify },
                ),
                R10BleGattDiscoveryEvent::NotifyCccd { handle: cccd },
            );
            &&& r.service_start_handle == Some(start)
            &&& r.service_end_handle == Some(end)
            &&& r.write_value_handle == Some(write)
            &&& r.notify_value_handle == Some(notify)
            &&& r.notify_cccd_handle == Some(cccd)
            &&& handles_complete(r) == (0 < start && start <= write && write <= end && start <= notify
                && notify <= end && start <= cccd && cccd <= end)
        }),
{
}

/// Remote mode starts only on a complete contract: whenever the startup pair
/// exists, the handles are complete and the pair subscribes before it starts.
pub proof fn lemma_startup_needs_complete_contract(h: R10BleGattHandles)
    ensures
        startup_operations_spec(h) is Some <==> handles_complete(h),
        startup_operations_spec(h) matches Some(ops) ==> {
            &&& ops[0] matches R10BleGattOperation::WriteCccd { value, .. } && value == R10_BLE_NOTIFY_CCCD_ENABLE
            &&& ops[1] matches R10BleGattOperation::WriteRemoteCommand { command, .. } && command == R10BleCommand::StartRemote
        },
{
}

#[derive(Clone, Copy, Debug, PartialEq, Eq, Structural)]
pub enum R10BleTransportState {
    Disabled,
    Idle,
    Scanning,
    Connecting,
    Discovering,
    Subscribing,
    StartingRemote,
    Polling,
    Disconnecting,
    Backoff,
}

#[derive(Clone, Copy, Debug, PartialEq, Eq, Structural)]
pub struct R10BleRemoteSession {
    pub state: R10BleTransportState,
    pub policy: R10RemotePolicy,
    pub poll_interval_ms: u64,
    pub next_poll_due_ms: u64,
}

/// The policy's answer to an accepted notify, or the reason it was refused.
pub open spec fn gatt_notify_result(
    policy: R10RemotePolicy,
    h: R10BleGattHandles,
    handle: u16,
    payload: Seq<u8>,
    now_ms: u64,
    r: R10BleGattNotifyPolicyResult,
) -> bool {
    if h.notify_value_handle == Some(handle) && payload.len() == 16 {
        r == R10BleGattNotifyPolicyResult::Accepted(policy.action_for(now_ms, payload))
    } else {
        r matches R10BleGattNotifyPolicyResult::Rejected(g) && gate_spec(h, handle, payload, g)
    }
}

/// The session after a notify: the policy moved as for that notify when the
/// gate let it through, and nothing else changed.
pub open spec fn gatt_notify_session(
    old: R10BleRemoteSession,
    h: R10BleGattHandles,
    handle: u16,
    payload: Seq<u8>,
    now_ms: u64,
    new: R10BleRemoteSession,
) -> bool {
    &&& new.state == old.state
    &&& new.poll_interval_ms == old.poll_interval_ms
    &&& new.next_poll_due_ms == old.next_poll_due_ms
    &&& if h.notify_value_handle == Some(handle) && payload.len() == 16 {
        old.policy.handled(now_ms, payload, new.policy)
    } else {
        new.policy == old.policy
    }
}

impl R10BleRemoteSession {
    pub fn disabled() -> (r: Self)
        ensures
            r.state == R10BleTransportState::Disabled,
            !r.policy.enabled,
            r.policy.screen == crate::r10_remote_policy::R10RemoteScreen::Unknown,
            r.policy.debounce.last_accept() is None,
            r.policy.debounce.window() == 3500,
            r.poll_interval_ms == R10_BLE_POLL_INTERVAL_MS,
            r.next_poll_due_ms == 0,
    {
        Self {
            state: R10BleTransportState::Disabled,
            policy: R10RemotePolicy::disabled(),
            poll_interval_ms: R10_BLE_POLL_INTERVAL_MS,
            next_poll_due_ms: 0,
        }
    }

    pub fn reader_remote(debounce_ms: u64) -> (r: Self)
        ensures
            r.state == R10BleTransportState::Idle,
            r.policy.enabled,
            r.policy.screen == crate::r10_remote_policy::R10RemoteScreen::Reader,
            r.policy.debounce.last_accept() is None,
            r.policy.debounce.window() == debounce_ms,
            r.poll_interval_ms == R10_BLE_POLL_INTERVAL_MS,
            r.next_poll_due_ms == 0,
    {
        Self {
            state: R10BleTransportState::Idle,
            policy: R10RemotePolicy::enabled_for_reader(debounce_ms),
            poll_interval_ms: R10_BLE_POLL_INTERVAL_MS,
            next_poll_due_ms: 0,
        }
    }

    /// Hands a notify packet to the debounced Reader policy.
    pub fn on_notify(&mut self, now_ms: u64, packet: &[u8]) -> (r: R10RemoteAction)
        ensures
            r == old(self).policy.action_for(now_ms, packet@),
            old(self).policy.handled(now_ms, packet@, final(self).policy),
            final(self).state == old(self).state,
            final(self).poll_interval_ms == old(self).poll_interval_ms,
            final(self).next_poll_due_ms == old(self).next_poll_due_ms,
    {
        self.policy.handle_packet(now_ms, packet)
    }

    /// Gates a GATT notify, then hands an accepted packet to the policy.
    pub fn on_gatt_notify(
        &mut self,
        handles: &R10BleGattHandles,
        handle: u16,
        payload: &[u8],
        now_ms: u64,
    ) -> (r: R10BleGattNotifyPolicyResult)
        ensures
            gatt_notify_result(old(self).policy, *handles, handle, payload@, now_ms, r),
            gatt_notify_session(*old(self), *handles, handle, payload@, now_ms, *final(self)),
    {
        match handles.gate_notify(handle, payload) {
            R10BleGattNotifyGate::Accepted(packet) => {
                R10BleGattNotifyPolicyResult::Accepted(self.on_notify(now_ms, &packet))
            },
            rejected => R10BleGattNotifyPolicyResult::Rejected(rejected),
        }
    }

    /// A poll is due in the polling state once the due time is reached.
    pub fn should_poll(&self, now_ms: u64) -> (r: bool)
        ensures
            r == (self.state == R10BleTransportState::Polling && now_ms >= self.next_poll_due_ms),
            r == poll_due(*self, now_ms),
    {
        matches!(self.state, R10BleTransportState::Polling) && now_ms >= self.next_poll_due_ms
    }

    pub fn mark_poll_sent(&mut self, now_ms: u64)
        ensures
            final(self).next_poll_due_ms == now_ms.saturating_add(old(self).poll_interval_ms),
            final(self).state == old(self).state,
            final(self).policy == old(self).policy,
            final(self).poll_interval_ms == old(self).poll_interval_ms,
    {
        self.next_poll_due_ms = now_ms.saturating_add(self.poll_interval_ms);
    }

    /// The poll write, when one is due and the handles are complete; sending
    /// it moves the due time one interval on. Otherwise nothing changes.
    pub fn poll_due_write(&mut self, handles: &R10BleGattHandles, now_ms: u64) -> (r: Option<R10BleGattWrite>)
        ensures
            ({
                let due = old(self).state == R10BleTransportState::Polling && now_ms >= old(self).next_poll_due_ms;
                let op = gated_command_operation(*handles, R10BleCommand::PollRemote);
                if due && op is Some {
                    &&& r == Some(write_of(op->0))
                    &&& final(self).next_poll_due_ms == now_ms.saturating_add(old(self).poll_interval_ms)
                } else {
                    &&& r is None
                    &&& final(self).next_poll_due_ms == old(self).next_poll_due_ms
                }
            }),
            final(self).state == old(self).state,
            final(self).policy == old(self).policy,
            final(self).poll_interval_ms == old(self).poll_interval_ms,
    {
        if !self.should_poll(now_ms) {
            return None;
        }
        match handles.poll_write() {
            Some(write) => {
                self.mark_poll_sent(now_ms);
                Some(write)
            },
            None => None,
        }
    }

    /// The startup writes; having them marks the session as starting remote
    /// mode. Without them the session is unchanged.
    pub fn begin_remote_start(&mut self, handles: &R10BleGattHandles) -> (r: Option<[R10BleGattWrite; 2]>)
        ensures
            r == (match startup_operations_spec(*handles) {
                Some(ops) => Some([write_of(ops[0]), write_of(ops[1])]),
                None => None,
            }),
            final(self).state == (if r is Some {
                R10BleTransportState::StartingRemote
            } else {
                old(self).state
            }),
            final(self).policy == old(self).policy,
            final(self).poll_interval_ms == old(self).poll_interval_ms,
            final(self).next_poll_due_ms == old(self).next_poll_due_ms,
    {
        let writes = handles.startup_writes();
        match writes {
            Some(w) => {
                self.state = R10BleTransportState::StartingRemote;
                Some(w)
            },
            None => None,
        }
    }

    pub fn complete_remote_start(&mut self, now_ms: u64)
        ensures
            final(self).state == R10BleTransportState::Polling,
            final(self).next_poll_due_ms == now_ms,
            final(self).policy == old(self).policy,
            final(self).poll_interval_ms == old(self).poll_interval_ms,
    {
        self.start_polling(now_ms);
    }

    /// The shutdown writes; having them marks the session as disconnecting.
    pub fn begin_remote_shutdown(&mut self, handles: &R10BleGattHandles) -> (r: Option<[R10BleGattWrite; 2]>)
        ensures
            r == (match (command_operation(*handles, R10BleCommand::StopRemote), cccd_operation(*handles, R10_BLE_NOTIFY_CCCD_DISABLE)) {
                (Some(a), Some(b)) => Some([write_of(a), write_of(b)]),
                _ => None,
            }),
            final(self).state == (if r is Some {
                R10BleTransportState::Disconnecting
            } else {
                old(self).state
            }),
            final(self).policy == old(self).policy,
            final(self).poll_interval_ms == old(self).poll_interval_ms,
            final(self).next_poll_due_ms == old(self).next_poll_due_ms,
    {
        let writes = handles.shutdown_writes();
        match writes {
            Some(w) => {
                self.state = R10BleTransportState::Disconnecting;
                Some(w)
            },
            None => None,
        }
    }

    pub fn complete_remote_shutdown(&mut self)
        ensures
            final(self).state == R10BleTransportState::Idle,
            final(self).next_poll_due_ms == 0,
            final(self).policy == old(self).policy,
            final(self).poll_interval_ms == old(self).poll_interval_ms,
    {
        self.state = R10BleTransportState::Idle;
        self.next_poll_due_ms = 0;
    }

    pub fn start_polling(&mut self, now_ms: u64)
        ensures
            final(self).state == R10BleTransportState::Polling,
            final(self).next_poll_due_ms == now_ms,
            final(self).policy == old(self).policy,
            final(self).poll_interval_ms == old(self).poll_interval_ms,
    {
        self.state = R10BleTransportState::Polling;
        self.next_poll_due_ms = now_ms;
    }

    pub fn enter_backoff(&mut self, now_ms: u64)
        ensures
            final(self).state == R10BleTransportState::Backoff,
            final(self).next_poll_due_ms == now_ms.saturating_add(R10_BLE_RECONNECT_BACKOFF_MS),
            final(self).policy == old(self).policy,
            final(self).poll_interval_ms == old(self).poll_interval_ms,
    {
        self.state = R10BleTransportState::Backoff;
        self.next_poll_due_ms = now_ms.saturating_add(R10_BLE_RECONNECT_BACKOFF_MS);
    }

    pub fn begin_scan(&mut self)
        ensures
            final(self).state == R10BleTransportState::Scanning,
            final(self).policy == old(self).policy,
            final(self).poll_interval_ms == old(self).poll_interval_ms,
            final(self).next_poll_due_ms == old(self).next_poll_due_ms,
    {
        self.state = R10BleTransportState::Scanning;
    }
}

/// Polls are paced: right after a poll is sent at `now`, no poll is due again
/// before `now + interval` (when that sum does not saturate).
pub proof fn lemma_poll_paced(s: R10BleRemoteSession, now: u64, later: u64)
    requires
        s.state == R10BleTransportState::Polling,
        now as int + s.poll_interval_ms as int <= u64::MAX as int,
        later < now + s.poll_interval_ms,
    ensures
        !(R10BleRemoteSession { next_poll_due_ms: now.saturating_add(s.poll_interval_ms), ..s }.state
            == R10BleTransportState::Polling && later >= now.saturating_add(s.poll_interval_ms)),
{
}

/// A poll is due: the session polls and its due time has come.
pub open spec fn poll_due(s: R10BleRemoteSession, now_ms: u64) -> bool {
    s.state == R10BleTransportState::Polling && now_ms >= s.next_poll_due_ms
}

/// Polls are paced one interval apart: after a poll write succeeds at `now`,
/// the session keeps polling with its interval and policy, no poll is due
/// before `now + poll_interval_ms`, and one is due from then on.
pub proof fn lemma_poll_write_paces_next_poll(s: R10BleRemoteSession, now: u64, later: u64)
    requires
        s.state == R10BleTransportState::Polling,
        now as int + s.poll_interval_ms as int <= u64::MAX as int,
    ensures
        ({
            let n = session_after_write_success(s, R10BleWritePhase::Poll, now);
            &&& n.state == R10BleTransportState::Polling
            &&& n.poll_interval_ms == s.poll_interval_ms
            &&& n.policy == s.policy
            &&& later < now + s.poll_interval_ms ==> !poll_due(n, later)
            &&& later >= now + s.poll_interval_ms ==> poll_due(n, later)
        }),
{
}

/// Starting remote mode begins polling with a poll due at once; a
/// subscription leads to starting remote mode; none of these writes touches
/// the policy or the poll interval.
pub proof fn lemma_write_success_phases(s: R10BleRemoteSession, now: u64)
    ensures
        poll_due(session_after_write_success(s, R10BleWritePhase::RemoteStart, now), now),
        session_after_write_success(s, R10BleWritePhase::Subscribe, now).state == R10BleTransportState::StartingRemote,
        !poll_due(session_after_write_success(s, R10BleWritePhase::Subscribe, now), now),
        forall|p: R10BleWritePhase| #[trigger] session_after_write_success(s, p, now).policy == s.policy
            && session_after_write_success(s, p, now).poll_interval_ms == s.poll_interval_ms,
{
}

pub const R10_BLE_DEFAULT_TARGET_ADDRESS: &'static str = "31:39:46:36:E5:05";

pub const R10_BLE_DEFAULT_ADVERTISED_NAME: &'static str = "COLMI R10_E505";

pub const R10_BLE_DEFAULT_NAME_PREFIX: &'static str = "COLMI R10";

pub const R10_BLE_LIVE_SERVICE_START_HANDLE: u16 = 14;

pub const R10_BLE_LIVE_SERVICE_END_HANDLE: u16 = 19;

pub const R10_BLE_LIVE_WRITE_VALUE_HANDLE: u16 = 15;

pub const R10_BLE_LIVE_NOTIFY_VALUE_HANDLE: u16 = 17;

pub const R10_BLE_LIVE_NOTIFY_CCCD_HANDLE: u16 = 19;

pub const R10_BLE_RUNTIME_DEFAULT_READER_DEBOUNCE_MS: u64 = 3_500;

/// A valid-checksum vendor/status notify the ring sends; it is not a page turn.
pub const R10_VENDOR_STATUS_7301_PACKET: [u8; 16] = [0x73, 0x01, 0, 0, 0, 0, 0, 0, 0, 0, 0, 0, 0, 0, 0, 0x74];

#[derive(Clone, Copy, Debug, PartialEq, Eq)]
pub struct R10BleAdvertisedDevice<'a> {
    pub address: Option<&'a str>,
    pub name: Option<&'a str>,
}

#[derive(Clone, Copy, Debug, PartialEq, Eq)]
pub struct R10BleScanTarget {
    pub address: Option<&'static str>,
    pub name_prefix: Option<&'static str>,
}

#[derive(Clone, Copy, Debug, PartialEq, Eq, Structural)]
pub enum R10BleScanDecision {
    MatchByAddress,
    MatchByNamePrefix,
    Ignored,
}

/// The address of the target and of the device are both known and equal.
pub open spec fn address_matches(target: R10BleScanTarget, device: R10BleAdvertisedDevice) -> bool {
    match (target.address, device.address) {
        (Some(a), Some(d)) => a.spec_bytes() == d.spec_bytes(),
        _ => false,
    }
}

/// The device's name starts with the target's name prefix.
pub open spec fn name_matches(target: R10BleScanTarget, device: R10BleAdvertisedDevice) -> bool {
    match (target.name_prefix, device.name) {
        (Some(p), Some(n)) => starts_with_spec(n.spec_bytes(), p.spec_bytes()),
        _ => false,
    }
}

/// The scan decision: the address first, then the name prefix.
pub open spec fn scan_decision_spec(target: R10BleScanTarget, device: R10BleAdvertisedDevice) -> R10BleScanDecision {
    if address_matches(target, device) {
        R10BleScanDecision::MatchByAddress
    } else if name_matches(target, device) {
        R10BleScanDecision::MatchByNamePrefix
    } else {
        R10BleScanDecision::Ignored
    }
}

impl R10BleScanDecision {
    pub fn is_match(&self) -> (r: bool)
        ensures
            r == (*self != R10BleScanDecision::Ignored),
    {
        !matches!(self, Self::Ignored)
    }
}

impl R10BleScanTarget {
    /// The validated ring: its address, with the `COLMI R10` name prefix as
    /// the fallback for hosts that randomize addresses.
    pub fn default_r10() -> (r: Self)
        ensures
            r.address == Some(R10_BLE_DEFAULT_TARGET_ADDRESS),
            r.name_prefix == Some(R10_BLE_DEFAULT_NAME_PREFIX),
    {
        Self { address: Some(R10_BLE_DEFAULT_TARGET_ADDRESS), name_prefix: Some(R10_BLE_DEFAULT_NAME_PREFIX) }
    }

    /// Matches an advertisement against the target.
    pub fn scan_device(&self, device: R10BleAdvertisedDevice) -> (r: R10BleScanDecision)
        ensures
            r == scan_decision_spec(*self, device),
    {
        let by_address = match (self.address, device.address) {
            (Some(a), Some(d)) => bytes_eq(a.as_bytes(), d.as_bytes()),
            _ => false,
        };
        if by_address {
            return R10BleScanDecision::MatchByAddress;
        }
        let by_name = match (self.name_prefix, device.name) {
            (Some(p), Some(n)) => bytes_start_with(n.as_bytes(), p.as_bytes()),
            _ => false,
        };
        if by_name {
            R10BleScanDecision::MatchByNamePrefix
        } else {
            R10BleScanDecision::Ignored
        }
    }
}

#[derive(Clone, Copy, Debug, PartialEq, Eq, Structural)]
pub enum R10BleConnectionResult {
    Connected,
    ConnectFailed,
    LinkLost,
}

#[derive(Clone, Copy, Debug, PartialEq, Eq, Structural)]
pub enum R10BleGattDiscoveryStatus {
    Ready(R10BleGattHandles),
    Incomplete(R10BleGattHandles),
}

impl R10BleGattDiscoveryStatus {
    pub fn is_ready(&self) -> (r: bool)
        ensures
            r == (*self is Ready),
    {
        matches!(self, Self::Ready(_))
    }
}

/// Ready with the handles when they are complete, incomplete otherwise.
pub open spec fn discovery_status_spec(h: R10BleGattHandles) -> R10BleGattDiscoveryStatus {
    if handles_complete(h) {
        R10BleGattDiscoveryStatus::Ready(h)
    } else {
        R10BleGattDiscoveryStatus::Incomplete(h)
    }
}

impl R10BleGattHandles {
    pub fn discovery_status(&self) -> (r: R10BleGattDiscoveryStatus)
        ensures
            r == discovery_status_spec(*self),
    {
        if self.is_complete() {
            R10BleGattDiscoveryStatus::Ready(*self)
        } else {
            R10BleGattDiscoveryStatus::Incomplete(*self)
        }
    }
}

#[derive(Clone, Copy, Debug, PartialEq, Eq, Structural)]
pub enum R10BleWritePhase {
    Subscribe,
    RemoteStart,
    Poll,
    Shutdown,
}

#[derive(Clone, Copy, Debug, PartialEq, Eq, Structural)]
pub enum R10BleWriteResult {
    Success(R10BleWritePhase),
    Failed(R10BleWritePhase),
}

#[derive(Clone, Copy, Debug, PartialEq, Eq)]
pub enum R10BleRuntimeEffect {
    Scan(R10BleScanDecision),
    Connection(R10BleConnectionResult),
    Discovery(R10BleGattDiscoveryStatus),
    WriteResult(R10BleWriteResult),
    Notify(R10BleGattNotifyPolicyResult),
}

#[derive(Clone, Copy, Debug, PartialEq, Eq, Structural)]
pub enum R10BleRuntimeMode {
    Disabled,
    ProbeOnly,
    ReaderRemote,
}

#[derive(Clone, Copy, Debug, PartialEq, Eq, Structural)]
pub enum R10BleRuntimeStartDecision {
    StayDisabled,
    StartProbe,
    StartReaderRemote,
}

#[derive(Clone, Copy, Debug, PartialEq, Eq)]
pub struct R10BleRuntimeConfig {
    pub mode: R10BleRuntimeMode,
    pub scan_target: R10BleScanTarget,
    pub reader_debounce_ms: u64,
}

/// What a runtime mode asks of BLE at startup.
pub open spec fn start_decision_spec(mode: R10BleRuntimeMode) -> R10BleRuntimeStartDecision {
    match mode {
        R10BleRuntimeMode::Disabled => R10BleRuntimeStartDecision::StayDisabled,
        R10BleRuntimeMode::ProbeOnly => R10BleRuntimeStartDecision::StartProbe,
        R10BleRuntimeMode::ReaderRemote => R10BleRuntimeStartDecision::StartReaderRemote,
    }
}

impl R10BleRuntimeConfig {
    fn with_mode(mode: R10BleRuntimeMode) -> (r: Self)
        ensures
            r.mode == mode,
            r.scan_target.address == Some(R10_BLE_DEFAULT_TARGET_ADDRESS),
            r.scan_target.name_prefix == Some(R10_BLE_DEFAULT_NAME_PREFIX),
            r.reader_debounce_ms == R10_BLE_RUNTIME_DEFAULT_READER_DEBOUNCE_MS,
    {
        Self {
            mode,
            scan_target: R10BleScanTarget::default_r10(),
            reader_debounce_ms: R10_BLE_RUNTIME_DEFAULT_READER_DEBOUNCE_MS,
        }
    }

    /// BLE stays off: the default.
    pub fn disabled() -> (r: Self)
        ensures
            r.mode == R10BleRuntimeMode::Disabled,
            r.scan_target.address == Some(R10_BLE_DEFAULT_TARGET_ADDRESS),
            r.scan_target.name_prefix == Some(R10_BLE_DEFAULT_NAME_PREFIX),
            r.reader_debounce_ms == R10_BLE_RUNTIME_DEFAULT_READER_DEBOUNCE_MS,
    {
        Self::with_mode(R10BleRuntimeMode::Disabled)
    }

    /// The connectivity probe against the validated ring.
    pub fn probe_only_live_r10() -> (r: Self)
        ensures
            r.mode == R10BleRuntimeMode::ProbeOnly,
            r.scan_target.address == Some(R10_BLE_DEFAULT_TARGET_ADDRESS),
            r.scan_target.name_prefix == Some(R10_BLE_DEFAULT_NAME_PREFIX),
            r.reader_debounce_ms == R10_BLE_RUNTIME_DEFAULT_READER_DEBOUNCE_MS,
    {
        Self::with_mode(R10BleRuntimeMode::ProbeOnly)
    }

    /// Reader page turns from the validated ring.
    pub fn reader_remote_live_r10() -> (r: Self)
        ensures
            r.mode == R10BleRuntimeMode::ReaderRemote,
            r.scan_target.address == Some(R10_BLE_DEFAULT_TARGET_ADDRESS),
            r.scan_target.name_prefix == Some(R10_BLE_DEFAULT_NAME_PREFIX),
            r.reader_debounce_ms == R10_BLE_RUNTIME_DEFAULT_READER_DEBOUNCE_MS,
    {
        Self::with_mode(R10BleRuntimeMode::ReaderRemote)
    }

    pub fn with_scan_target(self, scan_target: R10BleScanTarget) -> (r: Self)
        ensures
            r == (R10BleRuntimeConfig { scan_target, ..self }),
    {
        Self { scan_target, ..self }
    }

    pub fn with_reader_debounce_ms(self, reader_debounce_ms: u64) -> (r: Self)
        ensures
            r == (R10BleRuntimeConfig { reader_debounce_ms, ..self }),
    {
        Self { reader_debounce_ms, ..self }
    }

    pub fn start_decision(&self) -> (r: R10BleRuntimeStartDecision)
        ensures
            r == start_decision_spec(self.mode),
    {
        match self.mode {
            R10BleRuntimeMode::Disabled => R10BleRuntimeStartDecision::StayDisabled,
            R10BleRuntimeMode::ProbeOnly => R10BleRuntimeStartDecision::StartProbe,
            R10BleRuntimeMode::ReaderRemote => R10BleRuntimeStartDecision::StartReaderRemote,
        }
    }
}

impl Default for R10BleRuntimeConfig {
    fn default() -> (r: Self)
        ensures
            r.mode == R10BleRuntimeMode::Disabled,
            r.scan_target.address == Some(R10_BLE_DEFAULT_TARGET_ADDRESS),
            r.scan_target.name_prefix == Some(R10_BLE_DEFAULT_NAME_PREFIX),
            r.reader_debounce_ms == R10_BLE_RUNTIME_DEFAULT_READER_DEBOUNCE_MS,
    {
        Self::disabled()
    }
}

/// The remote session together with the GATT handles discovered so far:
/// the state that BLE callbacks drive.
#[derive(Clone, Copy, Debug, PartialEq, Eq, Structural)]
pub struct R10BleRemoteRuntime {
    pub session: R10BleRemoteSession,
    pub handles: R10BleGattHandles,
}

/// The session after a write finished with success: a subscription leads to
/// starting remote mode, a remote start to polling from now, a poll moves the
/// due time on, a shutdown returns to idle.
pub open spec fn session_after_write_success(s: R10BleRemoteSession, phase: R10BleWritePhase, now_ms: u64) -> R10BleRemoteSession {
    match phase {
        R10BleWritePhase::Subscribe => R10BleRemoteSession { state: R10BleTransportState::StartingRemote, ..s },
        R10BleWritePhase::RemoteStart => R10BleRemoteSession {
            state: R10BleTransportState::Polling,
            next_poll_due_ms: now_ms,
            ..s
        },
        R10BleWritePhase::Poll => R10BleRemoteSession {
            next_poll_due_ms: now_ms.saturating_add(s.poll_interval_ms),
            ..s
        },
        R10BleWritePhase::Shutdown => R10BleRemoteSession {
            state: R10BleTransportState::Idle,
            next_poll_due_ms: 0,
            ..s
        },
    }
}

/// The session in backoff from `now_ms`.
pub open spec fn session_backoff(s: R10BleRemoteSession, now_ms: u64) -> R10BleRemoteSession {
    R10BleRemoteSession {
        state: R10BleTransportState::Backoff,
        next_poll_due_ms: now_ms.saturating_add(R10_BLE_RECONNECT_BACKOFF_MS),
        ..s
    }
}

impl R10BleRemoteRuntime {
    pub fn reader_remote(debounce_ms: u64) -> (r: Self)
        ensures
            r.session.state == R10BleTransportState::Idle,
            r.session.policy.enabled,
            r.session.policy.screen == crate::r10_remote_policy::R10RemoteScreen::Reader,
            r.session.policy.debounce.last_accept() is None,
            r.session.policy.debounce.window() == debounce_ms,
            r.session.poll_interval_ms == R10_BLE_POLL_INTERVAL_MS,
            r.session.next_poll_due_ms == 0,
            r.handles == R10BleGattHandles::spec_unresolved(),
    {
        Self { session: R10BleRemoteSession::reader_remote(debounce_ms), handles: R10BleGattHandles::unresolved() }
    }

    /// A scan result: a match moves the session to connecting.
    pub fn scan_device_effect(&mut self, target: R10BleScanTarget, device: R10BleAdvertisedDevice) -> (r: R10BleRuntimeEffect)
        ensures
            r == R10BleRuntimeEffect::Scan(scan_decision_spec(target, device)),
            final(self).handles == old(self).handles,
            final(self).session == (if scan_decision_spec(target, device) != R10BleScanDecision::Ignored {
                R10BleRemoteSession { state: R10BleTransportState::Connecting, ..old(self).session }
            } else {
                old(self).session
            }),
    {
        let decision = target.scan_device(device);
        if decision.is_match() {
            self.session.state = R10BleTransportState::Connecting;
        }
        R10BleRuntimeEffect::Scan(decision)
    }

    /// Connected: discovery comes next.
    pub fn connect_success_effect(&mut self) -> (r: R10BleRuntimeEffect)
        ensures
            r == R10BleRuntimeEffect::Connection(R10BleConnectionResult::Connected),
            final(self).handles == old(self).handles,
            final(self).session == (R10BleRemoteSession { state: R10BleTransportState::Discovering, ..old(self).session }),
    {
        self.session.state = R10BleTransportState::Discovering;
        R10BleRuntimeEffect::Connection(R10BleConnectionResult::Connected)
    }

    /// The connection failed: back off before the next attempt.
    pub fn connect_failed_effect(&mut self, now_ms: u64) -> (r: R10BleRuntimeEffect)
        ensures
            r == R10BleRuntimeEffect::Connection(R10BleConnectionResult::ConnectFailed),
            final(self).handles == old(self).handles,
            final(self).session == session_backoff(old(self).session, now_ms),
    {
        self.session.enter_backoff(now_ms);
        R10BleRuntimeEffect::Connection(R10BleConnectionResult::ConnectFailed)
    }

    /// One discovery result; the effect reports the handles so far.
    pub fn discovery_event_effect(&mut self, event: R10BleGattDiscoveryEvent) -> (r: R10BleRuntimeEffect)
        ensures
            final(self).handles == discovery_applied(old(self).handles, event),
            final(self).session == old(self).session,
            r == R10BleRuntimeEffect::Discovery(discovery_status_spec(final(self).handles)),
    {
        self.handles.apply_discovery_event(event);
        R10BleRuntimeEffect::Discovery(self.handles.discovery_status())
    }

    /// Discovery finished: subscribe when the contract is complete, back off
    /// otherwise.
    pub fn discovery_complete_effect(&mut self) -> (r: R10BleRuntimeEffect)
        ensures
            r == R10BleRuntimeEffect::Discovery(discovery_status_spec(old(self).handles)),
            final(self).handles == old(self).handles,
            final(self).session == (R10BleRemoteSession {
                state: if handles_complete(old(self).handles) {
                    R10BleTransportState::Subscribing
                } else {
                    R10BleTransportState::Backoff
                },
                ..old(self).session
            }),
    {
        let status = self.handles.discovery_status();
        if status.is_ready() {
            self.session.state = R10BleTransportState::Subscribing;
        } else {
            self.session.state = R10BleTransportState::Backoff;
        }
        R10BleRuntimeEffect::Discovery(status)
    }

    pub fn write_success_effect(&mut self, phase: R10BleWritePhase, now_ms: u64) -> (r: R10BleRuntimeEffect)
        ensures
            r == R10BleRuntimeEffect::WriteResult(R10BleWriteResult::Success(phase)),
            final(self).handles == old(self).handles,
            final(self).session == session_after_write_success(old(self).session, phase, now_ms),
    {
        match phase {
            R10BleWritePhase::Subscribe => {
                self.session.state = R10BleTransportState::StartingRemote;
            },
            R10BleWritePhase::RemoteStart => {
                self.session.start_polling(now_ms);
            },
            R10BleWritePhase::Poll => {
                self.session.mark_poll_sent(now_ms);
            },
            R10BleWritePhase::Shutdown => {
                self.session.complete_remote_shutdown();
            },
        }
        R10BleRuntimeEffect::WriteResult(R10BleWriteResult::Success(phase))
    }

    /// A failed write backs off.
    pub fn write_failed_effect(&mut self, phase: R10BleWritePhase, now_ms: u64) -> (r: R10BleRuntimeEffect)
        ensures
            r == R10BleRuntimeEffect::WriteResult(R10BleWriteResult::Failed(phase)),
            final(self).handles == old(self).handles,
            final(self).session == session_backoff(old(self).session, now_ms),
    {
        self.session.enter_backoff(now_ms);
        R10BleRuntimeEffect::WriteResult(R10BleWriteResult::Failed(phase))
    }

    /// A notify is checked against the current handles and then handed to the
    /// policy.
    pub fn notify_effect(&mut self, handle: u16, payload: &[u8], now_ms: u64) -> (r: R10BleRuntimeEffect)
        ensures
            final(self).handles == old(self).handles,
            (r matches R10BleRuntimeEffect::Notify(n) && gatt_notify_result(
                old(self).session.policy,
                old(self).handles,
                handle,
                payload@,
                now_ms,
                n,
            )),
            gatt_notify_session(old(self).session, old(self).handles, handle, payload@, now_ms, final(self).session),
    {
        let handles = self.handles;
        R10BleRuntimeEffect::Notify(self.session.on_gatt_notify(&handles, handle, payload, now_ms))
    }
}

} // verus!
