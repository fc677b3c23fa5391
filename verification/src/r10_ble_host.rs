//! The BLE host integration plan for the ring: the order in which the radio
//! controller and host stack are brought up and the ring is driven, and the
//! GATT contract the runtime uses.
use vstd::prelude::*;
use crate::r10_ble_transport::{
    R10BleCommand, R10_BLE_NOTIFY_UUID, R10_BLE_POLL_INTERVAL_MS, R10_BLE_SERVICE_UUID,
    R10_BLE_WRITE_UUID, command_packet,
};

verus! {

#[derive(Clone, Copy, Debug, PartialEq, Eq, Structural)]
pub enum R10BleHostBuildStatus {
    DisabledInDefaultBuild,
    FeatureGateReady,
}

pub const R10_BLE_HOST_STATUS: R10BleHostBuildStatus = R10BleHostBuildStatus::FeatureGateReady;

/// The GATT contract in one tuple: service, write and notify UUIDs and the
/// remote-start packet.
pub fn r10_ble_host_contract_summary() -> (r: (&'static str, &'static str, &'static str, &'static [u8; 16]))
    ensures
        r.0 == R10_BLE_SERVICE_UUID,
        r.1 == R10_BLE_WRITE_UUID,
        r.2 == R10_BLE_NOTIFY_UUID,
        r.3@ == command_packet(R10BleCommand::StartRemote),
{
    (R10_BLE_SERVICE_UUID, R10_BLE_WRITE_UUID, R10_BLE_NOTIFY_UUID, R10BleCommand::StartRemote.packet())
}

/// The radio controller handle of the host stack.
#[derive(Clone, Copy, Debug, PartialEq, Eq)]
pub struct R10BleController;

/// The packet pool the host stack allocates from.
#[derive(Clone, Copy, Debug, PartialEq, Eq)]
pub struct R10BlePacketPool;

/// The resources the host stack is built over.
#[derive(Clone, Copy, Debug, PartialEq, Eq)]
pub struct R10BleHostResources;

/// The host stack, borrowed for its lifetime.
#[derive(Clone, Copy, Debug, PartialEq, Eq)]
pub struct R10BleStack<'stack> {
    _marker: core::marker::PhantomData<&'stack ()>,
}

#[derive(Clone, Copy, Debug, PartialEq, Eq, Structural)]
pub enum R10BleRuntimeStep {
    BuildController,
    BuildStack,
    SplitStack,
    ScanForRing,
    Connect,
    DiscoverService,
    DiscoverWriteCharacteristic,
    DiscoverNotifyCharacteristic,
    SubscribeNotify,
    StartRemoteMode,
    PollRemoteMode,
    HandleNotify,
    StopRemoteMode,
    BackoffReconnect,
}

pub const R10_BLE_RUNTIME_PLAN: [R10BleRuntimeStep; 14] = [
    R10BleRuntimeStep::BuildController,
    R10BleRuntimeStep::BuildStack,
    R10BleRuntimeStep::SplitStack,
    R10BleRuntimeStep::ScanForRing,
    R10BleRuntimeStep::Connect,
    R10BleRuntimeStep::DiscoverService,
    R10BleRuntimeStep::DiscoverWriteCharacteristic,
    R10BleRuntimeStep::DiscoverNotifyCharacteristic,
    R10BleRuntimeStep::SubscribeNotify,
    R10BleRuntimeStep::StartRemoteMode,
    R10BleRuntimeStep::PollRemoteMode,
    R10BleRuntimeStep::HandleNotify,
    R10BleRuntimeStep::StopRemoteMode,
    R10BleRuntimeStep::BackoffReconnect,
];

/// The runtime plan: build and split the stack, find and connect the ring,
/// discover its GATT contract, subscribe before starting remote mode, poll,
/// handle notifies, stop, and back off to reconnect.
pub open spec fn runtime_plan() -> Seq<R10BleRuntimeStep> {
    seq![
        R10BleRuntimeStep::BuildController,
        R10BleRuntimeStep::BuildStack,
        R10BleRuntimeStep::SplitStack,
        R10BleRuntimeStep::ScanForRing,
        R10BleRuntimeStep::Connect,
        R10BleRuntimeStep::DiscoverService,
        R10BleRuntimeStep::DiscoverWriteCharacteristic,
        R10BleRuntimeStep::DiscoverNotifyCharacteristic,
        R10BleRuntimeStep::SubscribeNotify,
        R10BleRuntimeStep::StartRemoteMode,
        R10BleRuntimeStep::PollRemoteMode,
        R10BleRuntimeStep::HandleNotify,
        R10BleRuntimeStep::StopRemoteMode,
        R10BleRuntimeStep::BackoffReconnect,
    ]
}

pub fn r10_ble_runtime_plan() -> (r: &'static [R10BleRuntimeStep])
    ensures
        r@ == runtime_plan(),
{
    let plan: &'static [R10BleRuntimeStep] = R10_BLE_RUNTIME_PLAN.as_slice();
    assert(plan@ =~= runtime_plan());
    plan
}

/// The runtime plan subscribes to notifies before it starts remote mode,
/// starts before it polls, and polls before it handles a notify; each of
/// these steps occurs once.
pub proof fn lemma_runtime_plan_order()
    ensures
        runtime_plan()[0] == R10BleRuntimeStep::BuildController,
        runtime_plan().last() == R10BleRuntimeStep::BackoffReconnect,
        forall|i: int, j: int|
            0 <= i < runtime_plan().len() && 0 <= j < runtime_plan().len()
                && runtime_plan()[i] == R10BleRuntimeStep::SubscribeNotify
                && runtime_plan()[j] == R10BleRuntimeStep::StartRemoteMode ==> i < j,
        forall|i: int, j: int|
            0 <= i < runtime_plan().len() && 0 <= j < runtime_plan().len()
                && runtime_plan()[i] == R10BleRuntimeStep::StartRemoteMode
                && runtime_plan()[j] == R10BleRuntimeStep::PollRemoteMode ==> i < j,
        forall|i: int, j: int|
            0 <= i < runtime_plan().len() && 0 <= j < runtime_plan().len()
                && runtime_plan()[i] == R10BleRuntimeStep::PollRemoteMode
                && runtime_plan()[j] == R10BleRuntimeStep::HandleNotify ==> i < j,
{
}

#[derive(Clone, Copy, Debug, PartialEq, Eq)]
pub struct R10BleGattRuntimePlan {
    pub service_uuid: &'static str,
    pub write_uuid: &'static str,
    pub notify_uuid: &'static str,
    pub start_command: R10BleCommand,
    pub poll_command: R10BleCommand,
    pub stop_command: R10BleCommand,
    pub poll_interval_ms: u64,
}

/// The COLMI UART contract: the three UUIDs, the start, poll and stop
/// commands, and the poll interval.
pub open spec fn gatt_runtime_plan_spec() -> R10BleGattRuntimePlan {
    R10BleGattRuntimePlan {
        service_uuid: R10_BLE_SERVICE_UUID,
        write_uuid: R10_BLE_WRITE_UUID,
        notify_uuid: R10_BLE_NOTIFY_UUID,
        start_command: R10BleCommand::StartRemote,
        poll_command: R10BleCommand::PollRemote,
        stop_command: R10BleCommand::StopRemote,
        poll_interval_ms: R10_BLE_POLL_INTERVAL_MS,
    }
}

pub fn r10_ble_gatt_runtime_plan() -> (r: R10BleGattRuntimePlan)
    ensures
        r == gatt_runtime_plan_spec(),
{
    R10BleGattRuntimePlan {
        service_uuid: R10_BLE_SERVICE_UUID,
        write_uuid: R10_BLE_WRITE_UUID,
        notify_uuid: R10_BLE_NOTIFY_UUID,
        start_command: R10BleCommand::StartRemote,
        poll_command: R10BleCommand::PollRemote,
        stop_command: R10BleCommand::StopRemote,
        poll_interval_ms: R10_BLE_POLL_INTERVAL_MS,
    }
}

} // verus!
