//! Giving a driver up: the device is removed, then the bus is freed.

use vstd::prelude::*;

use crate::sys::{esp, esp_result, DeviceHandle, EspError, SpiHost};

verus! {

/// How far a teardown has come.
#[derive(Copy, Clone, Debug, PartialEq, Eq, Structural)]
pub enum TeardownStage {
    Start,
    RemovingDevice,
    FreeingBus,
    Done,
}

/// What a teardown wants next.
#[derive(Debug, PartialEq, Eq)]
pub enum TeardownAction {
    /// Remove this device from its bus.
    RemoveDevice(DeviceHandle),
    /// Free the bus of this host.
    FreeBus(SpiHost),
    /// The teardown is over. A failure is one that the driver cannot live with.
    Return(Result<(), EspError>),
}

/// What a teardown does at a stage when the last action ended with `status`: the bus is freed
/// only after the device was removed.
pub open spec fn teardown_step(
    device: DeviceHandle,
    host: SpiHost,
    stage: TeardownStage,
    status: i32,
) -> (TeardownStage, TeardownAction)
    recommends
        stage != TeardownStage::Done,
{
    match (stage, esp_result(status)) {
        (TeardownStage::Start, _) => (
            TeardownStage::RemovingDevice,
            TeardownAction::RemoveDevice(device),
        ),
        (TeardownStage::RemovingDevice, Ok(_)) => (
            TeardownStage::FreeingBus,
            TeardownAction::FreeBus(host),
        ),
        (_, result) => (TeardownStage::Done, TeardownAction::Return(result)),
    }
}

/// A driver that is being given up.
#[derive(Debug)]
pub struct Teardown {
    device: DeviceHandle,
    host: SpiHost,
    stage: TeardownStage,
}

impl Teardown {
    pub closed spec fn device(&self) -> DeviceHandle {
        self.device
    }

    pub closed spec fn host(&self) -> SpiHost {
        self.host
    }

    pub closed spec fn stage(&self) -> TeardownStage {
        self.stage
    }

    pub(crate) fn new(device: DeviceHandle, host: SpiHost) -> (teardown: Teardown)
        ensures
            teardown.device() == device,
            teardown.host() == host,
            teardown.stage() == TeardownStage::Start,
    {
        Teardown { device, host, stage: TeardownStage::Start }
    }

    /// Moves the teardown on. `status` is how the action that was last handed out ended; before
    /// the first one it does not matter.
    pub fn step(self, status: i32) -> (res: (Teardown, TeardownAction))
        requires
            self.stage() != TeardownStage::Done,
        ensures
            res.0.device() == self.device(),
            res.0.host() == self.host(),
            (res.0.stage(), res.1) == teardown_step(
                self.device(),
                self.host(),
                self.stage(),
                status,
            ),
    {
        let (stage, action) = match (self.stage, esp(status)) {
            (TeardownStage::Start, _) => (
                TeardownStage::RemovingDevice,
                TeardownAction::RemoveDevice(self.device),
            ),
            (TeardownStage::RemovingDevice, Ok(_)) => (
                TeardownStage::FreeingBus,
                TeardownAction::FreeBus(self.host),
            ),
            (_, result) => (TeardownStage::Done, TeardownAction::Return(result)),
        };
        (Teardown { stage, ..self }, action)
    }
}

/// A teardown removes the device, frees the bus only where that succeeded, does each at most
/// once, and succeeds if and only if both do.
pub proof fn law_teardown_order(
    device: DeviceHandle,
    host: SpiHost,
    first: i32,
    removed: i32,
    freed: i32,
)
    ensures
        ({
            let (s1, a1) = teardown_step(device, host, TeardownStage::Start, first);
            let (s2, a2) = teardown_step(device, host, s1, removed);
            let (s3, a3) = teardown_step(device, host, s2, freed);
            &&& a1 == TeardownAction::RemoveDevice(device)
            &&& s1 != TeardownStage::Done
            &&& match esp_result(removed) {
                Err(e) => a2 == TeardownAction::Return(Err(e)) && s2 == TeardownStage::Done,
                Ok(_) => {
                    &&& a2 == TeardownAction::FreeBus(host)
                    &&& s2 != TeardownStage::Done
                    &&& a3 == TeardownAction::Return(esp_result(freed))
                    &&& s3 == TeardownStage::Done
                },
            }
        }),
{
}

} // verus!
