//! A transaction: the bus is acquired, the caller's body runs on it, CS is let go of, and the bus
//! is released, whether or not the body succeeded.

use vstd::prelude::*;

use crate::bus::SpiBusMasterDriver;
use crate::sys::{esp, esp_result, DeviceHandle, EspError};
use crate::transmission::Transmission;

verus! {

/// The bus, acquired for a device. It is released through the handle that acquired it.
#[derive(Debug, PartialEq, Eq, Structural)]
pub struct Lock {
    pub device: DeviceHandle,
}

/// What comes of acquiring the bus for `device`.
pub open spec fn lock_result(device: DeviceHandle, status: i32) -> Result<Lock, EspError> {
    match esp_result(status) {
        Ok(_) => Ok(Lock { device }),
        Err(e) => Err(e),
    }
}

impl Lock {
    /// The lock that an attempt to acquire the bus for `device` gives; `status` is how it ended.
    pub fn new(device: DeviceHandle, status: i32) -> (lock: Result<Lock, EspError>)
        ensures
            lock == lock_result(device, status),
            lock is Ok <==> status == 0,
            lock matches Ok(l) ==> l.device == device,
            lock matches Err(e) ==> e.code == status,
    {
        match esp(status) {
            Ok(_) => Ok(Lock { device }),
            Err(e) => Err(e),
        }
    }
}

/// Why a transaction failed.
#[derive(Debug, PartialEq, Eq)]
pub enum Failure<E> {
    /// Its body returned this error.
    Body(E),
    /// A call of the driver failed.
    Driver(EspError),
}

impl<E: From<EspError>> Failure<E> {
    /// The error of the body, or the one that its type makes of a failed call.
    pub fn into_error(self) -> (error: E)
        ensures
            self matches Failure::Body(e) ==> error == e,
            self matches Failure::Driver(e) ==> call_ensures(E::from, (e,), error),
    {
        match self {
            Failure::Body(error) => error,
            Failure::Driver(e) => E::from(e),
        }
    }
}

/// How far a transaction has come.
#[derive(Debug, PartialEq, Eq)]
pub enum Stage<R, E> {
    Start,
    Acquiring,
    Running(Lock),
    Finishing(Lock, Result<R, E>),
    Releasing(Result<R, Failure<E>>),
    Done,
}

/// What a transaction wants next.
#[derive(Debug, PartialEq, Eq)]
pub enum Action<R, E> {
    /// Acquire the bus for this device, however long it takes.
    AcquireBus(DeviceHandle),
    /// Run the body on this bus.
    Run(SpiBusMasterDriver),
    /// Perform this transmission.
    Transmit(Transmission),
    /// Release the bus that was acquired for this device.
    ReleaseBus(DeviceHandle),
    /// The transaction returns this.
    Return(Result<R, Failure<E>>),
}

/// What came of the last action.
#[derive(Debug, PartialEq, Eq)]
pub enum Reply<R, E> {
    /// There was none: the transaction begins.
    Start,
    /// The status of the attempt to acquire the bus.
    Acquired(i32),
    /// What the body returned.
    Ran(Result<R, E>),
    /// The status of the transmission.
    Transmitted(i32),
    /// The bus has been released.
    Released,
}

impl<R, E> Stage<R, E> {
    /// Whether a reply is one to the action that led to this stage.
    pub open spec fn expects(self, reply: Reply<R, E>) -> bool {
        match self {
            Stage::Start => reply is Start,
            Stage::Acquiring => reply is Acquired,
            Stage::Running(_) => reply is Ran,
            Stage::Finishing(_, _) => reply is Transmitted,
            Stage::Releasing(_) => reply is Released,
            Stage::Done => false,
        }
    }
}

/// What a transaction returns when its body returned `ran`, the transmission that ends it came
/// to `finished`, and flushing came to `flushed`: the first failure, in that order, or the value
/// of the body.
pub open spec fn transaction_result<R, E>(
    ran: Result<R, E>,
    finished: Result<(), EspError>,
    flushed: Result<(), EspError>,
) -> Result<R, Failure<E>> {
    match ran {
        Err(e) => Err(Failure::Body(e)),
        Ok(value) => match finished {
            Err(e) => Err(Failure::Driver(e)),
            Ok(_) => match flushed {
                Err(e) => Err(Failure::Driver(e)),
                Ok(_) => Ok(value),
            },
        },
    }
}

/// What a transaction on `bus` does at a stage when a reply comes in.
pub open spec fn transaction_step<R, E>(
    bus: SpiBusMasterDriver,
    stage: Stage<R, E>,
    reply: Reply<R, E>,
) -> (Stage<R, E>, Action<R, E>)
    recommends
        stage.expects(reply),
{
    let device = bus.link().handle;
    match stage {
        Stage::Start => (Stage::Acquiring, Action::AcquireBus(device)),
        Stage::Acquiring => match lock_result(device, reply->Acquired_0) {
            Ok(lock) => (Stage::Running(lock), Action::Run(bus)),
            Err(e) => (Stage::Done, Action::Return(Err(Failure::Driver(e)))),
        },
        Stage::Running(lock) => (
            Stage::Finishing(lock, reply->Ran_0),
            Action::Transmit(bus.finish_transmission()),
        ),
        Stage::Finishing(lock, ran) => (
            Stage::Releasing(
                transaction_result(ran, esp_result(reply->Transmitted_0), Ok(())),
            ),
            Action::ReleaseBus(lock.device),
        ),
        Stage::Releasing(result) => (Stage::Done, Action::Return(result)),
        Stage::Done => (stage, Action::AcquireBus(device)),
    }
}

/// Picks what a transaction returns.
fn conclude<R, E>(
    ran: Result<R, E>,
    finished: Result<(), EspError>,
    flushed: Result<(), EspError>,
) -> (result: Result<R, Failure<E>>)
    ensures
        result == transaction_result(ran, finished, flushed),
        ran matches Err(e) ==> result == Err::<R, Failure<E>>(Failure::Body(e)),
        ran is Ok && finished is Err ==> result == Err::<R, Failure<E>>(
            Failure::Driver(finished->Err_0),
        ),
        ran is Ok && finished is Ok && flushed is Err ==> result == Err::<R, Failure<E>>(
            Failure::Driver(flushed->Err_0),
        ),
        ran is Ok && finished is Ok && flushed is Ok ==> result == Ok::<R, Failure<E>>(
            ran->Ok_0,
        ),
{
    match ran {
        Err(e) => Err(Failure::Body(e)),
        Ok(value) => match finished {
            Err(e) => Err(Failure::Driver(e)),
            Ok(_) => match flushed {
                Err(e) => Err(Failure::Driver(e)),
                Ok(_) => Ok(value),
            },
        },
    }
}

/// A transaction that is under way; its body returns a `Result<R, E>`.
#[derive(Debug)]
pub struct BusTransaction<R, E> {
    bus: SpiBusMasterDriver,
    stage: Stage<R, E>,
}

impl<R, E> BusTransaction<R, E> {
    pub closed spec fn bus(&self) -> SpiBusMasterDriver {
        self.bus
    }

    pub closed spec fn stage(&self) -> Stage<R, E> {
        self.stage
    }

    pub(crate) fn new(bus: SpiBusMasterDriver) -> (transaction: BusTransaction<R, E>)
        ensures
            transaction.bus() == bus,
            transaction.stage() == Stage::<R, E>::Start,
    {
        BusTransaction { bus, stage: Stage::Start }
    }

    pub(crate) fn current_bus(&self) -> (bus: SpiBusMasterDriver)
        ensures
            bus == self.bus(),
    {
        self.bus.alias()
    }

    /// Whether the body is running.
    pub(crate) fn is_running(&self) -> (running: bool)
        ensures
            running == (self.stage() is Running),
    {
        matches!(self.stage, Stage::Running(_))
    }

    /// Moves the transaction on. `reply` is what came of the action that was last handed out;
    /// before the first one it is `Reply::Start`.
    pub fn step(self, reply: Reply<R, E>) -> (res: (BusTransaction<R, E>, Action<R, E>))
        requires
            self.stage().expects(reply),
        ensures
            res.0.bus() == self.bus(),
            (res.0.stage(), res.1) == transaction_step(self.bus(), self.stage(), reply),
    {
        let mut bus = self.bus;
        let device = bus.device_link().handle;
        let (stage, action) = match (self.stage, reply) {
            (Stage::Start, _) => (Stage::Acquiring, Action::AcquireBus(device)),
            (Stage::Acquiring, Reply::Acquired(status)) => match Lock::new(device, status) {
                Ok(lock) => (Stage::Running(lock), Action::Run(bus.alias())),
                Err(e) => (Stage::Done, Action::Return(Err(Failure::Driver(e)))),
            },
            (Stage::Running(lock), Reply::Ran(ran)) => {
                let finish = bus.finish();
                (Stage::Finishing(lock, ran), Action::Transmit(finish))
            },
            (Stage::Finishing(lock, ran), Reply::Transmitted(status)) => {
                // Done also when the body failed.
                let flushed = bus.flush();
                let result = conclude(ran, esp(status), flushed);
                (Stage::Releasing(result), Action::ReleaseBus(lock.device))
            },
            (Stage::Releasing(result), _) => (Stage::Done, Action::Return(result)),
            _ => vstd::pervasive::unreached(),
        };
        (BusTransaction { bus, stage }, action)
    }
}

/// The transmission that ends a transaction moves nothing and does not keep CS active.
pub proof fn law_finish_lets_go_of_cs(bus: SpiBusMasterDriver)
    ensures
        bus.finish_transmission().handle == bus.link().handle,
        bus.finish_transmission().flags == 0,
        bus.finish_transmission().tx is None,
        bus.finish_transmission().rx is None,
        bus.finish_transmission().length == 0,
        bus.finish_transmission().rxlength == 0,
{
}

/// A transaction whose bus could not be acquired runs nothing, releases nothing, and returns the
/// error. Otherwise it runs its body on the bus, then lets go of CS, then releases the bus with
/// the handle that acquired it, all of that once and in this order, whatever the body and the
/// last transmission came to; the body's error goes before that of the transmission.
pub proof fn law_transaction_order<R, E>(
    bus: SpiBusMasterDriver,
    acquired: i32,
    ran: Result<R, E>,
    finished: i32,
)
    ensures
        ({
            let device = bus.link().handle;
            let (s1, a1) = transaction_step(bus, Stage::<R, E>::Start, Reply::Start);
            let (s2, a2) = transaction_step(bus, s1, Reply::Acquired(acquired));
            let (s3, a3) = transaction_step(bus, s2, Reply::Ran(ran));
            let (s4, a4) = transaction_step(bus, s3, Reply::Transmitted(finished));
            let (s5, a5) = transaction_step(bus, s4, Reply::Released);
            &&& Stage::<R, E>::Start.expects(Reply::Start)
            &&& a1 == Action::<R, E>::AcquireBus(device)
            &&& s1.expects(Reply::Acquired(acquired))
            &&& match esp_result(acquired) {
                Err(e) => {
                    &&& s2 is Done
                    &&& a2 == Action::<R, E>::Return(Err(Failure::Driver(e)))
                },
                Ok(_) => {
                    &&& a2 == Action::<R, E>::Run(bus)
                    &&& s2.expects(Reply::Ran(ran))
                    &&& a3 == Action::<R, E>::Transmit(bus.finish_transmission())
                    &&& s3.expects(Reply::Transmitted(finished))
                    &&& a4 == Action::<R, E>::ReleaseBus(device)
                    &&& s4.expects(Reply::Released)
                    &&& a5 == Action::Return(
                        match (ran, esp_result(finished)) {
                            (Err(e), _) => Err(Failure::Body(e)),
                            (Ok(_), Err(e)) => Err(Failure::Driver(e)),
                            (Ok(value), Ok(_)) => Ok(value),
                        },
                    )
                    &&& s5 is Done
                },
            }
        }),
{
}

} // verus!
