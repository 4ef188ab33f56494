//! Properties that every general call has, stated over the writes that the
//! bus records and the relation `issued` that the driver's operations ensure.
use vstd::prelude::*;

use crate::command::{command_byte, Command, GENERAL_CALL_ADDR};
use crate::driver::{issued, GeneralCall, Transport};
use crate::error::{AckSource, Error, FaultKind};

verus! {

/// Every general call writes exactly one byte, to the broadcast address, and
/// makes no other write on the bus.
pub proof fn one_byte_to_broadcast<T: Transport>(before: T, after: T, code: u8, r: Result<(), Error<T::Fault>>)
    requires
        issued(before, after, code, r),
    ensures
        after.writes().len() == before.writes().len() + 1,
        after.writes().last().0 == 0,
        after.writes().last().1.len() == 1,
        after.writes().last().1[0] == code,
{
}

/// The standard commands are the bytes `0x06` (reset) and `0x04` (address latch).
pub proof fn standard_command_bytes()
    ensures
        command_byte(Command::Reset) == 0x06,
        command_byte(Command::LatchAddr) == 0x04,
        GENERAL_CALL_ADDR == 0,
{
}

/// Where the bus reports that the address was not acknowledged, the general
/// call returns `NoAckCall`.
pub proof fn address_nack_is_no_ack_call<T: Transport>(
    before: T,
    after: T,
    code: u8,
    r: Result<(), Error<T::Fault>>,
)
    requires
        issued(before, after, code, r),
        after.writes().last().2 matches Err(f) && T::kind_of(f) == FaultKind::NoAcknowledge(AckSource::Address),
    ensures
        r == Err::<(), Error<T::Fault>>(Error::NoAckCall),
{
}

/// Where the bus reports that the data byte was not acknowledged, the general
/// call returns `NoAckCmd`.
pub proof fn data_nack_is_no_ack_cmd<T: Transport>(
    before: T,
    after: T,
    code: u8,
    r: Result<(), Error<T::Fault>>,
)
    requires
        issued(before, after, code, r),
        after.writes().last().2 matches Err(f) && T::kind_of(f) == FaultKind::NoAcknowledge(AckSource::Data),
    ensures
        r == Err::<(), Error<T::Fault>>(Error::NoAckCmd),
{
}

/// Where the bus reports success, the general call succeeds.
pub proof fn success_is_success<T: Transport>(before: T, after: T, code: u8, r: Result<(), Error<T::Fault>>)
    requires
        issued(before, after, code, r),
        after.writes().last().2 is Ok,
    ensures
        r == Ok::<(), Error<T::Fault>>(()),
{
}

/// Where the bus reports any other fault, the general call returns that very
/// fault in `Error::I2C`.
pub proof fn other_fault_passes_through<T: Transport>(
    before: T,
    after: T,
    code: u8,
    r: Result<(), Error<T::Fault>>,
    fault: T::Fault,
)
    requires
        issued(before, after, code, r),
        after.writes().last().2 == Err::<(), T::Fault>(fault),
        T::kind_of(fault) != FaultKind::NoAcknowledge(AckSource::Address),
        T::kind_of(fault) != FaultKind::NoAcknowledge(AckSource::Data),
    ensures
        r == Err::<(), Error<T::Fault>>(Error::I2C(fault)),
{
}

/// A driver that was just made and is destroyed again hands back the bus it
/// was made with, with no write made on it.
pub proof fn new_then_destroy<T: Transport>(i2c: T, made: GeneralCall<T>, back: T)
    requires
        call_ensures(GeneralCall::<T>::new, (i2c,), made),
        call_ensures(GeneralCall::<T>::destroy, (made,), back),
    ensures
        back == i2c,
        back.writes() == i2c.writes(),
{
}

} // verus!
