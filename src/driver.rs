//! The general call driver.
use vstd::prelude::*;

use crate::command::{Command, CommandCode, GENERAL_CALL_ADDR};
use crate::error::{classify_spec, res_map, Error, FaultKind};

verus! {

/// A bus that can write bytes to a 7-bit address.
///
/// Blocking and asynchronous HAL buses are adapted to it by the application.
/// The driver relies on `write` and `fault_kind` as their contracts state.
/// A bus written in verified code gives its own `writes` and `kind_of`. A
/// bus written outside it keeps the closed defaults, and there those
/// contracts are taken on trust.
pub trait Transport {
    /// What a failed write reports.
    type Fault;

    /// Every write made on this bus, oldest first: the address, the bytes, and
    /// what the bus replied.
    closed spec fn writes(&self) -> Seq<(u8, Seq<u8>, Result<(), Self::Fault>)> {
        Seq::empty()
    }

    /// The kind of a fault.
    closed spec fn kind_of(fault: Self::Fault) -> FaultKind {
        FaultKind::Other
    }

    /// Writes `bytes` to the device at `address` in one transaction.
    fn write(&mut self, address: u8, bytes: &[u8]) -> (r: Result<(), Self::Fault>)
        ensures
            final(self).writes() == old(self).writes().push((address, bytes@, r)),
    ;

    /// The kind of a fault that `write` reported.
    fn fault_kind(fault: &Self::Fault) -> (k: FaultKind)
        ensures
            k == Self::kind_of(*fault),
    ;
}

/// What a general call returns for the bus's reply `reply` to its write:
/// success stays success, a fault is classified by its kind.
pub open spec fn reply_result<T: Transport>(reply: Result<(), T::Fault>) -> Result<(), Error<T::Fault>> {
    match reply {
        Ok(()) => Ok(()),
        Err(f) => Err(classify_spec(T::kind_of(f), f)),
    }
}

/// `after` is the bus `before` after one more write of the single byte `code`
/// to the general call address, and `r` is what that call reports for the
/// bus's reply.
pub open spec fn issued<T: Transport>(before: T, after: T, code: u8, r: Result<(), Error<T::Fault>>) -> bool {
    &&& after.writes().len() == before.writes().len() + 1
    &&& after.writes().drop_last() == before.writes()
    &&& after.writes().last().0 == GENERAL_CALL_ADDR
    &&& after.writes().last().1 == seq![code]
    &&& r == reply_result::<T>(after.writes().last().2)
}

/// I2C general call driver.
pub struct GeneralCall<I2C: Transport> {
    i2c: I2C,
}

/// The outcome of a write, with the kind of its fault.
fn outcome<I2C: Transport>(res: Result<(), I2C::Fault>) -> (r: Result<(), (I2C::Fault, FaultKind)>)
    ensures
        res matches Ok(()) ==> r == Ok::<(), (I2C::Fault, FaultKind)>(()),
        res matches Err(f) ==> r == Err::<(), (I2C::Fault, FaultKind)>((f, I2C::kind_of(f))),
{
    match res {
        Ok(()) => Ok(()),
        Err(f) => {
            let kind = I2C::fault_kind(&f);
            Err((f, kind))
        },
    }
}

impl<I2C: Transport> GeneralCall<I2C> {
    /// The bus that this driver owns.
    pub closed spec fn bus(self) -> I2C {
        self.i2c
    }

    /// Create a new instance of an I2C general call driver.
    pub fn new(i2c: I2C) -> (r: Self)
        ensures
            r.bus() == i2c,
    {
        GeneralCall { i2c }
    }

    /// Destroy this driver instance and return the underlying I2C bus instance.
    pub fn destroy(self) -> (r: I2C)
        ensures
            r == self.bus(),
    {
        self.i2c
    }

    /// Issue a reset command general call (byte `0x06`), which instructs devices
    /// on the bus to latch their addresses and reset their registers to the
    /// default state.
    ///
    /// If successful, then at least one device on the bus ACKed the reset command.
    /// However, there is no guarantee that it actually performed a reset. One should verify
    /// the device actually honors reset general calls with the datasheet.
    ///
    /// # Errors
    ///
    /// If no device accepts general calls, [`Error::NoAckCall`] will be returned.
    ///
    /// If at least one device accepts general calls but not a reset command, [`Error::NoAckCmd`] will be returned.
    ///
    /// If any other I2C error occurs, the underlying error will be returned.
    pub fn reset(&mut self) -> (r: Result<(), Error<I2C::Fault>>)
        ensures
            issued(old(self).bus(), final(self).bus(), 0x06, r),
    {
        self.issue(Command::Reset.into())
    }

    /// Issue an address latch command general call (byte `0x04`), which
    /// instructs devices on the bus to latch their addresses but NOT perform a
    /// full reset.
    ///
    /// If successful, then at least one device on the bus ACKed the address latch command.
    /// However, there is no guarantee that it actually performed a latch. One should verify
    /// the device actually honors address latch general calls with the datasheet.
    ///
    /// # Errors
    ///
    /// If no device accepts general calls, [`Error::NoAckCall`] will be returned.
    ///
    /// If at least one device accepts general calls but not an address latch command,
    /// [`Error::NoAckCmd`] will be returned.
    ///
    /// If any other I2C error occurs, the underlying error will be returned.
    pub fn latch_addr(&mut self) -> (r: Result<(), Error<I2C::Fault>>)
        ensures
            issued(old(self).bus(), final(self).bus(), 0x04, r),
    {
        self.issue(Command::LatchAddr.into())
    }

    /// Issue an arbitrary command general call. The command code is nonzero, as
    /// the I2C standard requires.
    ///
    /// If successful, then at least one device on the bus ACKed the command.
    /// However, there is no guarantee that it actually performed the command. One should verify
    /// the device actually honors the command with the datasheet.
    ///
    /// # Errors
    ///
    /// If no device accepts general calls, [`Error::NoAckCall`] will be returned.
    ///
    /// If at least one device accepts general calls but not the command,
    /// [`Error::NoAckCmd`] will be returned.
    ///
    /// If any other I2C error occurs, the underlying error will be returned.
    pub fn call(&mut self, cmd: CommandCode) -> (r: Result<(), Error<I2C::Fault>>)
        ensures
            issued(old(self).bus(), final(self).bus(), cmd@, r),
            cmd@ != 0,
    {
        let code = cmd.get();
        self.issue(code)
    }

    /// Writes the single byte `code` to the general call address.
    fn issue(&mut self, code: u8) -> (r: Result<(), Error<I2C::Fault>>)
        ensures
            issued(old(self).bus(), final(self).bus(), code, r),
    {
        let ghost before = self.i2c;
        let bytes: [u8; 1] = [code];
        let res = self.i2c.write(GENERAL_CALL_ADDR, bytes.as_slice());
        let reply = outcome::<I2C>(res);
        proof {
            assert(bytes@ == seq![code]);
            assert(self.i2c.writes().drop_last() =~= before.writes());
        }
        res_map(reply)
    }
}

} // verus!
