//! The general call address and the command bytes sent to it.
use vstd::prelude::*;

verus! {

/// The general call (broadcast) address, in 7-bit form.
pub const GENERAL_CALL_ADDR: u8 = 0x00;

/// The two commands that the I2C standard defines for general calls.
#[derive(Clone, Copy, Debug, PartialEq, Eq)]
pub enum Command {
    /// Latch the programmable part of the address and reset the registers.
    Reset,
    /// Latch the programmable part of the address without a reset.
    LatchAddr,
}

/// The wire byte of a standard command.
pub open spec fn command_byte(cmd: Command) -> u8 {
    match cmd {
        Command::Reset => 0x06,
        Command::LatchAddr => 0x04,
    }
}

impl From<Command> for u8 {
    fn from(cmd: Command) -> (r: u8)
        ensures
            r == command_byte(cmd),
    {
        match cmd {
            Command::Reset => 0x06,
            Command::LatchAddr => 0x04,
        }
    }
}

impl vstd::std_specs::convert::FromSpecImpl<Command> for u8 {
    open spec fn obeys_from_spec() -> bool {
        true
    }

    open spec fn from_spec(cmd: Command) -> u8 {
        command_byte(cmd)
    }
}

/// A general call command byte of the application's choice.
///
/// The byte is never zero: zero is the general call address itself, and the
/// I2C standard forbids it as a second byte.
#[derive(Clone, Copy, Debug, PartialEq, Eq)]
pub struct CommandCode {
    code: u8,
}

impl CommandCode {
    #[verifier::type_invariant]
    spec fn nonzero(self) -> bool {
        self.code != 0
    }

    /// The byte that this command code stands for.
    pub closed spec fn view(self) -> u8 {
        self.code
    }

    /// A command code for `code`, or `None` where `code` is zero.
    pub fn new(code: u8) -> (r: Option<CommandCode>)
        ensures
            code == 0 <==> r is None,
            r matches Some(c) ==> c@ == code,
    {
        if code == 0 {
            None
        } else {
            Some(CommandCode { code })
        }
    }

    /// The byte that this command code stands for; never zero.
    pub fn get(&self) -> (r: u8)
        ensures
            r == self@,
            r != 0,
    {
        proof {
            use_type_invariant(self);
        }
        self.code
    }
}

} // verus!
