//! The codes of the six service routines.

use crate::error::{ErrorKind, VMError};
use vstd::prelude::*;
use vstd::std_specs::convert::TryFromSpecImpl;
use vstd::string::StringExecFns;

verus! {

/// The service routines that a TRAP instruction can ask for.
#[derive(Clone, Copy, Debug, PartialEq, Eq, Structural)]
pub enum TrapCode {
    /// Read one key, without echo.
    GetC,
    /// Write one character.
    Out,
    /// Write a string of one character per word.
    Puts,
    /// Prompt for one key and echo it.
    In,
    /// Write a string of two characters per word.
    PutsP,
    /// Stop the machine.
    Halt,
}

/// The routine that a trap vector stands for, if it stands for one.
pub open spec fn trap_code_of(value: u16) -> Option<TrapCode> {
    if value == 0x20 {
        Some(TrapCode::GetC)
    } else if value == 0x21 {
        Some(TrapCode::Out)
    } else if value == 0x22 {
        Some(TrapCode::Puts)
    } else if value == 0x23 {
        Some(TrapCode::In)
    } else if value == 0x24 {
        Some(TrapCode::PutsP)
    } else if value == 0x25 {
        Some(TrapCode::Halt)
    } else {
        None
    }
}

impl TryFrom<u16> for TrapCode {
    type Error = VMError;

    /// The routine for a trap vector; any other number is refused with
    /// `Conversion`.
    fn try_from(value: u16) -> (r: Result<Self, Self::Error>)
        ensures
            match r {
                Ok(code) => trap_code_of(value) == Some(code),
                Err(e) => trap_code_of(value) is None && e.spec_kind() == ErrorKind::Conversion,
            },
    {
        match value {
            0x20 => Ok(TrapCode::GetC),
            0x21 => Ok(TrapCode::Out),
            0x22 => Ok(TrapCode::Puts),
            0x23 => Ok(TrapCode::In),
            0x24 => Ok(TrapCode::PutsP),
            0x25 => Ok(TrapCode::Halt),
            _ => Err(VMError::Conversion(String::from_str("Invalid u16 for TrapCode conversion"))),
        }
    }
}

impl TryFromSpecImpl<u16> for TrapCode {
    /// The conversion is stated by the `ensures` of `try_from` itself: its
    /// failure carries a message, which no spec value can spell out.
    open spec fn obeys_try_from_spec() -> bool {
        false
    }

    open spec fn try_from_spec(value: u16) -> Result<Self, VMError> {
        match trap_code_of(value) {
            Some(code) => Ok(code),
            None => Err(arbitrary()),
        }
    }
}

} // verus!
