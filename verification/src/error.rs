//! Faults of the single-wire bus.

use vstd::prelude::*;

verus! {

/// What can go wrong in a transaction on the single-wire bus.
#[derive(Clone, Copy, Debug, PartialEq, Eq, Structural)]
pub enum BusError {
    /// The line is not pulled high, or no device answers the reset pulse.
    NoPresence,
    /// Received data fails its checksum.
    ChecksumMismatch,
    /// A device answered differently than the protocol allows at that point.
    UnexpectedResponse,
    /// A device did not finish in time.
    Timeout,
    /// The pin driving the line reported a fault.
    PinFault,
}

impl BusError {
    /// A fatal error ends whatever was in progress; any other error only
    /// costs the device or the sample during which it occurred.
    pub open spec fn fatal(self) -> bool {
        self == BusError::NoPresence || self == BusError::PinFault
    }

    /// The text shown for the error on the console.
    pub open spec fn message(self) -> Seq<char> {
        match self {
            BusError::NoPresence => "Bus not high"@,
            BusError::ChecksumMismatch => "CRC mismatch"@,
            BusError::UnexpectedResponse => "Unexpected response"@,
            BusError::Timeout => "Timeout"@,
            BusError::PinFault => "Pin error"@,
        }
    }

    /// Whether the error is fatal.
    pub fn is_fatal(&self) -> (fatal: bool)
        ensures
            fatal == self.fatal(),
    {
        match self {
            BusError::NoPresence => true,
            BusError::PinFault => true,
            _ => false,
        }
    }

    /// The console text of the error.
    pub fn describe(&self) -> (text: &'static str)
        ensures
            text@ == self.message(),
    {
        match self {
            BusError::NoPresence => "Bus not high",
            BusError::ChecksumMismatch => "CRC mismatch",
            BusError::UnexpectedResponse => "Unexpected response",
            BusError::Timeout => "Timeout",
            BusError::PinFault => "Pin error",
        }
    }
}

} // verus!
