use vstd::prelude::*;

verus! {

/// The failures the EC channel and the flasher can report.
#[derive(Clone, Copy, PartialEq, Eq, Structural, Debug)]
pub enum EcError {
    /// An EC status bit never reached the expected state within the poll budget.
    Timeout,
    /// The Super-I/O probe found a chip id outside the known set.
    UnknownEc(u16),
    /// The flasher start command was acknowledged with a value other than 51.
    StartRejected(u8),
    /// A SPI address had a bit set above the 24-bit range.
    InvalidAddress(u32),
    /// A programming request whose length the AAI word protocol cannot carry.
    InvalidLength(usize),
    /// A byte read back after erasing was not 0xFF; offset and actual value.
    EraseMismatch(usize, u8),
    /// A byte read back after programming differed; offset, actual, expected.
    ProgramMismatch(usize, u8, u8),
    /// A query did not return the same value twice within the attempt budget.
    Unstable,
}

impl EcError {
    /// A short human-readable name for the error kind.
    pub fn describe(&self) -> (r: &'static str)
        ensures
            r@.len() > 0,
    {
        proof {
            reveal_strlit("timeout");
            reveal_strlit("unknown EC id");
            reveal_strlit("start rejected");
            reveal_strlit("invalid SPI address");
            reveal_strlit("invalid length");
            reveal_strlit("erase mismatch");
            reveal_strlit("program mismatch");
            reveal_strlit("unstable value");
        }
        match self {
            EcError::Timeout => "timeout",
            EcError::UnknownEc(_) => "unknown EC id",
            EcError::StartRejected(_) => "start rejected",
            EcError::InvalidAddress(_) => "invalid SPI address",
            EcError::InvalidLength(_) => "invalid length",
            EcError::EraseMismatch(_, _) => "erase mismatch",
            EcError::ProgramMismatch(_, _, _) => "program mismatch",
            EcError::Unstable => "unstable value",
        }
    }
}

} // verus!
