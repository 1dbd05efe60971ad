use vstd::prelude::*;

verus! {

/// Failure taxonomy of the frame pipeline.
///
/// `InvalidChecksum` is the only recoverable error: the monitor discards the
/// frame and keeps running. The other three terminate the session. The
/// surrounding program keeps the underlying I/O error itself; here a
/// transport failure is recorded only as `Transport`.
#[derive(Clone, Copy, Debug, PartialEq, Eq, Structural)]
pub enum Error {
    /// The frame's checksum byte does not match the payload. Recoverable.
    InvalidChecksum,
    /// The frame does not begin with the start marker. Fatal.
    InvalidStartByte,
    /// The frame does not end with the stop marker. Fatal.
    InvalidStopByte,
    /// The underlying read or write failed or timed out. Fatal.
    Transport,
}

impl Error {
    /// A human-readable description of the error.
    pub fn message(&self) -> (r: &'static str)
        ensures
            r@ == self.spec_message(),
    {
        match self {
            Error::InvalidChecksum => "invalid checksum",
            Error::InvalidStartByte => "invalid start byte",
            Error::InvalidStopByte => "invalid stop byte",
            Error::Transport => "transport error",
        }
    }

    /// The description returned by `message`.
    pub open spec fn spec_message(&self) -> Seq<char> {
        match self {
            Error::InvalidChecksum => "invalid checksum"@,
            Error::InvalidStartByte => "invalid start byte"@,
            Error::InvalidStopByte => "invalid stop byte"@,
            Error::Transport => "transport error"@,
        }
    }
}

} // verus!
