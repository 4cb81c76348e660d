//! The ways in which a transfer can end without success.

use vstd::prelude::*;

verus! {

/// Why a transfer was given up. Each of these is final for the operation in
/// which it arises: nothing is retried.
#[derive(Clone, Copy, Debug, PartialEq, Eq, Structural)]
pub enum Error {
    /// The image is longer than the chip's capacity.
    RomTooBig,
    /// The programmer answered a page write with anything but the
    /// acknowledgement byte.
    NoWriteAck,
    /// A page read back from the chip differs from the expected image.
    VerifyFailed,
    /// The link to the programmer failed or delivered a reply of the wrong
    /// length.
    Transport,
}

impl Error {
    /// The text of the message, as a sequence of characters.
    pub open spec fn message_text(self) -> Seq<char> {
        match self {
            Error::RomTooBig => "ROM file too large to fit on EEPROM"@,
            Error::NoWriteAck => "programmer did not acknowledge write"@,
            Error::VerifyFailed => "verification failed"@,
            Error::Transport => "serial transport failed"@,
        }
    }

    /// A one-line description for the operator.
    pub fn message(&self) -> (text: &'static str)
        ensures
            text@ == self.message_text(),
    {
        match self {
            Error::RomTooBig => "ROM file too large to fit on EEPROM",
            Error::NoWriteAck => "programmer did not acknowledge write",
            Error::VerifyFailed => "verification failed",
            Error::Transport => "serial transport failed",
        }
    }
}

} // verus!
