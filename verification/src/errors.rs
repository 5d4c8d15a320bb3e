//! The errors of USB operations.
use vstd::prelude::*;

verus! {

/// The error that a USB operation reports to the guest.
#[derive(Debug, Clone, Copy, PartialEq, Eq, Structural)]
pub enum LibusbError {
    Io,
    InvalidParam,
    Access,
    NoDevice,
    NotFound,
    Busy,
    Timeout,
    Overflow,
    Pipe,
    Interrupted,
    NoMem,
    NotSupported,
    Other,
}

impl LibusbError {
    /// The `libusb_error` value that stands for this error.
    pub open spec fn code(self) -> int {
        match self {
            LibusbError::Io => -1,
            LibusbError::InvalidParam => -2,
            LibusbError::Access => -3,
            LibusbError::NoDevice => -4,
            LibusbError::NotFound => -5,
            LibusbError::Busy => -6,
            LibusbError::Timeout => -7,
            LibusbError::Overflow => -8,
            LibusbError::Pipe => -9,
            LibusbError::Interrupted => -10,
            LibusbError::NoMem => -11,
            LibusbError::NotSupported => -12,
            LibusbError::Other => -99,
        }
    }

    /// Whether some error has the code `value`.
    pub open spec fn is_code(value: int) -> bool {
        -12 <= value <= -1 || value == -99
    }

    /// The error whose code is `value`; `Other` where no error has that code.
    pub open spec fn of_code(value: int) -> LibusbError {
        if value == -1 {
            LibusbError::Io
        } else if value == -2 {
            LibusbError::InvalidParam
        } else if value == -3 {
            LibusbError::Access
        } else if value == -4 {
            LibusbError::NoDevice
        } else if value == -5 {
            LibusbError::NotFound
        } else if value == -6 {
            LibusbError::Busy
        } else if value == -7 {
            LibusbError::Timeout
        } else if value == -8 {
            LibusbError::Overflow
        } else if value == -9 {
            LibusbError::Pipe
        } else if value == -10 {
            LibusbError::Interrupted
        } else if value == -11 {
            LibusbError::NoMem
        } else if value == -12 {
            LibusbError::NotSupported
        } else {
            LibusbError::Other
        }
    }

    /// What a libusb status stands for: any value that is not negative is success, a
    /// negative one is the error with that code.
    pub open spec fn of_status(status: i32) -> Result<(), LibusbError> {
        if status >= 0 {
            Ok(())
        } else {
            Err(LibusbError::of_code(status as int))
        }
    }

    /// Convert a raw `libusb_error` integer value to a `LibusbError` variant.
    ///
    /// Codes that libusb does not define become `Other`.
    pub fn from_raw(value: i32) -> (error: Self)
        ensures
            error == Self::of_code(value as int),
    {
        match value {
            -1 => LibusbError::Io,
            -2 => LibusbError::InvalidParam,
            -3 => LibusbError::Access,
            -4 => LibusbError::NoDevice,
            -5 => LibusbError::NotFound,
            -6 => LibusbError::Busy,
            -7 => LibusbError::Timeout,
            -8 => LibusbError::Overflow,
            -9 => LibusbError::Pipe,
            -10 => LibusbError::Interrupted,
            -11 => LibusbError::NoMem,
            -12 => LibusbError::NotSupported,
            -99 => LibusbError::Other,
            _ => LibusbError::Other,  // codes that libusb does not define
        }
    }
}

/// Turn the status that a libusb call returned into the reply for the guest.
pub fn status_reply(status: i32) -> (reply: Result<(), LibusbError>)
    ensures
        reply == LibusbError::of_status(status),
{
    if status >= 0 {
        Ok(())
    } else {
        Err(LibusbError::from_raw(status))
    }
}

/// Every error is read back from its own code, and a code that no error has is read as
/// `Other`.
pub proof fn law_codes_round_trip(error: LibusbError, value: int)
    ensures
        LibusbError::is_code(error.code()),
        LibusbError::of_code(error.code()) == error,
        LibusbError::is_code(value) ==> LibusbError::of_code(value).code() == value,
        !LibusbError::is_code(value) ==> LibusbError::of_code(value) == LibusbError::Other,
{
}

} // verus!
