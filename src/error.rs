use vstd::prelude::*;

verus! {

/// The error kinds that every channel operation can report.
#[derive(Debug, Clone, Copy, PartialEq, Eq, Structural)]
pub enum Error {
    /// The channel index is outside the capability's sequence.
    InvalidChannel,
    /// A parameter is outside the range the channel accepts.
    InvalidParameter,
    /// The capability is intentionally absent on this hardware.
    NotImplemented,
    /// The watchdog was not serviced in time.
    WatchdogTimeout,
    /// An underlying device access failed.
    AccessFailed,
    /// A configuration or calibration value could not be parsed.
    ParseIntError,
    /// Any other internal failure, such as a poisoned lock.
    GenericError,
}

pub type Result<T> = core::result::Result<T, Error>;

impl Error {
    /// The error reported when a device access fails without a more specific cause.
    pub fn generic_access_error() -> (r: Error)
        ensures
            r == Error::AccessFailed,
    {
        Error::AccessFailed
    }

    /// A short human-readable description of the error.
    pub fn message(&self) -> (r: &'static str) {
        match self {
            Error::InvalidChannel => "Invalid channel specified",
            Error::InvalidParameter => "Invalid parameter specified",
            Error::NotImplemented => "Functionality is not implemented",
            Error::WatchdogTimeout => "Watchdog timed out",
            Error::AccessFailed => "Failed to access device",
            Error::ParseIntError => "Failed to convert number",
            Error::GenericError => "Generic internal error",
        }
    }
}

} // verus!
