//! The error type and the Win32 error codes the poller reports.

use vstd::prelude::*;

verus! {

/// The operation completed successfully.
pub const ERROR_SUCCESS: u32 = 0;
/// Not enough storage is available to process this command.
pub const ERROR_NOT_ENOUGH_MEMORY: u32 = 8;
/// The parameter is incorrect.
pub const ERROR_INVALID_PARAMETER: u32 = 87;
/// Cannot create a file when that file already exists.
pub const ERROR_ALREADY_EXISTS: u32 = 183;
/// The wait operation timed out.
pub const WAIT_TIMEOUT: u32 = 258;
/// Element not found.
pub const ERROR_NOT_FOUND: u32 = 1168;
/// Not enough quota is available to process this command.
pub const ERROR_NOT_ENOUGH_QUOTA: u32 = 1816;

/// Win32 error with error code.
#[derive(Debug, Clone, Copy, PartialEq, Eq, Structural)]
pub struct Error(pub u32);

impl Error {
    /// The Win32 error code carried by this error.
    pub fn code(&self) -> (r: u32)
        ensures
            r == self.0,
    {
        self.0
    }
}

} // verus!
