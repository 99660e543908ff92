//! Decisions over the NT status codes returned by the wait-completion-packet
//! calls (`NtCreateWaitCompletionPacket`, `NtAssociateWaitCompletionPacket`,
//! `NtCancelWaitCompletionPacket`) and by `NtRemoveIoCompletionEx`.

use vstd::prelude::*;

verus! {

/// The NT call succeeded.
pub const STATUS_SUCCESS: i32 = 0;
/// An alertable wait was interrupted by a user-mode callback.
pub const STATUS_USER_APC: i32 = 192;
/// The wait timed out.
pub const STATUS_TIMEOUT: i32 = 258;
/// The operation is still in progress.
pub const STATUS_PENDING: i32 = 259;
/// The operation was cancelled.  This is NTSTATUS 0xC0000120 read as a
/// signed 32-bit value.
pub const STATUS_CANCELLED: i32 = -1073741536;

/// Whether an NT status is a plain success: `Ok` exactly on
/// `STATUS_SUCCESS`, the offending status otherwise.
pub open spec fn spec_check_status(status: i32) -> Result<(), i32> {
    if status == STATUS_SUCCESS {
        Ok(())
    } else {
        Err(status)
    }
}

/// Check an NT status for plain success; any other status is handed back to
/// be reported as the error.
pub fn check_status(status: i32) -> (r: Result<(), i32>)
    ensures
        r == spec_check_status(status),
{
    if status == STATUS_SUCCESS {
        Ok(())
    } else {
        Err(status)
    }
}

/// What the status of `NtCancelWaitCompletionPacket` means for the packet:
/// `Ok(true)` — cancelled (SUCCESS or CANCELLED), the packet is free for
/// re-use; `Ok(false)` — a completion is in flight (PENDING), the packet
/// cannot be re-used yet; `Err` — any other status, to be reported.
pub open spec fn spec_cancel_result(status: i32) -> Result<bool, i32> {
    if status == STATUS_SUCCESS || status == STATUS_CANCELLED {
        Ok(true)
    } else if status == STATUS_PENDING {
        Ok(false)
    } else {
        Err(status)
    }
}

/// Interpret the status of a packet cancellation.
pub fn cancel_result(status: i32) -> (r: Result<bool, i32>)
    ensures
        r == spec_cancel_result(status),
{
    if status == STATUS_SUCCESS || status == STATUS_CANCELLED {
        Ok(true)
    } else if status == STATUS_PENDING {
        Ok(false)
    } else {
        Err(status)
    }
}

} // verus!
