//! The decisions of the `epoll`-compatible ABI surface: the `EPOLL*`
//! constants, the decoding of event flags into a polling mode, the control
//! operation codes, the argument checks of the creation calls, and the
//! timeout conversions.  The pointer handling, the last-error reporting and
//! the process-wide handle registry of the actual C-callable functions live
//! outside this crate.

use vstd::prelude::*;

use crate::io::{ERROR_INVALID_PARAMETER, Error};
use crate::{Event, PollMode};

verus! {

/// Readable event.
pub const EPOLLIN: i32 = 1;
/// Writable event.
pub const EPOLLOUT: i32 = 2;
/// Hangup event.
pub const EPOLLHUP: i32 = 4;
/// Error event.
pub const EPOLLERR: i32 = 64;
/// Edge trigger.
pub const EPOLLET: i32 = 256;
/// Oneshot trigger.
pub const EPOLLONESHOT: i32 = 512;

/// Add an entry.
pub const EPOLL_CTL_ADD: i32 = 1;
/// Modify an entry.
pub const EPOLL_CTL_MOD: i32 = 2;
/// Delete an entry.
pub const EPOLL_CTL_DEL: i32 = 3;

/// The socket operation was attempted on a non-socket.
pub const WSAENOTSOCK: i32 = 10038;

/// The polling mode selected by an event's `EPOLLET` and `EPOLLONESHOT`
/// bits: neither — Level; oneshot only — Oneshot; edge only — Edge; both —
/// EdgeOneshot.
pub open spec fn spec_poll_mode_of(events: u32) -> PollMode {
    let et = (events & (EPOLLET as u32)) != 0;
    let oneshot = (events & (EPOLLONESHOT as u32)) != 0;
    if et {
        if oneshot {
            PollMode::EdgeOneshot
        } else {
            PollMode::Edge
        }
    } else {
        if oneshot {
            PollMode::Oneshot
        } else {
            PollMode::Level
        }
    }
}

/// Split a registration event into the interest and the polling mode its
/// trigger bits select.
pub fn interest_mode(event: &Event) -> (r: (Event, PollMode))
    ensures
        r.0 == *event,
        r.1 == spec_poll_mode_of(event.events),
{
    let et = (event.events & (EPOLLET as u32)) != 0;
    let oneshot = (event.events & (EPOLLONESHOT as u32)) != 0;
    let mode = if et {
        if oneshot {
            PollMode::EdgeOneshot
        } else {
            PollMode::Edge
        }
    } else {
        if oneshot {
            PollMode::Oneshot
        } else {
            PollMode::Level
        }
    };
    (*event, mode)
}

/// Classify a handle from the result of the `WSAGetQOSByName` probe: the
/// probe fails on any handle, and a non-socket fails with `WSAENOTSOCK`, so
/// the handle is a socket exactly when the reported error is a different
/// one.
pub fn is_socket(wsa_error: i32) -> (r: bool)
    ensures
        r == (wsa_error != WSAENOTSOCK),
{
    wsa_error != WSAENOTSOCK
}

/// A control operation of the interest list.
#[derive(Debug, Clone, Copy, PartialEq, Eq, Structural)]
pub enum CtlOp {
    /// Register a new entry.
    Add,
    /// Modify an existing entry.
    Modify,
    /// Delete an entry.
    Delete,
}

/// The control operation an op code names, or *InvalidParameter* for an
/// unknown code.
pub open spec fn spec_ctl_op(op: i32) -> Result<CtlOp, Error> {
    if op == EPOLL_CTL_ADD {
        Ok(CtlOp::Add)
    } else if op == EPOLL_CTL_MOD {
        Ok(CtlOp::Modify)
    } else if op == EPOLL_CTL_DEL {
        Ok(CtlOp::Delete)
    } else {
        Err(Error(ERROR_INVALID_PARAMETER))
    }
}

/// Decode an `epoll_ctl` op code.
pub fn ctl_op(op: i32) -> (r: Result<CtlOp, Error>)
    ensures
        r == spec_ctl_op(op),
{
    if op == EPOLL_CTL_ADD {
        Ok(CtlOp::Add)
    } else if op == EPOLL_CTL_MOD {
        Ok(CtlOp::Modify)
    } else if op == EPOLL_CTL_DEL {
        Ok(CtlOp::Delete)
    } else {
        Err(Error(ERROR_INVALID_PARAMETER))
    }
}

/// Check the size argument of `epoll_create`: it must be positive.
pub fn epoll_create_check(size: i32) -> (r: Result<(), Error>)
    ensures
        r == (if size > 0 {
            Ok::<(), Error>(())
        } else {
            Err::<(), Error>(Error(ERROR_INVALID_PARAMETER))
        }),
{
    if size > 0 {
        Ok(())
    } else {
        Err(Error(ERROR_INVALID_PARAMETER))
    }
}

/// Check the flags argument of `epoll_create1`: it must be zero.
pub fn epoll_create1_check(flags: i32) -> (r: Result<(), Error>)
    ensures
        r == (if flags == 0 {
            Ok::<(), Error>(())
        } else {
            Err::<(), Error>(Error(ERROR_INVALID_PARAMETER))
        }),
{
    if flags == 0 {
        Ok(())
    } else {
        Err(Error(ERROR_INVALID_PARAMETER))
    }
}

/// The duration in milliseconds a millisecond timeout argument means: `-1`
/// is an indefinite wait; any other value is read as an unsigned
/// millisecond count (a negative one wraps, as the unsigned conversion
/// does).
pub open spec fn spec_epoll_timeout_millis(timeout: i32) -> Option<u64> {
    if timeout == -1 {
        None
    } else if timeout >= 0 {
        Some(timeout as u64)
    } else {
        Some((0x1_0000_0000_0000_0000 + timeout) as u64)
    }
}

/// Convert the millisecond timeout argument of `epoll_wait`.
pub fn epoll_timeout_millis(timeout: i32) -> (r: Option<u64>)
    ensures
        r == spec_epoll_timeout_millis(timeout),
{
    if timeout == -1 {
        None
    } else if timeout >= 0 {
        Some(timeout as u64)
    } else {
        let neg = (-(timeout as i64)) as u64;
        Some(u64::MAX - neg + 1)
    }
}

/// The value an `i64` field of a timespec is read as: its unsigned
/// reinterpretation.
pub open spec fn spec_wrap_u64(v: i64) -> int {
    if v >= 0 {
        v as int
    } else {
        0x1_0000_0000_0000_0000 + v
    }
}

/// The duration — whole seconds and a sub-second nanosecond remainder — a
/// timespec means, each field read as unsigned: `None` when the seconds
/// overflow, which callers treat as an indefinite wait.
pub open spec fn spec_timespec_duration(tv_sec: i64, tv_nsec: i64) -> Option<(u64, u32)> {
    let s = spec_wrap_u64(tv_sec);
    let ns = spec_wrap_u64(tv_nsec);
    if s + ns / 1_000_000_000 <= u64::MAX {
        Some(((s + ns / 1_000_000_000) as u64, (ns % 1_000_000_000) as u32))
    } else {
        None
    }
}

/// Convert the timespec argument of `epoll_pwait2` to a duration.
pub fn timespec_duration(tv_sec: i64, tv_nsec: i64) -> (r: Option<(u64, u32)>)
    ensures
        r == spec_timespec_duration(tv_sec, tv_nsec),
{
    let s: u64 = if tv_sec >= 0 {
        tv_sec as u64
    } else {
        u64::MAX - ((-(tv_sec + 1)) as u64)
    };
    let ns: u64 = if tv_nsec >= 0 {
        tv_nsec as u64
    } else {
        u64::MAX - ((-(tv_nsec + 1)) as u64)
    };
    match s.checked_add(ns / 1_000_000_000) {
        Some(secs) => Some((secs, (ns % 1_000_000_000) as u32)),
        None => None,
    }
}

} // verus!
