//! An `epoll`-shaped readiness-notification core for Windows I/O completion
//! ports (IOCP).
//!
//! The library is the decision engine of a poller built on two kernel
//! primitives: `ProcessSocketNotifications`, which reports socket readiness
//! through an IOCP with level/edge/oneshot triggers, and
//! `NtAssociateWaitCompletionPacket`, which turns any waitable handle into a
//! oneshot IOCP completion.  Everything the engine decides — registration
//! descriptors, the remove-and-drain protocol, timeout conversion, the
//! `epoll` flag translation — is implemented and specified here; the kernel
//! calls themselves are issued by a thin unverified shell around this crate,
//! which feeds their raw results back into the decision functions.

pub mod ffi;
pub mod io;
pub mod map;
pub mod poller;
pub mod wait;

pub use io::Error;
pub use poller::{
    DrainStep, ModifyPlan, Poller, WaitableAttr, WaitableRegistration, completion_step,
    drain_dequeue_step, drain_submit_step, relative_timeout, update_source_result, wait_result,
};
pub use wait::{cancel_result, check_status};


use vstd::prelude::*;

verus! {

// Readiness bits of a delivered socket notification, as
// `ProcessSocketNotifications` reports them in the bytes-transferred field of
// a completion entry.
/// Readable notification bit.
pub const SOCK_NOTIFY_EVENT_IN: u32 = 1;
/// Writable notification bit.
pub const SOCK_NOTIFY_EVENT_OUT: u32 = 2;
/// Hangup notification bit.
pub const SOCK_NOTIFY_EVENT_HANGUP: u32 = 4;
/// Error notification bit.
pub const SOCK_NOTIFY_EVENT_ERR: u32 = 64;
/// Bit reported when a registration has been removed.
pub const SOCK_NOTIFY_EVENT_REMOVE: u32 = 128;

// Interest bits of a registration's event filter.
/// Empty event filter.
pub const SOCK_NOTIFY_REGISTER_EVENT_NONE: u32 = 0;
/// Interest in readable events.
pub const SOCK_NOTIFY_REGISTER_EVENT_IN: u32 = 1;
/// Interest in writable events.
pub const SOCK_NOTIFY_REGISTER_EVENT_OUT: u32 = 2;
/// Interest in hangup events.
pub const SOCK_NOTIFY_REGISTER_EVENT_HANGUP: u32 = 4;

// Operation codes of a registration.
/// Enable the registration.
pub const SOCK_NOTIFY_OP_ENABLE: u8 = 1;
/// Disable the registration without removing it.
pub const SOCK_NOTIFY_OP_DISABLE: u8 = 2;
/// Remove the registration.
pub const SOCK_NOTIFY_OP_REMOVE: u8 = 4;

// Trigger flags of a registration.
/// Deliver one notification, then disable the registration.
pub const SOCK_NOTIFY_TRIGGER_ONESHOT: u8 = 1;
/// Keep the registration enabled across notifications.
pub const SOCK_NOTIFY_TRIGGER_PERSISTENT: u8 = 2;
/// Notify while the condition holds.
pub const SOCK_NOTIFY_TRIGGER_LEVEL: u8 = 4;
/// Notify on condition changes only.
pub const SOCK_NOTIFY_TRIGGER_EDGE: u8 = 8;

/// The mode in which the poller waits for I/O events.
#[derive(Debug, Clone, Copy, PartialEq, Eq, PartialOrd, Ord, Hash)]
#[non_exhaustive]
pub enum PollMode {
    /// Poll in oneshot mode.
    ///
    /// In this mode, the poller will only deliver one event per socket.
    /// Once an event has been delivered, interest in the event needs to be
    /// re-enabled by calling [`Poller::modify`].
    Oneshot,

    /// Poll in level-triggered mode.
    ///
    /// Once an event has been delivered, polling will continue to deliver
    /// that event until interest in the event is disabled by calling
    /// [`Poller::modify`] or [`Poller::delete`].
    Level,

    /// Poll in edge-triggered mode.
    ///
    /// Once an event has been delivered, polling will not deliver that event
    /// again unless a new event occurs.
    Edge,

    /// Poll in both edge-triggered and oneshot mode.
    ///
    /// This mode is similar to the `Oneshot` mode, but it will only deliver
    /// one event per new event.
    EdgeOneshot,
}

/// Indicates that a socket can read or write without blocking.
///
/// The same shape serves for interest registration and for delivered
/// notifications.  Carried as an IOCP completion entry, `events` occupies the
/// bytes-transferred field and `key` the completion-key field.
#[derive(Debug, Clone, Copy)]
pub struct Event {
    /// The readiness bitmask (`SOCK_NOTIFY_EVENT_*`).
    pub events: u32,
    /// The user key identifying the registration.
    pub key: usize,
}

/// The event with no interest bits and the given key.
pub open spec fn spec_event_none(key: usize) -> Event {
    Event { events: 0, key }
}

impl Event {
    /// Create an event with no interest.
    pub fn none(key: usize) -> (r: Self)
        ensures
            r == spec_event_none(key),
    {
        Event { events: 0, key }
    }

    /// Key of the event.
    pub fn key(&self) -> (r: usize)
        ensures
            r == self.key,
    {
        self.key
    }

    /// The flags of the event.
    pub fn events(&self) -> (r: u32)
        ensures
            r == self.events,
    {
        self.events
    }

    fn set_event(&mut self, e: u32, value: bool)
        ensures
            final(self).key == old(self).key,
            final(self).events == if value {
                old(self).events | e
            } else {
                old(self).events & !e
            },
    {
        if value {
            self.events = self.events | e;
        } else {
            self.events = self.events & !e;
        }
    }

    fn get_event(&self, e: u32) -> (r: bool)
        ensures
            r == ((self.events & e) != 0),
    {
        (self.events & e) != 0
    }

    /// Interest in readable event.
    pub fn set_readable(&mut self, value: bool)
        ensures
            final(self).key == old(self).key,
            final(self).events == if value {
                old(self).events | SOCK_NOTIFY_EVENT_IN
            } else {
                old(self).events & !SOCK_NOTIFY_EVENT_IN
            },
    {
        self.set_event(SOCK_NOTIFY_EVENT_IN, value)
    }

    /// Interest in writable event.
    pub fn set_writable(&mut self, value: bool)
        ensures
            final(self).key == old(self).key,
            final(self).events == if value {
                old(self).events | SOCK_NOTIFY_EVENT_OUT
            } else {
                old(self).events & !SOCK_NOTIFY_EVENT_OUT
            },
    {
        self.set_event(SOCK_NOTIFY_EVENT_OUT, value)
    }

    /// Interest in hangup event.
    pub fn set_hangup(&mut self, value: bool)
        ensures
            final(self).key == old(self).key,
            final(self).events == if value {
                old(self).events | SOCK_NOTIFY_EVENT_HANGUP
            } else {
                old(self).events & !SOCK_NOTIFY_EVENT_HANGUP
            },
    {
        self.set_event(SOCK_NOTIFY_EVENT_HANGUP, value)
    }

    /// Interest in error event.
    pub fn set_error(&mut self, value: bool)
        ensures
            final(self).key == old(self).key,
            final(self).events == if value {
                old(self).events | SOCK_NOTIFY_EVENT_ERR
            } else {
                old(self).events & !SOCK_NOTIFY_EVENT_ERR
            },
    {
        self.set_event(SOCK_NOTIFY_EVENT_ERR, value)
    }

    /// Interest in readable event.
    pub fn with_readable(self, value: bool) -> (r: Self)
        ensures
            r.key == self.key,
            r.events == if value {
                self.events | SOCK_NOTIFY_EVENT_IN
            } else {
                self.events & !SOCK_NOTIFY_EVENT_IN
            },
    {
        let mut this = self;
        this.set_readable(value);
        this
    }

    /// Interest in writable event.
    pub fn with_writable(self, value: bool) -> (r: Self)
        ensures
            r.key == self.key,
            r.events == if value {
                self.events | SOCK_NOTIFY_EVENT_OUT
            } else {
                self.events & !SOCK_NOTIFY_EVENT_OUT
            },
    {
        let mut this = self;
        this.set_writable(value);
        this
    }

    /// Interest in hangup event.
    pub fn with_hangup(self, value: bool) -> (r: Self)
        ensures
            r.key == self.key,
            r.events == if value {
                self.events | SOCK_NOTIFY_EVENT_HANGUP
            } else {
                self.events & !SOCK_NOTIFY_EVENT_HANGUP
            },
    {
        let mut this = self;
        this.set_hangup(value);
        this
    }

    /// Interest in error event.
    pub fn with_error(self, value: bool) -> (r: Self)
        ensures
            r.key == self.key,
            r.events == if value {
                self.events | SOCK_NOTIFY_EVENT_ERR
            } else {
                self.events & !SOCK_NOTIFY_EVENT_ERR
            },
    {
        let mut this = self;
        this.set_error(value);
        this
    }

    /// Is readable event.
    pub fn is_readable(&self) -> (r: bool)
        ensures
            r == ((self.events & SOCK_NOTIFY_EVENT_IN) != 0),
    {
        self.get_event(SOCK_NOTIFY_EVENT_IN)
    }

    /// Is writable event.
    pub fn is_writable(&self) -> (r: bool)
        ensures
            r == ((self.events & SOCK_NOTIFY_EVENT_OUT) != 0),
    {
        self.get_event(SOCK_NOTIFY_EVENT_OUT)
    }

    /// Is hangup event.
    pub fn is_hangup(&self) -> (r: bool)
        ensures
            r == ((self.events & SOCK_NOTIFY_EVENT_HANGUP) != 0),
    {
        self.get_event(SOCK_NOTIFY_EVENT_HANGUP)
    }

    /// Is error event.
    pub fn is_error(&self) -> (r: bool)
        ensures
            r == ((self.events & SOCK_NOTIFY_EVENT_ERR) != 0),
    {
        self.get_event(SOCK_NOTIFY_EVENT_ERR)
    }
}

/// An IOCP completion entry, as far as the poller reads and writes one: the
/// bytes-transferred field (which carries the readiness bitmask), the
/// completion key (which carries the user key), and the overlapped pointer's
/// value, kept only so a dequeued entry can be reposted unchanged.
#[derive(Debug, Clone, Copy, PartialEq, Eq, Structural)]
pub struct Completion {
    /// The bytes-transferred field: the readiness bitmask.
    pub bytes_transferred: u32,
    /// The completion-key field: the user key.
    pub key: usize,
    /// The overlapped pointer's value; zero for entries the poller makes.
    pub overlapped: usize,
}

/// The completion entry an event is carried as: `events` in the
/// bytes-transferred field, `key` in the completion-key field, and a null
/// overlapped pointer.
pub open spec fn spec_to_completion(event: Event) -> Completion {
    Completion { bytes_transferred: event.events, key: event.key, overlapped: 0 }
}

/// The event a delivered completion entry is read as.
pub open spec fn spec_from_completion(entry: Completion) -> Event {
    Event { events: entry.bytes_transferred, key: entry.key }
}

impl Event {
    /// Reinterpret this event as a completion entry.
    pub fn to_completion(&self) -> (r: Completion)
        ensures
            r == spec_to_completion(*self),
    {
        Completion { bytes_transferred: self.events, key: self.key, overlapped: 0 }
    }

    /// Read a delivered completion entry as an event.
    pub fn from_completion(entry: Completion) -> (r: Event)
        ensures
            r == spec_from_completion(entry),
    {
        Event { events: entry.bytes_transferred, key: entry.key }
    }
}

/// The events a dequeue delivers: each completion entry read as an event,
/// in order.
pub fn events_of_completions(entries: &Vec<Completion>) -> (r: Vec<Event>)
    ensures
        r@.len() == entries@.len(),
        forall|i: int| 0 <= i < entries@.len() ==> r@[i] == spec_from_completion(entries@[i]),
{
    let mut events: Vec<Event> = Vec::new();
    let mut idx: usize = 0;
    while idx < entries.len()
        invariant
            idx <= entries@.len(),
            events@.len() == idx,
            forall|i: int| 0 <= i < idx ==> events@[i] == spec_from_completion(entries@[i]),
        decreases entries@.len() - idx,
    {
        events.push(Event::from_completion(entries[idx]));
        idx = idx + 1;
    }
    events
}

/// Round-trip: any event, reinterpreted as a completion entry and back, is
/// the same event; and any completion entry, read as an event and carried
/// back out, keeps its readiness bits and its key.
pub proof fn law_event_completion_round_trip(event: Event, entry: Completion)
    ensures
        spec_from_completion(spec_to_completion(event)) == event,
        spec_to_completion(spec_from_completion(entry)).bytes_transferred
            == entry.bytes_transferred,
        spec_to_completion(spec_from_completion(entry)).key == entry.key,
{
}

/// A socket registration descriptor, shaped after the kernel's
/// `SOCK_NOTIFY_REGISTRATION`: which socket, under which completion key, with
/// which event filter, operation and trigger flags.
#[derive(Debug, Clone, Copy, PartialEq, Eq, Structural)]
pub struct Registration {
    /// The socket being registered.
    pub socket: usize,
    /// The completion key the kernel will report for this registration.
    pub completion_key: usize,
    /// The interest bits (`SOCK_NOTIFY_REGISTER_EVENT_*`).
    pub event_filter: u16,
    /// The operation code (`SOCK_NOTIFY_OP_*`).
    pub operation: u8,
    /// The trigger flags (`SOCK_NOTIFY_TRIGGER_*`).
    pub trigger_flags: u8,
}

/// The event filter a registration carries for the given interest: the
/// readable, writable and hangup bits.  Errors are always reported and have
/// no filter bit.
pub open spec fn spec_interest_to_filter(interest: Event) -> u16 {
    ((if (interest.events & SOCK_NOTIFY_EVENT_IN) != 0 {
        SOCK_NOTIFY_REGISTER_EVENT_IN
    } else {
        0
    }) + (if (interest.events & SOCK_NOTIFY_EVENT_OUT) != 0 {
        SOCK_NOTIFY_REGISTER_EVENT_OUT
    } else {
        0
    }) + (if (interest.events & SOCK_NOTIFY_EVENT_HANGUP) != 0 {
        SOCK_NOTIFY_REGISTER_EVENT_HANGUP
    } else {
        0
    })) as u16
}

/// The notification bits matching the given interest: readable, writable,
/// hangup and error.
pub open spec fn spec_interest_to_events(interest: Event) -> u32 {
    ((if (interest.events & SOCK_NOTIFY_EVENT_IN) != 0 {
        SOCK_NOTIFY_EVENT_IN
    } else {
        0
    }) + (if (interest.events & SOCK_NOTIFY_EVENT_OUT) != 0 {
        SOCK_NOTIFY_EVENT_OUT
    } else {
        0
    }) + (if (interest.events & SOCK_NOTIFY_EVENT_HANGUP) != 0 {
        SOCK_NOTIFY_EVENT_HANGUP
    } else {
        0
    }) + (if (interest.events & SOCK_NOTIFY_EVENT_ERR) != 0 {
        SOCK_NOTIFY_EVENT_ERR
    } else {
        0
    })) as u32
}

/// The trigger-flag pair for each polling mode.
pub open spec fn spec_mode_to_flags(mode: PollMode) -> u8 {
    match mode {
        PollMode::Oneshot => (SOCK_NOTIFY_TRIGGER_ONESHOT + SOCK_NOTIFY_TRIGGER_LEVEL) as u8,
        PollMode::Level => (SOCK_NOTIFY_TRIGGER_PERSISTENT + SOCK_NOTIFY_TRIGGER_LEVEL) as u8,
        PollMode::Edge => (SOCK_NOTIFY_TRIGGER_PERSISTENT + SOCK_NOTIFY_TRIGGER_EDGE) as u8,
        PollMode::EdgeOneshot => (SOCK_NOTIFY_TRIGGER_ONESHOT + SOCK_NOTIFY_TRIGGER_EDGE) as u8,
    }
}

/// The registration descriptor built for one socket operation: an ENABLE (or
/// DISABLE, when the filter is empty — the kernel forbids enabling an empty
/// filter) when `enable` holds, a REMOVE otherwise.
pub open spec fn spec_registration(
    socket: usize,
    interest: Event,
    mode: PollMode,
    enable: bool,
) -> Registration {
    Registration {
        socket,
        completion_key: interest.key,
        event_filter: spec_interest_to_filter(interest),
        operation: if enable {
            if spec_interest_to_filter(interest) == SOCK_NOTIFY_REGISTER_EVENT_NONE {
                SOCK_NOTIFY_OP_DISABLE
            } else {
                SOCK_NOTIFY_OP_ENABLE
            }
        } else {
            SOCK_NOTIFY_OP_REMOVE
        },
        trigger_flags: spec_mode_to_flags(mode),
    }
}

/// The event filter of a registration for this interest.
pub fn interest_to_filter(interest: &Event) -> (r: u16)
    ensures
        r == spec_interest_to_filter(*interest),
{
    let filter: u32 = (if interest.is_readable() {
        SOCK_NOTIFY_REGISTER_EVENT_IN
    } else {
        0
    }) + (if interest.is_writable() {
        SOCK_NOTIFY_REGISTER_EVENT_OUT
    } else {
        0
    }) + (if interest.is_hangup() {
        SOCK_NOTIFY_REGISTER_EVENT_HANGUP
    } else {
        0
    });
    filter as u16
}

/// The notification bits matching this interest.
pub fn interest_to_events(interest: &Event) -> (r: u32)
    ensures
        r == spec_interest_to_events(*interest),
{
    (if interest.is_readable() {
        SOCK_NOTIFY_EVENT_IN
    } else {
        0
    }) + (if interest.is_writable() {
        SOCK_NOTIFY_EVENT_OUT
    } else {
        0
    }) + (if interest.is_hangup() {
        SOCK_NOTIFY_EVENT_HANGUP
    } else {
        0
    }) + (if interest.is_error() {
        SOCK_NOTIFY_EVENT_ERR
    } else {
        0
    })
}

/// The trigger flags of a registration in this polling mode.
pub fn mode_to_flags(mode: PollMode) -> (r: u8)
    ensures
        r == spec_mode_to_flags(mode),
{
    match mode {
        PollMode::Oneshot => SOCK_NOTIFY_TRIGGER_ONESHOT + SOCK_NOTIFY_TRIGGER_LEVEL,
        PollMode::Level => SOCK_NOTIFY_TRIGGER_PERSISTENT + SOCK_NOTIFY_TRIGGER_LEVEL,
        PollMode::Edge => SOCK_NOTIFY_TRIGGER_PERSISTENT + SOCK_NOTIFY_TRIGGER_EDGE,
        PollMode::EdgeOneshot => SOCK_NOTIFY_TRIGGER_ONESHOT + SOCK_NOTIFY_TRIGGER_EDGE,
    }
}

/// Build the registration descriptor for one socket operation.
pub fn create_registration(
    socket: usize,
    interest: Event,
    mode: PollMode,
    enable: bool,
) -> (r: Registration)
    ensures
        r == spec_registration(socket, interest, mode, enable),
{
    let filter = interest_to_filter(&interest);
    Registration {
        socket,
        completion_key: interest.key,
        event_filter: filter,
        operation: if enable {
            if filter == SOCK_NOTIFY_REGISTER_EVENT_NONE as u16 {
                SOCK_NOTIFY_OP_DISABLE
            } else {
                SOCK_NOTIFY_OP_ENABLE
            }
        } else {
            SOCK_NOTIFY_OP_REMOVE
        },
        trigger_flags: mode_to_flags(mode),
    }
}

/// The trigger-flag pair handed to the kernel for each polling mode: oneshot
/// modes carry the ONESHOT flag and the others PERSISTENT; level modes carry
/// the LEVEL flag and edge modes EDGE.  The redelivery behaviour those flags
/// select is the kernel's.
pub proof fn law_mode_trigger_flags()
    ensures
        spec_mode_to_flags(PollMode::Oneshot) == SOCK_NOTIFY_TRIGGER_ONESHOT
            + SOCK_NOTIFY_TRIGGER_LEVEL,
        spec_mode_to_flags(PollMode::Level) == SOCK_NOTIFY_TRIGGER_PERSISTENT
            + SOCK_NOTIFY_TRIGGER_LEVEL,
        spec_mode_to_flags(PollMode::Edge) == SOCK_NOTIFY_TRIGGER_PERSISTENT
            + SOCK_NOTIFY_TRIGGER_EDGE,
        spec_mode_to_flags(PollMode::EdgeOneshot) == SOCK_NOTIFY_TRIGGER_ONESHOT
            + SOCK_NOTIFY_TRIGGER_EDGE,
{
}

} // verus!
