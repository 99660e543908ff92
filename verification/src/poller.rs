//! The poller core: the registries of sockets and waitable handles, the
//! decisions behind `add`/`modify`/`delete` for both kinds of source, the
//! remove-and-drain protocol, and the interpretation of the kernel's wait
//! results.
//!
//! The kernel calls themselves (creating the completion port, submitting a
//! registration, dequeuing completions, posting entries) happen outside this
//! crate; each operation here either prepares exactly what such a call must
//! be handed, or decides what a call's raw result means.

use vstd::arithmetic::div_mod::{lemma_fundamental_div_mod, lemma_fundamental_div_mod_converse};
use vstd::prelude::*;

use crate::io::{
    ERROR_ALREADY_EXISTS, ERROR_NOT_FOUND, ERROR_SUCCESS, Error, WAIT_TIMEOUT,
};
use crate::map::HashMap;
use crate::wait::{STATUS_SUCCESS, STATUS_TIMEOUT, STATUS_USER_APC};
use crate::{
    Completion, Event, PollMode, Registration, SOCK_NOTIFY_EVENT_REMOVE, create_registration,
    interest_to_events, spec_event_none, spec_interest_to_events, spec_registration,
};

verus! {

/// A waitable object's registration: the user key and a token naming the
/// wait-completion packet currently bound to the object.  The packet itself
/// is a kernel handle owned by the caller; the token only identifies it.
#[derive(Debug, Clone, Copy, PartialEq, Eq, Structural)]
pub struct WaitableAttr {
    /// The user key identifying the registration.
    pub key: usize,
    /// The token of the wait-completion packet bound to the object.
    pub packet: usize,
}

/// What a socket `modify` must submit: first the removal of the old
/// registration (present exactly when the key changes, to be drained
/// synchronously), then the new registration.
#[derive(Debug, Clone, Copy)]
pub struct ModifyPlan {
    /// A removal of the old registration to submit and drain first, if the
    /// key changes.
    pub remove: Option<Registration>,
    /// The registration to submit.
    pub enable: Registration,
}

/// What `add_waitable` must hand to the packet association: the completion
/// key and the bytes-transferred payload carrying the interest bits.
#[derive(Debug, Clone, Copy, PartialEq, Eq, Structural)]
pub struct WaitableRegistration {
    /// The completion key the kernel will report.
    pub key: usize,
    /// The interest bits, delivered as the completion's bytes-transferred.
    pub info: u32,
}

/// What one observed completion means while draining the removal of the
/// registration under `key`, and what the call results of the drain mean.
#[derive(Debug, Clone, Copy, PartialEq, Eq, Structural)]
pub enum DrainStep {
    /// The REMOVE completion arrived: the drain is over.
    Done,
    /// Nothing conclusive: keep dequeuing.
    Continue,
    /// A completion of another registration was dequeued: repost exactly this
    /// entry, then keep dequeuing.
    Repost(Completion),
    /// The drain failed: surface this error.
    Fail(Error),
    /// The removal was not accepted: repost exactly this entry, then surface
    /// this error.
    RepostThenFail(Completion, Error),
}

/// What one dequeued completion means for the drain of `key`: the REMOVE bit
/// under the target key ends the drain; another completion of the target key
/// is an obsolete readiness notification and is discarded; any other key's
/// completion must be reposted unchanged.
pub open spec fn spec_completion_step(key: usize, entry: Completion) -> DrainStep {
    if entry.key == key {
        if (entry.bytes_transferred & SOCK_NOTIFY_EVENT_REMOVE) != 0 {
            DrainStep::Done
        } else {
            DrainStep::Continue
        }
    } else {
        DrainStep::Repost(entry)
    }
}

/// The meaning of the combined "submit REMOVE + dequeue one" call: a call
/// status other than success or timeout fails the drain; a rejected
/// registration fails it after reposting whatever was dequeued; otherwise the
/// dequeued entry (if any) is judged by [`spec_completion_step`].
pub open spec fn spec_drain_submit_step(
    key: usize,
    result: u32,
    registration_result: u32,
    entry: Option<Completion>,
) -> DrainStep {
    if result == ERROR_SUCCESS || result == WAIT_TIMEOUT {
        if registration_result != ERROR_SUCCESS {
            match entry {
                Some(e) => DrainStep::RepostThenFail(e, Error(registration_result)),
                None => DrainStep::Fail(Error(registration_result)),
            }
        } else {
            match entry {
                Some(e) => spec_completion_step(key, e),
                None => DrainStep::Continue,
            }
        }
    } else {
        DrainStep::Fail(Error(result))
    }
}

/// The meaning of one dequeue while waiting for the REMOVE completion: a
/// timeout is merely "no completion this turn", any other failure ends the
/// drain, and a dequeued entry is judged by [`spec_completion_step`].
pub open spec fn spec_drain_dequeue_step(
    key: usize,
    result: u32,
    entry: Option<Completion>,
) -> DrainStep {
    if result == ERROR_SUCCESS {
        match entry {
            Some(e) => spec_completion_step(key, e),
            None => DrainStep::Continue,
        }
    } else if result == WAIT_TIMEOUT {
        DrainStep::Continue
    } else {
        DrainStep::Fail(Error(result))
    }
}

/// Judge one dequeued completion during the drain of `key`.
pub fn completion_step(key: usize, entry: Completion) -> (r: DrainStep)
    ensures
        r == spec_completion_step(key, entry),
{
    if entry.key == key {
        if (entry.bytes_transferred & SOCK_NOTIFY_EVENT_REMOVE) != 0 {
            DrainStep::Done
        } else {
            DrainStep::Continue
        }
    } else {
        DrainStep::Repost(entry)
    }
}

/// Judge the result of the combined "submit REMOVE + dequeue one" call that
/// opens a drain.  `result` is the call's status, `registration_result` the
/// per-registration status, `entry` the completion dequeued alongside, if
/// one was.
pub fn drain_submit_step(
    key: usize,
    result: u32,
    registration_result: u32,
    entry: Option<Completion>,
) -> (r: DrainStep)
    ensures
        r == spec_drain_submit_step(key, result, registration_result, entry),
{
    if result == ERROR_SUCCESS || result == WAIT_TIMEOUT {
        if registration_result != ERROR_SUCCESS {
            match entry {
                Some(e) => DrainStep::RepostThenFail(e, Error(registration_result)),
                None => DrainStep::Fail(Error(registration_result)),
            }
        } else {
            match entry {
                Some(e) => completion_step(key, e),
                None => DrainStep::Continue,
            }
        }
    } else {
        DrainStep::Fail(Error(result))
    }
}

/// Judge the result of one single-entry dequeue of the drain loop.
pub fn drain_dequeue_step(key: usize, result: u32, entry: Option<Completion>) -> (r: DrainStep)
    ensures
        r == spec_drain_dequeue_step(key, result, entry),
{
    if result == ERROR_SUCCESS {
        match entry {
            Some(e) => completion_step(key, e),
            None => DrainStep::Continue,
        }
    } else if result == WAIT_TIMEOUT {
        DrainStep::Continue
    } else {
        DrainStep::Fail(Error(result))
    }
}

/// What a plain registration submission's results mean: success only when
/// both the call and the registration succeeded; when the call succeeded but
/// the registration did not, the per-registration status takes precedence.
pub open spec fn spec_update_source_result(result: u32, registration_result: u32) -> Result<
    (),
    Error,
> {
    if result == ERROR_SUCCESS {
        if registration_result == ERROR_SUCCESS {
            Ok(())
        } else {
            Err(Error(registration_result))
        }
    } else {
        Err(Error(result))
    }
}

/// Judge the results of a plain (no-dequeue) registration submission.
pub fn update_source_result(result: u32, registration_result: u32) -> (r: Result<(), Error>)
    ensures
        r == spec_update_source_result(result, registration_result),
{
    if result == ERROR_SUCCESS {
        if registration_result == ERROR_SUCCESS {
            Ok(())
        } else {
            Err(Error(registration_result))
        }
    } else {
        Err(Error(result))
    }
}

/// The timeout argument of the dequeue call for a relative duration: a count
/// of 100-ns units, negated in two's complement (negative means relative to
/// now), with zero meaning a non-blocking poll.  Durations beyond the
/// representable range mean an indefinite wait (`None`).
pub open spec fn spec_relative_timeout(secs: u64, subsec_nanos: u32) -> Option<u64> {
    let units = secs * 10_000_000 + (subsec_nanos + 99) / 100;
    if units <= 0x7fff_ffff_ffff_ffff {
        if units == 0 {
            Some(0u64)
        } else {
            Some((0x1_0000_0000_0000_0000 - units) as u64)
        }
    } else {
        None
    }
}

/// Convert a relative duration to the dequeue call's timeout argument.
pub fn relative_timeout(secs: u64, subsec_nanos: u32) -> (r: Option<u64>)
    requires
        subsec_nanos < 1_000_000_000,
    ensures
        r == spec_relative_timeout(secs, subsec_nanos),
{
    let hundreds: u64 = ((subsec_nanos + 99) / 100) as u64;
    match secs.checked_mul(10_000_000) {
        Some(base) => match base.checked_add(hundreds) {
            Some(units) => {
                if units <= 0x7fff_ffff_ffff_ffff {
                    if units == 0 {
                        Some(0)
                    } else {
                        Some(u64::MAX - units + 1)
                    }
                } else {
                    None
                }
            },
            None => None,
        },
        None => None,
    }
}

/// A whole-millisecond timeout converts exactly: a duration of `ms`
/// milliseconds (`ms / 1000` seconds and `(ms % 1000) * 1_000_000`
/// nanoseconds) becomes exactly `ms * 10_000` hundred-nanosecond units,
/// negated — no rounding shortens or lengthens the wait.
pub proof fn law_millisecond_timeout_exact(ms: u64)
    requires
        10_000 * ms <= 0x7fff_ffff_ffff_ffff,
    ensures
        spec_relative_timeout((ms / 1000) as u64, ((ms % 1000) * 1_000_000) as u32) == (
        if ms == 0 {
            Some(0u64)
        } else {
            Some((0x1_0000_0000_0000_0000 - 10_000 * ms) as u64)
        }),
{
    let q = (ms / 1000) as int;
    let r = (ms % 1000) as int;
    lemma_fundamental_div_mod(ms as int, 1000);
    lemma_fundamental_div_mod_converse(r * 1_000_000 + 99, 100, r * 10_000, 99);
}

/// What the dequeue call's status means for `wait`: the dequeued count on
/// success, zero on a timeout or an alertable interruption, and any other
/// status handed back to be reported as the error.
pub open spec fn spec_wait_result(status: i32, received: u32) -> Result<usize, i32> {
    if status == STATUS_SUCCESS {
        Ok(received as usize)
    } else if status == STATUS_TIMEOUT || status == STATUS_USER_APC {
        Ok(0usize)
    } else {
        Err(status)
    }
}

/// Interpret the dequeue call's status and received count.
pub fn wait_result(status: i32, received: u32) -> (r: Result<usize, i32>)
    ensures
        r == spec_wait_result(status, received),
{
    if status == STATUS_SUCCESS {
        Ok(received as usize)
    } else if status == STATUS_TIMEOUT || status == STATUS_USER_APC {
        Ok(0)
    } else {
        Err(status)
    }
}

/// Whether `add` accepts this socket, and what it returns: the enabling
/// registration, or *AlreadyExists* when the socket is already registered.
pub open spec fn spec_add_result(
    sources: Map<usize, usize>,
    socket: usize,
    interest: Event,
    mode: PollMode,
) -> Result<Registration, Error> {
    if sources.contains_key(socket) {
        Err(Error(ERROR_ALREADY_EXISTS))
    } else {
        Ok(spec_registration(socket, interest, mode, true))
    }
}

/// The socket registry after `add`: unchanged on failure, extended by the
/// socket under the interest's key on success.
pub open spec fn spec_add_sources(
    sources: Map<usize, usize>,
    socket: usize,
    key: usize,
) -> Map<usize, usize> {
    if sources.contains_key(socket) {
        sources
    } else {
        sources.insert(socket, key)
    }
}

/// What `modify` returns: *NotFound* for an unregistered socket, otherwise
/// the plan of registrations to submit.  The plan removes the old
/// registration first exactly when the requested key differs from the stored
/// one — the kernel has no "change key" operation, so the old key's
/// registration must be removed and its REMOVE completion drained before the
/// new one is installed.
pub open spec fn spec_modify_result(
    sources: Map<usize, usize>,
    socket: usize,
    interest: Event,
    mode: PollMode,
) -> Result<ModifyPlan, Error> {
    if !sources.contains_key(socket) {
        Err(Error(ERROR_NOT_FOUND))
    } else {
        Ok(
            ModifyPlan {
                remove: if sources[socket] != interest.key {
                    Some(
                        spec_registration(
                            socket,
                            spec_event_none(sources[socket]),
                            PollMode::Oneshot,
                            false,
                        ),
                    )
                } else {
                    None
                },
                enable: spec_registration(socket, interest, mode, true),
            },
        )
    }
}

/// Whether `modify_commit` accepts the socket: *NotFound* unless it is
/// registered.
pub open spec fn spec_modify_commit_result(
    sources: Map<usize, usize>,
    socket: usize,
) -> Result<(), Error> {
    if sources.contains_key(socket) {
        Ok(())
    } else {
        Err(Error(ERROR_NOT_FOUND))
    }
}

/// The socket registry after `modify_commit`: unchanged for an unregistered
/// socket, otherwise the socket's stored key becomes `key` — the completion
/// key the kernel reports once the plan's registration is installed.
pub open spec fn spec_modify_sources(
    sources: Map<usize, usize>,
    socket: usize,
    key: usize,
) -> Map<usize, usize> {
    if sources.contains_key(socket) {
        sources.insert(socket, key)
    } else {
        sources
    }
}

/// What `delete` returns: the removal registration to submit and drain, or
/// *NotFound* when the socket is not registered.
pub open spec fn spec_delete_result(sources: Map<usize, usize>, socket: usize) -> Result<
    Registration,
    Error,
> {
    if sources.contains_key(socket) {
        Ok(spec_registration(socket, spec_event_none(sources[socket]), PollMode::Oneshot, false))
    } else {
        Err(Error(ERROR_NOT_FOUND))
    }
}

/// The socket registry after `delete`: the socket's entry is gone.
pub open spec fn spec_delete_sources(sources: Map<usize, usize>, socket: usize) -> Map<
    usize,
    usize,
> {
    sources.remove(socket)
}

/// What `add_waitable` returns: the association payload, or *AlreadyExists*
/// when the handle is already registered.  The interest bits travel in the
/// association's information field, so the delivered completion already
/// carries the readiness bitmask.
pub open spec fn spec_add_waitable_result(
    waitables: Map<usize, WaitableAttr>,
    handle: usize,
    interest: Event,
) -> Result<WaitableRegistration, Error> {
    if waitables.contains_key(handle) {
        Err(Error(ERROR_ALREADY_EXISTS))
    } else {
        Ok(WaitableRegistration { key: interest.key, info: spec_interest_to_events(interest) })
    }
}

/// What looking a waitable up returns: its stored attributes, or *NotFound*.
pub open spec fn spec_find_waitable(waitables: Map<usize, WaitableAttr>, handle: usize) -> Result<
    WaitableAttr,
    Error,
> {
    if waitables.contains_key(handle) {
        Ok(waitables[handle])
    } else {
        Err(Error(ERROR_NOT_FOUND))
    }
}

/// The completion entry a synthetic posted event carries: the interest bits
/// as bytes-transferred, the user key as completion key, and a null
/// overlapped pointer.
pub open spec fn spec_post_completion(event: Event) -> Completion {
    Completion {
        bytes_transferred: spec_interest_to_events(event),
        key: event.key,
        overlapped: 0,
    }
}

/// The readiness engine's state: which sockets and which waitable handles
/// are registered, and under which user keys.
///
/// The completion port itself, and every kernel call against it, live with
/// the caller; the poller decides what those calls are handed and what their
/// results mean.
#[derive(Debug)]
pub struct Poller {
    /// The state of the sources registered with this poller, keyed by raw
    /// socket: the user key of each registration.
    sources: HashMap<usize>,
    /// The state of the waitable handles registered with this poller, keyed
    /// by raw handle.
    waitables: HashMap<WaitableAttr>,
}

impl Poller {
    /// The registered sockets: socket to user key.
    pub closed spec fn sources(&self) -> Map<usize, usize> {
        self.sources@
    }

    /// The registered waitable handles: handle to key and packet token.
    pub closed spec fn waitables(&self) -> Map<usize, WaitableAttr> {
        self.waitables@
    }

    /// Creates a new poller with nothing registered.
    pub fn new() -> (r: Poller)
        ensures
            r.sources() == Map::<usize, usize>::empty(),
            r.waitables() == Map::<usize, WaitableAttr>::empty(),
    {
        Poller { sources: HashMap::new(), waitables: HashMap::new() }
    }

    /// Adds a new socket and returns the registration to submit for it.
    pub fn add(&mut self, socket: usize, interest: Event, mode: PollMode) -> (r: Result<
        Registration,
        Error,
    >)
        ensures
            r == spec_add_result(old(self).sources(), socket, interest, mode),
            final(self).sources() == spec_add_sources(old(self).sources(), socket, interest.key),
            final(self).waitables() == old(self).waitables(),
    {
        if self.sources.contains_key(socket) {
            return Err(Error(ERROR_ALREADY_EXISTS));
        }
        match self.sources.try_insert(socket, interest.key) {
            Ok(()) => {},
            Err(e) => {
                return Err(e);
            },
        }
        Ok(create_registration(socket, interest, mode, true))
    }

    /// Plans the modification of an existing socket's registration.  Once
    /// the plan's registrations have been submitted (the removal drained
    /// first, when there is one), [`Poller::modify_commit`] records the key
    /// now registered with the kernel.
    pub fn modify(&self, socket: usize, interest: Event, mode: PollMode) -> (r: Result<
        ModifyPlan,
        Error,
    >)
        ensures
            r == spec_modify_result(self.sources(), socket, interest, mode),
    {
        let oldkey = match self.sources.get(socket) {
            Some(k) => *k,
            None => {
                return Err(Error(ERROR_NOT_FOUND));
            },
        };
        let remove = if oldkey != interest.key {
            Some(create_registration(socket, Event::none(oldkey), PollMode::Oneshot, false))
        } else {
            None
        };
        let enable = create_registration(socket, interest, mode, true);
        Ok(ModifyPlan { remove, enable })
    }

    /// Records the key under which a modified socket is now registered, so
    /// the stored key stays the completion key the kernel will report — a
    /// later removal must drain against it.
    pub fn modify_commit(&mut self, socket: usize, key: usize) -> (r: Result<(), Error>)
        ensures
            r == spec_modify_commit_result(old(self).sources(), socket),
            final(self).sources() == spec_modify_sources(old(self).sources(), socket, key),
            final(self).waitables() == old(self).waitables(),
    {
        if !self.sources.contains_key(socket) {
            return Err(Error(ERROR_NOT_FOUND));
        }
        match self.sources.try_insert(socket, key) {
            Ok(()) => Ok(()),
            Err(e) => Err(e),
        }
    }

    /// Deletes a socket and returns the removal registration to submit and
    /// drain.
    pub fn delete(&mut self, socket: usize) -> (r: Result<Registration, Error>)
        ensures
            r == spec_delete_result(old(self).sources(), socket),
            final(self).sources() == spec_delete_sources(old(self).sources(), socket),
            final(self).waitables() == old(self).waitables(),
    {
        let key = match self.sources.remove(socket) {
            Some(k) => k,
            None => {
                return Err(Error(ERROR_NOT_FOUND));
            },
        };
        Ok(create_registration(socket, Event::none(key), PollMode::Oneshot, false))
    }

    /// Begins adding a waitable: checks the handle is new and returns the
    /// association payload for a fresh wait-completion packet.
    pub fn add_waitable(&self, handle: usize, interest: Event) -> (r: Result<
        WaitableRegistration,
        Error,
    >)
        ensures
            r == spec_add_waitable_result(self.waitables(), handle, interest),
    {
        if self.waitables.contains_key(handle) {
            return Err(Error(ERROR_ALREADY_EXISTS));
        }
        Ok(WaitableRegistration { key: interest.key, info: interest_to_events(&interest) })
    }

    /// Records a waitable whose packet was successfully associated.
    pub fn add_waitable_commit(&mut self, handle: usize, key: usize, packet: usize) -> (r: Result<
        (),
        Error,
    >)
        ensures
            final(self).sources() == old(self).sources(),
            old(self).waitables().contains_key(handle) ==> r == Err::<(), Error>(
                Error(ERROR_ALREADY_EXISTS),
            ) && final(self).waitables() == old(self).waitables(),
            !old(self).waitables().contains_key(handle) ==> r == Ok::<(), Error>(())
                && final(self).waitables() == old(self).waitables().insert(
                handle,
                (WaitableAttr { key, packet }),
            ),
    {
        if self.waitables.contains_key(handle) {
            return Err(Error(ERROR_ALREADY_EXISTS));
        }
        match self.waitables.try_insert(handle, WaitableAttr { key, packet }) {
            Ok(()) => Ok(()),
            Err(e) => Err(e),
        }
    }

    /// Looks a waitable up for modification: its stored key must be kept,
    /// and its packet cancelled before the new association.
    pub fn modify_waitable(&self, waitable: usize) -> (r: Result<WaitableAttr, Error>)
        ensures
            r == spec_find_waitable(self.waitables(), waitable),
    {
        match self.waitables.get(waitable) {
            Some(attr) => Ok(*attr),
            None => Err(Error(ERROR_NOT_FOUND)),
        }
    }

    /// Records the packet now bound to a waitable after a re-association;
    /// the stored key is preserved.
    pub fn modify_waitable_commit(&mut self, waitable: usize, packet: usize) -> (r: Result<
        (),
        Error,
    >)
        ensures
            final(self).sources() == old(self).sources(),
            !old(self).waitables().contains_key(waitable) ==> r == Err::<(), Error>(
                Error(ERROR_NOT_FOUND),
            ) && final(self).waitables() == old(self).waitables(),
            old(self).waitables().contains_key(waitable) ==> r == Ok::<(), Error>(())
                && final(self).waitables() == old(self).waitables().insert(
                waitable,
                (WaitableAttr { key: old(self).waitables()[waitable].key, packet }),
            ),
    {
        let key = match self.waitables.get(waitable) {
            Some(attr) => attr.key,
            None => {
                return Err(Error(ERROR_NOT_FOUND));
            },
        };
        match self.waitables.try_insert(waitable, WaitableAttr { key, packet }) {
            Ok(()) => Ok(()),
            Err(e) => Err(e),
        }
    }

    /// Deletes a waitable and returns its stored attributes, whose packet
    /// the caller must cancel.  No drain is needed: a stray completion for a
    /// deleted waitable carries a key no current registration matches.
    pub fn delete_waitable(&mut self, waitable: usize) -> (r: Result<WaitableAttr, Error>)
        ensures
            r == spec_find_waitable(old(self).waitables(), waitable),
            final(self).sources() == old(self).sources(),
            final(self).waitables() == old(self).waitables().remove(waitable),
    {
        match self.waitables.remove(waitable) {
            Some(attr) => Ok(attr),
            None => Err(Error(ERROR_NOT_FOUND)),
        }
    }

    /// The completion entry to post for a synthetic event.
    pub fn post(&self, event: Event) -> (r: Completion)
        ensures
            r == spec_post_completion(event),
    {
        Completion {
            bytes_transferred: interest_to_events(&event),
            key: event.key,
            overlapped: 0,
        }
    }
}

/// Idempotent delete: once a `delete` has succeeded, a second `delete` of
/// the same socket fails with *NotFound* and leaves the registry unchanged.
pub proof fn law_idempotent_delete(sources: Map<usize, usize>, socket: usize)
    requires
        spec_delete_result(sources, socket) is Ok,
    ensures
        ({
            let after = spec_delete_sources(sources, socket);
            &&& spec_delete_result(after, socket) == Err::<Registration, Error>(
                Error(ERROR_NOT_FOUND),
            )
            &&& spec_delete_sources(after, socket) == after
        }),
{
    let after = spec_delete_sources(sources, socket);
    assert(spec_delete_sources(after, socket) =~= after);
}

/// Duplicate add: adding a fresh socket succeeds; a second `add` of the same
/// socket fails with *AlreadyExists* and leaves the registry unchanged, the
/// original registration's key intact.
pub proof fn law_duplicate_add(
    sources: Map<usize, usize>,
    socket: usize,
    first: Event,
    first_mode: PollMode,
    second: Event,
    second_mode: PollMode,
)
    requires
        !sources.contains_key(socket),
    ensures
        ({
            let after = spec_add_sources(sources, socket, first.key);
            &&& spec_add_result(sources, socket, first, first_mode) is Ok
            &&& spec_add_result(after, socket, second, second_mode) == Err::<Registration, Error>(
                Error(ERROR_ALREADY_EXISTS),
            )
            &&& spec_add_sources(after, socket, second.key) == after
            &&& after[socket] == first.key
        }),
{
}

/// Key mutation: when `modify` requests a key other than the stored one, its
/// plan first removes the old registration — under the old key, so the drain
/// matches that key's REMOVE completion — and then installs the new
/// registration under the new key.  The eventual redelivery under the new
/// key is the kernel's side of the exchange.
pub proof fn law_key_change_plan(
    sources: Map<usize, usize>,
    socket: usize,
    interest: Event,
    mode: PollMode,
)
    requires
        sources.contains_key(socket),
        sources[socket] != interest.key,
    ensures
        ({
            let r = spec_modify_result(sources, socket, interest, mode);
            &&& r matches Ok(plan)
            &&& plan.remove matches Some(rm) && rm.completion_key == sources[socket]
                && rm.operation == crate::SOCK_NOTIFY_OP_REMOVE && rm.socket == socket
            &&& plan.enable.completion_key == interest.key
            &&& plan.enable.socket == socket
        }),
{
}

/// Key mutation, the registry's side: committing a key-changing `modify`
/// stores the new key for that socket and touches no other entry, so a later
/// `delete` of the socket removes — and drains against — the new key, which
/// is the one the kernel now reports.
pub proof fn law_key_change_updates_registry(
    sources: Map<usize, usize>,
    socket: usize,
    interest: Event,
)
    requires
        sources.contains_key(socket),
        sources[socket] != interest.key,
    ensures
        ({
            let after = spec_modify_sources(sources, socket, interest.key);
            &&& spec_modify_commit_result(sources, socket) is Ok
            &&& after.contains_key(socket) && after[socket] == interest.key
            &&& forall|s: usize|
                s != socket ==> (after.contains_key(s) == sources.contains_key(s) && (
                sources.contains_key(s) ==> after[s] == sources[s]))
            &&& spec_delete_result(after, socket) matches Ok(rm) && rm.completion_key
                == interest.key
        }),
{
}

/// Repost preservation: while draining a removal, a completion whose key is
/// not the drain's target is always reposted, exactly as it was dequeued —
/// whether it arrived with the combined submit call or with a later dequeue.
/// The reposted entry sits in the port again, for the next `wait` to
/// deliver.
pub proof fn law_drain_reposts_foreign_completions(key: usize, entry: Completion)
    requires
        entry.key != key,
    ensures
        spec_drain_dequeue_step(key, ERROR_SUCCESS, Some(entry)) == DrainStep::Repost(entry),
        spec_drain_submit_step(key, ERROR_SUCCESS, ERROR_SUCCESS, Some(entry))
            == DrainStep::Repost(entry),
        spec_drain_submit_step(key, WAIT_TIMEOUT, ERROR_SUCCESS, Some(entry))
            == DrainStep::Repost(entry),
{
}

/// The other side of repost preservation: a completion of the drain's own
/// target key is never reposted — it either ends the drain or is discarded —
/// so nothing of the removed registration is seen again, and no entry is
/// ever duplicated.
pub proof fn law_drain_never_reposts_target(key: usize, entry: Completion)
    requires
        entry.key == key,
    ensures
        !(spec_completion_step(key, entry) matches DrainStep::Repost(_)),
        (entry.bytes_transferred & SOCK_NOTIFY_EVENT_REMOVE) != 0 ==> spec_completion_step(
            key,
            entry,
        ) == DrainStep::Done,
        (entry.bytes_transferred & SOCK_NOTIFY_EVENT_REMOVE) == 0 ==> spec_completion_step(
            key,
            entry,
        ) == DrainStep::Continue,
{
}

/// The key a registration is stored under is the completion key the kernel
/// will report: a successful `add` stores the interest's key, and the
/// registration it submits carries that same key.
pub proof fn law_add_key_consistency(
    sources: Map<usize, usize>,
    socket: usize,
    interest: Event,
    mode: PollMode,
)
    requires
        !sources.contains_key(socket),
    ensures
        ({
            let r = spec_add_result(sources, socket, interest, mode);
            let after = spec_add_sources(sources, socket, interest.key);
            &&& r matches Ok(reg) && reg.completion_key == interest.key
            &&& after.contains_key(socket) && after[socket] == interest.key
        }),
{
}

} // verus!
