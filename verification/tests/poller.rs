//! Tests of the poller core: the socket and waitable registries, the
//! remove-and-drain steps, and the result interpretations.

use wepoll2::io::{ERROR_ALREADY_EXISTS, ERROR_NOT_FOUND, WAIT_TIMEOUT};
use wepoll2::{
    Completion, DrainStep, Error, Event, PollMode, Poller, SOCK_NOTIFY_OP_ENABLE,
    SOCK_NOTIFY_OP_REMOVE, WaitableAttr, cancel_result, check_status, completion_step,
    drain_dequeue_step, drain_submit_step, relative_timeout, update_source_result, wait_result,
};

#[test]
fn add_returns_enable_registration() {
    let mut poller = Poller::new();
    let interest = Event::none(114514).with_writable(true);
    let reg = poller.add(77, interest, PollMode::Level).unwrap();
    assert_eq!(reg.socket, 77);
    assert_eq!(reg.completion_key, 114514);
    assert_eq!(reg.operation, SOCK_NOTIFY_OP_ENABLE);
    assert_eq!(reg.event_filter, 2);
}

#[test]
fn duplicate_add_fails_and_keeps_original() {
    let mut poller = Poller::new();
    let first = Event::none(1).with_readable(true);
    poller.add(77, first, PollMode::Level).unwrap();
    let second = Event::none(2).with_writable(true);
    let err = poller.add(77, second, PollMode::Edge).unwrap_err();
    assert_eq!(err, Error(ERROR_ALREADY_EXISTS));
    // The original registration is intact: modify still sees key 1.
    let plan = poller.modify(77, Event::none(1).with_readable(true), PollMode::Level).unwrap();
    assert!(plan.remove.is_none());
}

#[test]
fn delete_then_delete_fails_not_found() {
    let mut poller = Poller::new();
    poller.add(77, Event::none(5).with_readable(true), PollMode::Level).unwrap();
    let reg = poller.delete(77).unwrap();
    assert_eq!(reg.operation, SOCK_NOTIFY_OP_REMOVE);
    assert_eq!(reg.completion_key, 5);
    let err = poller.delete(77).unwrap_err();
    assert_eq!(err, Error(ERROR_NOT_FOUND));
}

#[test]
fn delete_unknown_socket_fails() {
    let mut poller = Poller::new();
    assert_eq!(poller.delete(1).unwrap_err(), Error(ERROR_NOT_FOUND));
}

#[test]
fn modify_same_key_needs_no_drain() {
    let mut poller = Poller::new();
    poller.add(77, Event::none(5).with_readable(true), PollMode::Level).unwrap();
    let plan = poller.modify(77, Event::none(5).with_writable(true), PollMode::Edge).unwrap();
    assert!(plan.remove.is_none());
    assert_eq!(plan.enable.completion_key, 5);
    assert_eq!(plan.enable.event_filter, 2);
}

#[test]
fn modify_new_key_removes_old_first() {
    let mut poller = Poller::new();
    poller.add(77, Event::none(5).with_readable(true), PollMode::Level).unwrap();
    let plan = poller.modify(77, Event::none(6).with_readable(true), PollMode::Level).unwrap();
    let rm = plan.remove.unwrap();
    assert_eq!(rm.operation, SOCK_NOTIFY_OP_REMOVE);
    assert_eq!(rm.completion_key, 5);
    assert_eq!(rm.socket, 77);
    assert_eq!(plan.enable.completion_key, 6);
    assert_eq!(plan.enable.operation, SOCK_NOTIFY_OP_ENABLE);
}

#[test]
fn modify_commit_stores_new_key() {
    let mut poller = Poller::new();
    poller.add(77, Event::none(5).with_readable(true), PollMode::Level).unwrap();
    let plan = poller.modify(77, Event::none(6).with_readable(true), PollMode::Level).unwrap();
    assert!(plan.remove.is_some());
    poller.modify_commit(77, 6).unwrap();
    // The registry now holds the new key: no drain is planned for it, and a
    // delete removes the new key's registration.
    let plan = poller.modify(77, Event::none(6).with_writable(true), PollMode::Edge).unwrap();
    assert!(plan.remove.is_none());
    let rm = poller.delete(77).unwrap();
    assert_eq!(rm.completion_key, 6);
}

#[test]
fn modify_commit_unknown_socket_fails() {
    let mut poller = Poller::new();
    assert_eq!(poller.modify_commit(1, 9).unwrap_err(), Error(ERROR_NOT_FOUND));
}

#[test]
fn modify_unknown_socket_fails() {
    let poller = Poller::new();
    let err = poller.modify(77, Event::none(5), PollMode::Level).unwrap_err();
    assert_eq!(err, Error(ERROR_NOT_FOUND));
}

#[test]
fn waitable_add_and_duplicate() {
    let mut poller = Poller::new();
    let interest = Event::none(114514).with_readable(true);
    let wr = poller.add_waitable(1000, interest).unwrap();
    assert_eq!(wr.key, 114514);
    assert_eq!(wr.info, 1);
    poller.add_waitable_commit(1000, wr.key, 1).unwrap();
    let err = poller.add_waitable(1000, interest).unwrap_err();
    assert_eq!(err, Error(ERROR_ALREADY_EXISTS));
    let err = poller.add_waitable_commit(1000, wr.key, 2).unwrap_err();
    assert_eq!(err, Error(ERROR_ALREADY_EXISTS));
}

#[test]
fn waitable_modify_keeps_key() {
    let mut poller = Poller::new();
    let wr = poller.add_waitable(1000, Event::none(9).with_readable(true)).unwrap();
    poller.add_waitable_commit(1000, wr.key, 41).unwrap();
    let attr = poller.modify_waitable(1000).unwrap();
    assert_eq!(attr, WaitableAttr { key: 9, packet: 41 });
    // The old packet could not be reused: a fresh one replaces it, the key
    // stays.
    poller.modify_waitable_commit(1000, 42).unwrap();
    let attr = poller.modify_waitable(1000).unwrap();
    assert_eq!(attr, WaitableAttr { key: 9, packet: 42 });
}

#[test]
fn waitable_modify_unknown_fails() {
    let mut poller = Poller::new();
    assert_eq!(poller.modify_waitable(1).unwrap_err(), Error(ERROR_NOT_FOUND));
    assert_eq!(poller.modify_waitable_commit(1, 7).unwrap_err(), Error(ERROR_NOT_FOUND));
}

#[test]
fn waitable_delete_is_not_repeatable() {
    let mut poller = Poller::new();
    let wr = poller.add_waitable(1000, Event::none(9).with_readable(true)).unwrap();
    poller.add_waitable_commit(1000, wr.key, 41).unwrap();
    let attr = poller.delete_waitable(1000).unwrap();
    assert_eq!(attr.packet, 41);
    assert_eq!(poller.delete_waitable(1000).unwrap_err(), Error(ERROR_NOT_FOUND));
}

#[test]
fn post_builds_completion() {
    let poller = Poller::new();
    let c = poller.post(Event::none(33).with_readable(true).with_hangup(true));
    assert_eq!(c, Completion { bytes_transferred: 1 | 4, key: 33, overlapped: 0 });
}

#[test]
fn update_source_result_precedence() {
    assert!(update_source_result(0, 0).is_ok());
    // The per-registration status takes precedence when the call succeeded.
    assert_eq!(update_source_result(0, 87).unwrap_err(), Error(87));
    assert_eq!(update_source_result(5, 87).unwrap_err(), Error(5));
}

#[test]
fn drain_completion_judgement() {
    let target = 5;
    let remove = Completion { bytes_transferred: 128 | 1, key: 5, overlapped: 0 };
    assert_eq!(completion_step(target, remove), DrainStep::Done);
    let stale = Completion { bytes_transferred: 1, key: 5, overlapped: 0 };
    assert_eq!(completion_step(target, stale), DrainStep::Continue);
    let foreign = Completion { bytes_transferred: 2, key: 6, overlapped: 777 };
    assert_eq!(completion_step(target, foreign), DrainStep::Repost(foreign));
}

#[test]
fn drain_submit_judgement() {
    let target = 5;
    let foreign = Completion { bytes_transferred: 2, key: 6, overlapped: 777 };
    // Registration rejected: repost what was dequeued, then surface the
    // registration error.
    assert_eq!(
        drain_submit_step(target, 0, 87, Some(foreign)),
        DrainStep::RepostThenFail(foreign, Error(87))
    );
    assert_eq!(drain_submit_step(target, WAIT_TIMEOUT, 87, None), DrainStep::Fail(Error(87)));
    // Call failed outright.
    assert_eq!(drain_submit_step(target, 6, 0, None), DrainStep::Fail(Error(6)));
    // Success with nothing dequeued: keep waiting.
    assert_eq!(drain_submit_step(target, WAIT_TIMEOUT, 0, None), DrainStep::Continue);
    // Success with a foreign completion: repost it.
    assert_eq!(drain_submit_step(target, 0, 0, Some(foreign)), DrainStep::Repost(foreign));
    let remove = Completion { bytes_transferred: 128, key: 5, overlapped: 0 };
    assert_eq!(drain_submit_step(target, 0, 0, Some(remove)), DrainStep::Done);
}

#[test]
fn drain_dequeue_judgement() {
    let target = 5;
    let foreign = Completion { bytes_transferred: 2, key: 6, overlapped: 777 };
    assert_eq!(drain_dequeue_step(target, 0, Some(foreign)), DrainStep::Repost(foreign));
    let remove = Completion { bytes_transferred: 128, key: 5, overlapped: 0 };
    assert_eq!(drain_dequeue_step(target, 0, Some(remove)), DrainStep::Done);
    let stale = Completion { bytes_transferred: 4, key: 5, overlapped: 0 };
    assert_eq!(drain_dequeue_step(target, 0, Some(stale)), DrainStep::Continue);
    assert_eq!(drain_dequeue_step(target, WAIT_TIMEOUT, None), DrainStep::Continue);
    assert_eq!(drain_dequeue_step(target, 6, None), DrainStep::Fail(Error(6)));
}

#[test]
fn wait_result_statuses() {
    assert_eq!(wait_result(0, 4).unwrap(), 4);
    // STATUS_TIMEOUT.
    assert_eq!(wait_result(0x102, 4).unwrap(), 0);
    // STATUS_USER_APC.
    assert_eq!(wait_result(0xC0, 4).unwrap(), 0);
    assert_eq!(wait_result(-1073741536, 0).unwrap_err(), -1073741536);
}

#[test]
fn relative_timeout_conversion() {
    // 100 microseconds: 1000 hundred-nanosecond units, negated.
    assert_eq!(relative_timeout(0, 100_000), Some((-1000i64) as u64));
    // 3 milliseconds.
    assert_eq!(relative_timeout(0, 3_000_000), Some((-30_000i64) as u64));
    // 1 second.
    assert_eq!(relative_timeout(1, 0), Some((-10_000_000i64) as u64));
    // Zero means a non-blocking poll.
    assert_eq!(relative_timeout(0, 0), Some(0));
    // Sub-unit nanoseconds round up to one unit.
    assert_eq!(relative_timeout(0, 1), Some((-1i64) as u64));
    // Beyond the representable range: wait indefinitely.
    assert_eq!(relative_timeout(u64::MAX, 999_999_999), None);
    assert_eq!(relative_timeout(922_337_203_686, 0), None);
    // The largest representable wait.
    assert_eq!(relative_timeout(922_337_203_684, 0), Some((-9223372036840000000i64) as u64));
}

#[test]
fn check_status_values() {
    assert!(check_status(0).is_ok());
    assert_eq!(check_status(-1073741536).unwrap_err(), -1073741536);
    assert_eq!(check_status(0x103).unwrap_err(), 0x103);
}

#[test]
fn cancel_result_values() {
    // STATUS_SUCCESS and STATUS_CANCELLED free the packet.
    assert_eq!(cancel_result(0).unwrap(), true);
    assert_eq!(cancel_result(-1073741536).unwrap(), true);
    // STATUS_PENDING: a completion is in flight.
    assert_eq!(cancel_result(0x103).unwrap(), false);
    assert_eq!(cancel_result(5).unwrap_err(), 5);
}
