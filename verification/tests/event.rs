//! Tests of the event type, its completion-entry reinterpretation, and the
//! registration translations.

use wepoll2::{
    Completion, Event, PollMode, Registration, SOCK_NOTIFY_OP_DISABLE, SOCK_NOTIFY_OP_ENABLE,
    SOCK_NOTIFY_OP_REMOVE, SOCK_NOTIFY_TRIGGER_EDGE, SOCK_NOTIFY_TRIGGER_LEVEL,
    SOCK_NOTIFY_TRIGGER_ONESHOT, SOCK_NOTIFY_TRIGGER_PERSISTENT, create_registration,
    events_of_completions, interest_to_events, interest_to_filter, mode_to_flags,
};

#[test]
fn event_none_is_empty() {
    let e = Event::none(114514);
    assert_eq!(e.key(), 114514);
    assert_eq!(e.events(), 0);
    assert!(!e.is_readable());
    assert!(!e.is_writable());
    assert!(!e.is_hangup());
    assert!(!e.is_error());
}

#[test]
fn event_bits_set_and_get() {
    let mut e = Event::none(3);
    e.set_readable(true);
    e.set_error(true);
    assert!(e.is_readable());
    assert!(!e.is_writable());
    assert!(!e.is_hangup());
    assert!(e.is_error());
    assert_eq!(e.events(), 1 | 64);
    e.set_readable(false);
    assert!(!e.is_readable());
    assert!(e.is_error());
    assert_eq!(e.key(), 3);
}

#[test]
fn event_with_builders() {
    let e = Event::none(7).with_writable(true).with_hangup(true);
    assert!(e.is_writable());
    assert!(e.is_hangup());
    assert!(!e.is_readable());
    assert_eq!(e.events(), 2 | 4);
    let e = e.with_writable(false);
    assert!(!e.is_writable());
    assert!(e.is_hangup());
}

#[test]
fn completion_round_trip() {
    let e = Event::none(114514).with_readable(true).with_error(true);
    let entry = e.to_completion();
    assert_eq!(entry.bytes_transferred, 1 | 64);
    assert_eq!(entry.key, 114514);
    assert_eq!(entry.overlapped, 0);
    let back = Event::from_completion(entry);
    assert_eq!(back.events(), e.events());
    assert_eq!(back.key(), e.key());
}

#[test]
fn completion_from_delivered_entry() {
    let entry = Completion { bytes_transferred: 2, key: 42, overlapped: 12345 };
    let e = Event::from_completion(entry);
    assert!(e.is_writable());
    assert_eq!(e.key(), 42);
    let again = e.to_completion();
    assert_eq!(again.bytes_transferred, entry.bytes_transferred);
    assert_eq!(again.key, entry.key);
    assert_eq!(again.overlapped, 0);
}

#[test]
fn filter_translation() {
    let e = Event::none(0).with_readable(true).with_writable(true).with_hangup(true).with_error(
        true,
    );
    assert_eq!(interest_to_filter(&e), 7);
    assert_eq!(interest_to_events(&e), 1 | 2 | 4 | 64);
    let r = Event::none(0).with_readable(true);
    assert_eq!(interest_to_filter(&r), 1);
    assert_eq!(interest_to_events(&r), 1);
    let err_only = Event::none(0).with_error(true);
    // The error interest has no filter bit: errors are always reported.
    assert_eq!(interest_to_filter(&err_only), 0);
    assert_eq!(interest_to_events(&err_only), 64);
    assert_eq!(interest_to_filter(&Event::none(0)), 0);
}

#[test]
fn mode_flag_table() {
    assert_eq!(
        mode_to_flags(PollMode::Oneshot),
        SOCK_NOTIFY_TRIGGER_ONESHOT | SOCK_NOTIFY_TRIGGER_LEVEL
    );
    assert_eq!(
        mode_to_flags(PollMode::Level),
        SOCK_NOTIFY_TRIGGER_PERSISTENT | SOCK_NOTIFY_TRIGGER_LEVEL
    );
    assert_eq!(
        mode_to_flags(PollMode::Edge),
        SOCK_NOTIFY_TRIGGER_PERSISTENT | SOCK_NOTIFY_TRIGGER_EDGE
    );
    assert_eq!(
        mode_to_flags(PollMode::EdgeOneshot),
        SOCK_NOTIFY_TRIGGER_ONESHOT | SOCK_NOTIFY_TRIGGER_EDGE
    );
}

#[test]
fn registration_enable() {
    let interest = Event::none(99).with_writable(true);
    let reg = create_registration(55, interest, PollMode::Level, true);
    assert_eq!(
        reg,
        Registration {
            socket: 55,
            completion_key: 99,
            event_filter: 2,
            operation: SOCK_NOTIFY_OP_ENABLE,
            trigger_flags: SOCK_NOTIFY_TRIGGER_PERSISTENT | SOCK_NOTIFY_TRIGGER_LEVEL,
        }
    );
}

#[test]
fn registration_empty_filter_disables() {
    // Windows forbids enabling an empty filter; an interest with no filter
    // bits becomes a DISABLE.
    let reg = create_registration(55, Event::none(99), PollMode::Oneshot, true);
    assert_eq!(reg.operation, SOCK_NOTIFY_OP_DISABLE);
    assert_eq!(reg.event_filter, 0);
    // An error-only interest also carries an empty filter.
    let reg = create_registration(55, Event::none(99).with_error(true), PollMode::Oneshot, true);
    assert_eq!(reg.operation, SOCK_NOTIFY_OP_DISABLE);
}

#[test]
fn registration_remove() {
    let reg = create_registration(55, Event::none(99), PollMode::Oneshot, false);
    assert_eq!(reg.operation, SOCK_NOTIFY_OP_REMOVE);
    assert_eq!(reg.completion_key, 99);
    assert_eq!(reg.socket, 55);
}

#[test]
fn batch_conversion_keeps_order() {
    let entries = vec![
        Completion { bytes_transferred: 1, key: 10, overlapped: 0 },
        Completion { bytes_transferred: 2, key: 20, overlapped: 555 },
        Completion { bytes_transferred: 64, key: 30, overlapped: 0 },
    ];
    let events = events_of_completions(&entries);
    assert_eq!(events.len(), 3);
    assert_eq!(events[0].key(), 10);
    assert!(events[0].is_readable());
    assert_eq!(events[1].key(), 20);
    assert!(events[1].is_writable());
    assert_eq!(events[2].key(), 30);
    assert!(events[2].is_error());
    assert_eq!(events_of_completions(&Vec::new()).len(), 0);
}
