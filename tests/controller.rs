use sqs_worker::controller::{BACKOFF_SECONDS, EXIT_OK, EXIT_STARTUP_FAILED};
use sqs_worker::{Action, Controller, Event, Message, Stage};
use std::collections::HashMap;

fn message(id: &str) -> Message {
    Message {
        message_id: id.to_string(),
        receipt_handle: format!("receipt-{}", id),
        body: format!("body of {}", id),
        attributes: HashMap::new(),
    }
}

/// A controller that has started and is waiting on its first receive.
fn running() -> Controller {
    let mut c = Controller::new();
    assert_eq!(c.pending(), Action::Connect);
    assert_eq!(c.step(Event::Connected, false), Action::SetReady(true));
    assert_eq!(c.step(Event::Done, false), Action::Receive);
    c
}

#[test]
fn startup_publishes_readiness_after_connecting() {
    let mut c = Controller::new();
    assert_eq!(c.stage(), Stage::Connecting);
    assert!(!c.is_ready());
    assert_eq!(c.step(Event::Connected, false), Action::SetReady(true));
    assert!(c.is_ready());
    assert_eq!(c.step(Event::Done, false), Action::Receive);
    assert_eq!(c.stage(), Stage::Polling);
}

#[test]
fn failed_startup_exits_non_zero_without_readiness() {
    let mut c = Controller::new();
    assert_eq!(c.step(Event::ConnectFailed, false), Action::Exit(EXIT_STARTUP_FAILED));
    assert_eq!(c.stage(), Stage::Stopped(EXIT_STARTUP_FAILED));
    assert!(!c.is_ready());
    assert_ne!(EXIT_STARTUP_FAILED, 0);
}

#[test]
fn partial_batch_failure_still_deletes_every_message() {
    let mut c = running();
    let batch = vec![message("1"), message("2"), message("3")];
    assert_eq!(c.step(Event::Received(batch), false), Action::Process(0));
    assert_eq!(c.message(0).unwrap().message_id, "1");
    assert_eq!(c.step(Event::Processed(true), false), Action::Delete(0));
    assert_eq!(c.message(0).unwrap().receipt_handle, "receipt-1");
    assert_eq!(c.step(Event::Deleted(true), false), Action::Process(1));
    assert_eq!(c.step(Event::Processed(false), false), Action::Delete(1));
    assert_eq!(c.message(1).unwrap().receipt_handle, "receipt-2");
    assert_eq!(c.step(Event::Deleted(true), false), Action::Process(2));
    assert_eq!(c.step(Event::Processed(true), false), Action::Delete(2));
    assert_eq!(c.message(2).unwrap().receipt_handle, "receipt-3");
    assert!(c.message(3).is_none());
    assert_eq!(c.step(Event::Deleted(true), false), Action::Receive);
    assert!(c.message(0).is_none());
    assert!(c.is_ready());
}

#[test]
fn failed_delete_does_not_abort_the_batch() {
    let mut c = running();
    assert_eq!(c.step(Event::Received(vec![message("a"), message("b")]), false), Action::Process(0));
    assert_eq!(c.step(Event::Processed(true), false), Action::Delete(0));
    assert_eq!(c.step(Event::Deleted(false), false), Action::Process(1));
    assert_eq!(c.step(Event::Processed(true), false), Action::Delete(1));
    assert_eq!(c.step(Event::Deleted(false), false), Action::Receive);
}

#[test]
fn five_failed_receives_give_five_delays() {
    let mut c = running();
    let mut delays = 0;
    for _ in 0..5 {
        let a = c.step(Event::ReceiveFailed, false);
        assert_eq!(a, Action::Sleep(BACKOFF_SECONDS));
        delays += 1;
        assert!(c.is_ready());
        assert_eq!(c.step(Event::Done, false), Action::Receive);
        assert!(c.is_ready());
    }
    assert_eq!(delays, 5);
    assert_eq!(c.stage(), Stage::Polling);
    assert_eq!(BACKOFF_SECONDS, 1);
}

#[test]
fn empty_receive_is_not_followed_by_a_delay() {
    let mut c = running();
    assert_eq!(c.step(Event::Received(Vec::new()), false), Action::Receive);
    assert_eq!(c.step(Event::Received(Vec::new()), false), Action::Receive);
}

#[test]
fn shutdown_during_a_batch_finishes_it_first() {
    let mut c = running();
    assert_eq!(c.step(Event::Received(vec![message("x"), message("y")]), false), Action::Process(0));
    // The signal arrives while the first message is being processed.
    assert_eq!(c.step(Event::Processed(true), true), Action::Delete(0));
    assert!(c.is_ready());
    assert_eq!(c.step(Event::Deleted(true), true), Action::Process(1));
    assert!(c.is_ready());
    assert_eq!(c.step(Event::Processed(true), true), Action::Delete(1));
    assert!(c.is_ready());
    assert_eq!(c.step(Event::Deleted(true), true), Action::SetReady(false));
    assert!(!c.is_ready());
    assert_eq!(c.step(Event::Done, true), Action::RevokeSignals);
    assert_eq!(c.step(Event::Done, true), Action::JoinTasks);
    assert_eq!(c.step(Event::Done, true), Action::Exit(EXIT_OK));
    assert_eq!(c.stage(), Stage::Stopped(0));
}

#[test]
fn shutdown_after_failed_receive_waits_out_the_delay() {
    let mut c = running();
    assert_eq!(c.step(Event::ReceiveFailed, true), Action::Sleep(BACKOFF_SECONDS));
    assert_eq!(c.step(Event::Done, true), Action::SetReady(false));
}

#[test]
fn shutdown_before_the_first_receive() {
    let mut c = Controller::new();
    assert_eq!(c.step(Event::Connected, true), Action::SetReady(true));
    assert_eq!(c.step(Event::Done, true), Action::SetReady(false));
}

#[test]
fn events_are_checked_against_the_pending_action() {
    let mut c = Controller::new();
    assert!(c.accepts(&Event::Connected));
    assert!(c.accepts(&Event::ConnectFailed));
    assert!(!c.accepts(&Event::Done));
    c.step(Event::Connected, false);
    assert!(c.accepts(&Event::Done));
    assert!(!c.accepts(&Event::ReceiveFailed));
    c.step(Event::Done, false);
    assert!(c.accepts(&Event::Received(Vec::new())));
    assert!(c.accepts(&Event::ReceiveFailed));
    assert!(!c.accepts(&Event::Deleted(true)));
}

#[test]
fn whole_run_writes_readiness_true_then_false() {
    let mut c = Controller::new();
    let mut writes = Vec::new();
    let mut actions = vec![c.pending()];
    let events = vec![
        (Event::Connected, false),
        (Event::Done, false),
        (Event::ReceiveFailed, false),
        (Event::Done, false),
        (Event::Received(vec![message("m")]), false),
        (Event::Processed(false), false),
        (Event::Deleted(true), false),
        (Event::Received(Vec::new()), true),
        (Event::Done, true),
        (Event::Done, true),
        (Event::Done, true),
    ];
    for (e, shutdown) in events {
        assert!(c.accepts(&e));
        actions.push(c.step(e, shutdown));
    }
    for a in &actions {
        if let Action::SetReady(b) = a {
            writes.push(*b);
        }
    }
    assert_eq!(writes, vec![true, false]);
    assert_eq!(actions.iter().filter(|a| **a == Action::Receive).count(), 3);
    assert_eq!(*actions.last().unwrap(), Action::Exit(EXIT_OK));
}
