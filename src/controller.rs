use vstd::prelude::*;
use crate::message::Message;

verus! {

/// Seconds slept after a failed receive before the next receive.
pub const BACKOFF_SECONDS: u64 = 1;

/// Exit code of a graceful shutdown.
pub const EXIT_OK: i32 = 0;

/// Exit code when the queue client could not be built at startup.
pub const EXIT_STARTUP_FAILED: i32 = 1;

/// Where the worker stands. Each stage has one pending action (see
/// `pending_action`), which the runner performs before it reports back.
#[derive(Debug, Clone, Copy, PartialEq, Eq, Structural)]
pub enum Stage {
    /// Starting: the queue client is being built.
    Connecting,
    /// Starting: readiness is being set.
    Announcing,
    /// Running: a receive is in flight.
    Polling,
    /// Running: the processing step runs on the message at this index.
    Processing(usize),
    /// Running: the message at this index is being deleted.
    Deleting(usize),
    /// Running: the fixed delay after a failed receive.
    BackingOff,
    /// Draining: readiness is being cleared.
    Withdrawing,
    /// Draining: the signal subscription is being revoked.
    Revoking,
    /// Draining: the listener and probe tasks are being joined.
    Joining,
    /// Stopped, with the process exit code.
    Stopped(i32),
}

/// What the runner reports after performing the pending action.
#[derive(Debug)]
pub enum Event {
    /// The queue client was built.
    Connected,
    /// The queue client could not be built.
    ConnectFailed,
    /// A receive returned these messages, in order (possibly none).
    Received(Vec<Message>),
    /// A receive failed.
    ReceiveFailed,
    /// The processing step finished, successfully or not.
    Processed(bool),
    /// A delete finished, successfully or not.
    Deleted(bool),
    /// An action without an outcome finished.
    Done,
}

/// What the runner is asked to do next.
#[derive(Debug, Clone, Copy, PartialEq, Eq, Structural)]
pub enum Action {
    /// Build the queue client.
    Connect,
    /// Publish this readiness value.
    SetReady(bool),
    /// Receive a batch with the configured parameters.
    Receive,
    /// Run the processing step on the batch's message at this index.
    Process(usize),
    /// Delete the batch's message at this index.
    Delete(usize),
    /// Sleep this many seconds.
    Sleep(u64),
    /// Revoke the subscription to termination signals.
    RevokeSignals,
    /// Wait for the signal listener and the probe server to finish.
    JoinTasks,
    /// Exit the process with this code.
    Exit(i32),
}

/// The abstract state of a controller: its stage and the batch in hand.
pub struct ControllerState {
    pub stage: Stage,
    pub batch: Seq<Message>,
}

/// Drives the worker's lifecycle: startup, the receive / process / delete
/// loop with its backoff, and the ordered shutdown.
pub struct Controller {
    stage: Stage,
    batch: Vec<Message>,
}

impl View for Controller {
    type V = ControllerState;

    closed spec fn view(&self) -> ControllerState {
        ControllerState { stage: self.stage, batch: self.batch@ }
    }
}

pub open spec fn initial_state() -> ControllerState {
    ControllerState { stage: Stage::Connecting, batch: Seq::empty() }
}

/// A batch is held exactly while one of its messages is being handled.
pub open spec fn well_formed(s: ControllerState) -> bool {
    match s.stage {
        Stage::Processing(i) => i < s.batch.len(),
        Stage::Deleting(i) => i < s.batch.len(),
        Stage::Stopped(c) => s.batch.len() == 0 && (c == EXIT_OK || c == EXIT_STARTUP_FAILED),
        _ => s.batch.len() == 0,
    }
}

/// The action that a stage waits on.
pub open spec fn pending_action(stage: Stage) -> Action {
    match stage {
        Stage::Connecting => Action::Connect,
        Stage::Announcing => Action::SetReady(true),
        Stage::Polling => Action::Receive,
        Stage::Processing(i) => Action::Process(i),
        Stage::Deleting(i) => Action::Delete(i),
        Stage::BackingOff => Action::Sleep(BACKOFF_SECONDS),
        Stage::Withdrawing => Action::SetReady(false),
        Stage::Revoking => Action::RevokeSignals,
        Stage::Joining => Action::JoinTasks,
        Stage::Stopped(c) => Action::Exit(c),
    }
}

/// Whether `e` reports the outcome of the action that `stage` waits on.
pub open spec fn fits(stage: Stage, e: Event) -> bool {
    match stage {
        Stage::Connecting => e is Connected || e is ConnectFailed,
        Stage::Polling => e is Received || e is ReceiveFailed,
        Stage::Processing(_) => e is Processed,
        Stage::Deleting(_) => e is Deleted,
        Stage::Stopped(_) => false,
        _ => e is Done,
    }
}

/// The stage at the top of a cycle: the shutdown flag is read there, and
/// decides between a new receive and the start of the shutdown.
pub open spec fn cycle_start(shutdown: bool) -> Stage {
    if shutdown {
        Stage::Withdrawing
    } else {
        Stage::Polling
    }
}

pub open spec fn at(stage: Stage, batch: Seq<Message>) -> ControllerState {
    ControllerState { stage, batch }
}

/// The state after `e` is reported in state `s`, where `shutdown` is what the
/// shutdown flag reads.
pub open spec fn next_state(s: ControllerState, e: Event, shutdown: bool) -> ControllerState {
    match s.stage {
        Stage::Connecting => if e is Connected {
            at(Stage::Announcing, s.batch)
        } else {
            at(Stage::Stopped(EXIT_STARTUP_FAILED), s.batch)
        },
        Stage::Announcing => at(cycle_start(shutdown), Seq::empty()),
        Stage::Polling => match e {
            Event::Received(v) => if v@.len() == 0 {
                at(cycle_start(shutdown), Seq::empty())
            } else {
                at(Stage::Processing(0), v@)
            },
            _ => at(Stage::BackingOff, s.batch),
        },
        Stage::Processing(i) => at(Stage::Deleting(i), s.batch),
        Stage::Deleting(i) => if i + 1 < s.batch.len() {
            at(Stage::Processing((i + 1) as usize), s.batch)
        } else {
            at(cycle_start(shutdown), Seq::empty())
        },
        Stage::BackingOff => at(cycle_start(shutdown), Seq::empty()),
        Stage::Withdrawing => at(Stage::Revoking, s.batch),
        Stage::Revoking => at(Stage::Joining, s.batch),
        Stage::Joining => at(Stage::Stopped(EXIT_OK), s.batch),
        Stage::Stopped(c) => s,
    }
}

/// The readiness that the probe reports once a stage's pending action is done.
pub open spec fn readiness(stage: Stage) -> bool {
    match stage {
        Stage::Announcing | Stage::Polling | Stage::Processing(_) | Stage::Deleting(_)
        | Stage::BackingOff => true,
        _ => false,
    }
}

impl Controller {
    /// A controller about to build the queue client.
    pub fn new() -> (c: Controller)
        ensures
            c@ == initial_state(),
            well_formed(c@),
    {
        Controller { stage: Stage::Connecting, batch: Vec::new() }
    }

    pub fn stage(&self) -> (r: Stage)
        ensures
            r == self@.stage,
    {
        self.stage
    }

    /// The action the controller waits on.
    pub fn pending(&self) -> (a: Action)
        ensures
            a == pending_action(self@.stage),
    {
        match self.stage {
            Stage::Connecting => Action::Connect,
            Stage::Announcing => Action::SetReady(true),
            Stage::Polling => Action::Receive,
            Stage::Processing(i) => Action::Process(i),
            Stage::Deleting(i) => Action::Delete(i),
            Stage::BackingOff => Action::Sleep(BACKOFF_SECONDS),
            Stage::Withdrawing => Action::SetReady(false),
            Stage::Revoking => Action::RevokeSignals,
            Stage::Joining => Action::JoinTasks,
            Stage::Stopped(c) => Action::Exit(c),
        }
    }

    /// Whether `e` reports the outcome of the pending action.
    pub fn accepts(&self, e: &Event) -> (r: bool)
        ensures
            r == fits(self@.stage, *e),
    {
        match self.stage {
            Stage::Connecting => matches!(e, Event::Connected | Event::ConnectFailed),
            Stage::Polling => matches!(e, Event::Received(_) | Event::ReceiveFailed),
            Stage::Processing(_) => matches!(e, Event::Processed(_)),
            Stage::Deleting(_) => matches!(e, Event::Deleted(_)),
            Stage::Stopped(_) => false,
            _ => matches!(e, Event::Done),
        }
    }

    /// The readiness the probe reports once the pending action is done.
    pub fn is_ready(&self) -> (r: bool)
        ensures
            r == readiness(self@.stage),
    {
        match self.stage {
            Stage::Announcing | Stage::Polling | Stage::Processing(_) | Stage::Deleting(_)
            | Stage::BackingOff => true,
            _ => false,
        }
    }

    /// The message of the batch in hand at index `i`, if there is one.
    pub fn message(&self, i: usize) -> (r: Option<&Message>)
        ensures
            i < self@.batch.len() ==> r == Some(&self@.batch[i as int]),
            i >= self@.batch.len() ==> r is None,
    {
        if i < self.batch.len() {
            Some(&self.batch[i])
        } else {
            None
        }
    }

    fn begin_cycle(&mut self, shutdown: bool)
        ensures
            *final(self) == (Controller { stage: cycle_start(shutdown), batch: final(self).batch }),
            final(self).batch@ == Seq::<Message>::empty(),
    {
        self.batch = Vec::new();
        self.stage = if shutdown {
            Stage::Withdrawing
        } else {
            Stage::Polling
        };
    }

    /// Takes the outcome of the pending action, with what the shutdown flag
    /// reads now, and returns the next action.
    pub fn step(&mut self, e: Event, shutdown: bool) -> (a: Action)
        requires
            well_formed(old(self)@),
            fits(old(self)@.stage, e),
        ensures
            final(self)@ == next_state(old(self)@, e, shutdown),
            well_formed(final(self)@),
            a == pending_action(final(self)@.stage),
    {
        match self.stage {
            Stage::Connecting => {
                self.stage = match e {
                    Event::Connected => Stage::Announcing,
                    _ => Stage::Stopped(EXIT_STARTUP_FAILED),
                };
            },
            Stage::Announcing | Stage::BackingOff => self.begin_cycle(shutdown),
            Stage::Polling => {
                match e {
                    Event::Received(v) => {
                        if v.len() == 0 {
                            self.begin_cycle(shutdown);
                        } else {
                            self.batch = v;
                            self.stage = Stage::Processing(0);
                        }
                    },
                    _ => self.stage = Stage::BackingOff,
                }
            },
            Stage::Processing(i) => self.stage = Stage::Deleting(i),
            Stage::Deleting(i) => {
                if i < self.batch.len() - 1 {
                    self.stage = Stage::Processing(i + 1);
                } else {
                    self.begin_cycle(shutdown);
                }
            },
            Stage::Withdrawing => self.stage = Stage::Revoking,
            Stage::Revoking => self.stage = Stage::Joining,
            Stage::Joining => self.stage = Stage::Stopped(EXIT_OK),
            Stage::Stopped(_) => {},
        }
        self.pending()
    }
}

} // verus!
