//! Events, the single-slot event source, and the bounded poller.
//!
//! A notification source pushes events into a slot that keeps only the latest
//! one. A poll drains the slot if it holds an event; otherwise the caller waits
//! for the next notification under a timeout and reports how the wait ended.

use vstd::prelude::*;

verus! {

/// How long a poll waits for a notification unless configured otherwise, in
/// milliseconds.
pub const DEFAULT_POLL_TIMEOUT_MS: u64 = 2_000;

/// What can change about one session.
#[derive(Clone, Copy, Debug, PartialEq, Eq, Structural)]
pub enum SessionEvent {
    PlaybackInfoChanged,
    MediaPropertiesChanged,
    TimelinePropertiesChanged,
}

/// What can change about the registry as a whole.
#[derive(Clone, Copy, Debug, PartialEq, Eq, Structural)]
pub enum ManagerEvent {
    ActiveSessionChanged,
    SystemSessionChanged,
    SessionsChanged,
}

/// The result of one poll.
#[derive(Debug, PartialEq, Eq)]
pub enum Outcome<E> {
    /// An event was delivered.
    Event(E),
    /// The wait ended without an event.
    NoEvent,
    /// The timeout elapsed first.
    TimedOut,
}

/// What a poll asks of its caller.
#[derive(Debug, PartialEq, Eq)]
pub enum PollStep<E> {
    /// The poll is over with this outcome.
    Ready(Outcome<E>),
    /// Nothing is pending: wait for the next notification, for at most this
    /// many milliseconds, and finish the poll with the result of that wait.
    Wait { timeout_ms: u64 },
}

/// `tokio::time::error::Elapsed`, the error with which `tokio::time::timeout`
/// reports that the deadline passed first. The declaration makes the type
/// known to the verifier and claims nothing about it: it carries no data.
#[verifier::external_type_specification]
#[verifier::external_body]
pub struct ExElapsed(tokio::time::error::Elapsed);

/// The outcome that a finished timed wait stands for.
pub open spec fn outcome_of<E>(waited: Result<Option<E>, tokio::time::error::Elapsed>) -> Outcome<E> {
    match waited {
        Ok(Some(event)) => Outcome::Event(event),
        Ok(None) => Outcome::NoEvent,
        Err(_) => Outcome::TimedOut,
    }
}

/// What a poll does when it finds `pending` in the slot: it delivers a
/// pending event at once, and otherwise asks for a wait of at most the
/// configured timeout.
pub open spec fn poll_step<E>(pending: Option<E>, timeout_ms: u64) -> PollStep<E> {
    match pending {
        Some(event) => PollStep::Ready(Outcome::Event(event)),
        None => PollStep::Wait { timeout_ms },
    }
}

/// What a timed wait delivers from a slot that holds `pending`: the slot's
/// content if a notification ended the wait, the timeout otherwise.
pub open spec fn delivery<E>(
    pending: Option<E>,
    waited: Result<(), tokio::time::error::Elapsed>,
) -> Result<Option<E>, tokio::time::error::Elapsed> {
    match waited {
        Ok(_) => Ok(pending),
        Err(elapsed) => Err(elapsed),
    }
}

/// The slot after a timed wait: drained if a notification ended the wait,
/// untouched if the timeout did.
pub open spec fn after_wait<E>(pending: Option<E>, waited: Result<(), tokio::time::error::Elapsed>) -> Option<E> {
    match waited {
        Ok(_) => None,
        Err(_) => pending,
    }
}

/// The bounded poller: collapses the result of racing a wait against a timeout
/// into one outcome. Neither the lack of an event nor the timeout is an error.
pub fn poll_with_timeout<E>(waited: Result<Option<E>, tokio::time::error::Elapsed>) -> (outcome: Outcome<E>)
    ensures
        outcome == outcome_of(waited),
    no_unwind
{
    match waited {
        Ok(Some(event)) => Outcome::Event(event),
        Ok(None) => Outcome::NoEvent,
        Err(_) => Outcome::TimedOut,
    }
}

/// A single-slot event source. It keeps at most one pending event, and a new
/// notification replaces the one that is still pending.
pub struct EventSlot<E> {
    pending: Option<E>,
}

impl<E> View for EventSlot<E> {
    type V = Option<E>;

    closed spec fn view(&self) -> Option<E> {
        self.pending
    }
}

impl<E> EventSlot<E> {
    pub fn new() -> (slot: Self)
        ensures
            slot@ is None,
    {
        EventSlot { pending: None }
    }

    /// Records a notification. The latest one wins.
    pub fn notify(&mut self, event: E)
        ensures
            final(self)@ == Some(event),
        no_unwind
    {
        self.pending = Some(event);
    }

    /// The pending event, if any. The slot keeps it.
    pub fn peek(&self) -> (event: Option<E>)
        where E: Copy,
        ensures
            event == self@,
    {
        self.pending
    }

    /// Takes the pending event, if any, and leaves the slot empty.
    pub fn take(&mut self) -> (event: Option<E>)
        ensures
            event == old(self)@,
            final(self)@ is None,
        no_unwind
    {
        let mut event: Option<E> = None;
        std::mem::swap(&mut self.pending, &mut event);
        event
    }

    /// Starts a poll: delivers the pending event at once, or asks for a wait
    /// of at most `timeout_ms` milliseconds.
    pub fn poll_next_event(&mut self, timeout_ms: u64) -> (step: PollStep<E>)
        ensures
            step == poll_step(old(self)@, timeout_ms),
            final(self)@ is None,
        no_unwind
    {
        match self.take() {
            Some(event) => PollStep::Ready(Outcome::Event(event)),
            None => PollStep::Wait { timeout_ms },
        }
    }

    /// Ends a poll that had to wait. `waited` is what the timed wait for the
    /// next notification returned.
    pub fn finish_poll(&mut self, waited: Result<(), tokio::time::error::Elapsed>) -> (outcome: Outcome<E>)
        ensures
            outcome == outcome_of(delivery(old(self)@, waited)),
            final(self)@ == after_wait(old(self)@, waited),
        no_unwind
    {
        let delivered = match waited {
            Ok(_) => Ok(self.take()),
            Err(elapsed) => Err(elapsed),
        };
        poll_with_timeout(delivered)
    }
}

impl SessionEvent {
    pub open spec fn spec_label(self) -> Seq<char> {
        match self {
            SessionEvent::PlaybackInfoChanged => "PlaybackInfoChanged"@,
            SessionEvent::MediaPropertiesChanged => "MediaPropertiesChanged"@,
            SessionEvent::TimelinePropertiesChanged => "TimelinePropertiesChanged"@,
        }
    }

    pub fn label(self) -> (name: String)
        ensures
            name@ == self.spec_label(),
    {
        match self {
            SessionEvent::PlaybackInfoChanged => String::from_str("PlaybackInfoChanged"),
            SessionEvent::MediaPropertiesChanged => String::from_str("MediaPropertiesChanged"),
            SessionEvent::TimelinePropertiesChanged => String::from_str("TimelinePropertiesChanged"),
        }
    }
}

impl ManagerEvent {
    pub open spec fn spec_label(self) -> Seq<char> {
        match self {
            ManagerEvent::ActiveSessionChanged => "ActiveSessionChanged"@,
            ManagerEvent::SystemSessionChanged => "SystemSessionChanged"@,
            ManagerEvent::SessionsChanged => "SessionsChanged"@,
        }
    }

    pub fn label(self) -> (name: String)
        ensures
            name@ == self.spec_label(),
    {
        match self {
            ManagerEvent::ActiveSessionChanged => String::from_str("ActiveSessionChanged"),
            ManagerEvent::SystemSessionChanged => String::from_str("SystemSessionChanged"),
            ManagerEvent::SessionsChanged => String::from_str("SessionsChanged"),
        }
    }
}

impl Outcome<SessionEvent> {
    /// The name under which a session poll reports this outcome.
    pub open spec fn spec_label(self) -> Seq<char> {
        match self {
            Outcome::Event(event) => event.spec_label(),
            Outcome::NoEvent => "None"@,
            Outcome::TimedOut => "Timeout"@,
        }
    }

    pub fn label(self) -> (name: String)
        ensures
            name@ == self.spec_label(),
    {
        match self {
            Outcome::Event(event) => event.label(),
            Outcome::NoEvent => String::from_str("None"),
            Outcome::TimedOut => String::from_str("Timeout"),
        }
    }
}

impl Outcome<ManagerEvent> {
    /// The name under which a registry poll reports this outcome.
    pub open spec fn spec_label(self) -> Seq<char> {
        match self {
            Outcome::Event(event) => event.spec_label(),
            Outcome::NoEvent => "None"@,
            Outcome::TimedOut => "Timeout"@,
        }
    }

    pub fn label(self) -> (name: String)
        ensures
            name@ == self.spec_label(),
    {
        match self {
            Outcome::Event(event) => event.label(),
            Outcome::NoEvent => String::from_str("None"),
            Outcome::TimedOut => String::from_str("Timeout"),
        }
    }
}

} // verus!
