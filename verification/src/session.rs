//! The record that the registry keeps for one session.

use vstd::prelude::*;
use crate::command::Command;
use crate::events::{delivery, outcome_of, poll_step, EventSlot, Outcome, PollStep, SessionEvent};
use crate::model::SessionState;
use crate::status::RepeatMode;

verus! {

/// One session: its identifier, the shuffle and repeat settings of record, and
/// the slot for its notifications.
pub struct Session {
    aumid: String,
    shuffle: bool,
    repeat: RepeatMode,
    events: EventSlot<SessionEvent>,
}

impl View for Session {
    type V = SessionState;

    closed spec fn view(&self) -> SessionState {
        SessionState { aumid: self.aumid@, shuffle: self.shuffle, repeat: self.repeat, pending: self.events@ }
    }
}

/// The states of a list of sessions, in order.
pub open spec fn session_views(sessions: Seq<Session>) -> Seq<SessionState> {
    Seq::new(sessions.len(), |i: int| sessions[i]@)
}

impl Session {
    pub fn new(aumid: String) -> (session: Session)
        ensures
            session@ == SessionState::fresh(aumid@),
    {
        Session { aumid, shuffle: false, repeat: RepeatMode::Off, events: EventSlot::new() }
    }

    /// A copy of this session in the same state.
    pub fn duplicate(&self) -> (copy: Session)
        ensures
            copy@ == self@,
    {
        let mut events = EventSlot::new();
        match self.events.peek() {
            Some(event) => events.notify(event),
            None => {},
        }
        Session { aumid: self.aumid.clone(), shuffle: self.shuffle, repeat: self.repeat, events }
    }

    pub fn aumid(&self) -> (aumid: &String)
        ensures
            aumid@ == self@.aumid,
    {
        &self.aumid
    }

    pub fn shuffle(&self) -> (shuffle: bool)
        ensures
            shuffle == self@.shuffle,
    {
        self.shuffle
    }

    pub fn repeat(&self) -> (repeat: RepeatMode)
        ensures
            repeat == self@.repeat,
    {
        self.repeat
    }

    /// Takes note of the source's answer to a command.
    pub fn commit(&mut self, command: Command, accepted: bool)
        ensures
            final(self)@ == old(self)@.committed(command, accepted),
        no_unwind
    {
        if accepted {
            match command {
                Command::SetShuffle(value) => {
                    self.shuffle = value;
                },
                Command::SetRepeat(mode) => {
                    self.repeat = mode;
                },
                _ => {},
            }
        }
    }

    /// Records a notification. The latest one wins.
    pub fn notify(&mut self, event: SessionEvent)
        ensures
            final(self)@ == old(self)@.notified(event),
        no_unwind
    {
        self.events.notify(event);
    }

    /// Starts a poll: delivers the pending event at once, or asks for a wait
    /// of at most `timeout_ms` milliseconds.
    pub fn poll_next_event(&mut self, timeout_ms: u64) -> (step: PollStep<SessionEvent>)
        ensures
            step == poll_step(old(self)@.pending, timeout_ms),
            final(self)@ == old(self)@.drained(),
        no_unwind
    {
        self.events.poll_next_event(timeout_ms)
    }

    /// Ends a poll that had to wait.
    pub fn finish_poll(
        &mut self,
        waited: Result<(), tokio::time::error::Elapsed>,
    ) -> (outcome: Outcome<SessionEvent>)
        ensures
            outcome == outcome_of(delivery(old(self)@.pending, waited)),
            final(self)@ == old(self)@.waited(waited),
        no_unwind
    {
        self.events.finish_poll(waited)
    }
}

} // verus!
