//! The facade of one session.
//!
//! A facade names a session; the registry owns it. Every operation looks the
//! session up in the registry first, so a facade whose session was dropped
//! answers `CallError::Gone` and touches nothing.

use vstd::prelude::*;
use crate::clplayermanager::ClPlayerManager;
use crate::command::{CallError, Command};
use crate::events::{delivery, outcome_of, poll_step, Outcome, PollStep, SessionEvent};
use crate::model::{FacadeState, RegistryState, SessionState};
use crate::status::{PlaybackStatus, RepeatMode};
use crate::timeline::{position_at, position_of, seek_share, share_target, ClPosition, Timeline};

verus! {

/// A snapshot of a session's status: the playback state that its source
/// reported, the shuffle and repeat settings of record, and the timeline.
#[derive(Clone, Copy, Debug, PartialEq, Eq)]
pub struct ClStatus {
    pub status: PlaybackStatus,
    pub shuffle: bool,
    pub repeat: RepeatMode,
    pub timeline: Option<Timeline>,
}

/// The snapshot for a session in state `session` whose source reported
/// `code` and `timeline`: refused if the code is not a canonical one.
pub open spec fn status_of(
    session: SessionState,
    code: int,
    timeline: Option<Timeline>,
) -> Result<ClStatus, CallError> {
    match PlaybackStatus::spec_from_code(code) {
        Some(status) => Ok(ClStatus { status, shuffle: session.shuffle, repeat: session.repeat, timeline }),
        None => Err(CallError::Rejected),
    }
}

/// The text of an answer that is a string.
pub open spec fn text_of(answer: Result<String, CallError>) -> Result<Seq<char>, CallError> {
    match answer {
        Ok(text) => Ok(text@),
        Err(error) => Err(error),
    }
}

/// The name of the playback state that a status code stands for: refused if
/// the code is not a canonical one.
pub open spec fn status_name(code: int) -> Result<Seq<char>, CallError> {
    match PlaybackStatus::spec_from_code(code) {
        Some(status) => Ok(status.spec_label()),
        None => Err(CallError::Rejected),
    }
}

/// The command that sets the repeat mode named `name`: refused if the name
/// is not that of a mode.
pub open spec fn repeat_command(name: Seq<char>) -> Result<Command, CallError> {
    match RepeatMode::spec_from_label(name) {
        Some(mode) => Ok(Command::SetRepeat(mode)),
        None => Err(CallError::Rejected),
    }
}

/// The command that seeks to a share of the timeline.
pub open spec fn share_command(millionths: u32, timeline: Option<Timeline>) -> Result<Command, CallError> {
    match share_target(millionths, timeline) {
        Ok(target) => Ok(Command::SetPosition(target)),
        Err(error) => Err(error),
    }
}

/// What a call on a facade comes to: nothing once the session is gone,
/// whatever the arguments, and `answer` otherwise.
pub open spec fn answered<T>(
    state: RegistryState,
    facade: FacadeState,
    answer: Result<T, CallError>,
) -> Result<T, CallError> {
    if state.resolve(facade) is Some {
        answer
    } else {
        Err(CallError::Gone)
    }
}

/// The facade of one session: a tracked session under its identifier, or the
/// system session.
#[derive(Debug)]
pub struct ClPlayer {
    aumid: String,
    system: bool,
}

impl View for ClPlayer {
    type V = FacadeState;

    closed spec fn view(&self) -> FacadeState {
        FacadeState { aumid: self.aumid@, system: self.system }
    }
}

impl ClPlayer {
    /// The facade of the tracked session with this identifier.
    pub fn new(aumid: String) -> (player: ClPlayer)
        ensures
            player@ == (FacadeState { aumid: aumid@, system: false }),
    {
        ClPlayer { aumid, system: false }
    }

    /// The facade of the system session, while it has this identifier.
    pub fn system(aumid: String) -> (player: ClPlayer)
        ensures
            player@ == (FacadeState { aumid: aumid@, system: true }),
    {
        ClPlayer { aumid, system: true }
    }

    /// The identifier of the session that this facade names.
    pub fn get_aumid(&self) -> (aumid: String)
        ensures
            aumid@ == self@.aumid,
    {
        self.aumid.clone()
    }

    /// The identifier of the session that this facade names, borrowed.
    pub fn id(&self) -> (aumid: &String)
        ensures
            aumid@ == self@.aumid,
    {
        &self.aumid
    }

    /// Whether this facade names the system session.
    pub fn is_system(&self) -> (system: bool)
        ensures
            system == self@.system,
    {
        self.system
    }
    /// Starts a poll for the session's next event: delivers the pending one at
    /// once, or asks for a wait of at most the registry's poll timeout.
    pub fn poll_next_event(&self, manager: &mut ClPlayerManager) -> (step: Result<PollStep<SessionEvent>, CallError>)
        ensures
            step == match old(manager)@.resolve(self@) {
                Some(session) => Ok::<PollStep<SessionEvent>, CallError>(
                    poll_step(session.pending, old(manager)@.timeout_ms),
                ),
                None => Err(CallError::Gone),
            },
            final(manager)@ == old(manager)@.session_drained(self@),
            final(manager)@.wf(),
    {
        match manager.session(self) {
            Some(session) => {
                let mut session = session;
                let step = session.poll_next_event(manager.poll_timeout());
                manager.store(self, session);
                Ok(step)
            },
            None => Err(CallError::Gone),
        }
    }

    /// Ends a poll that had to wait. `waited` is what the timed wait for the
    /// session's next notification returned: after a timeout nothing is taken
    /// from the slot.
    pub fn finish_poll(
        &self,
        manager: &mut ClPlayerManager,
        waited: Result<(), tokio::time::error::Elapsed>,
    ) -> (outcome: Result<Outcome<SessionEvent>, CallError>)
        ensures
            outcome == match old(manager)@.resolve(self@) {
                Some(session) => Ok::<Outcome<SessionEvent>, CallError>(
                    outcome_of(delivery(session.pending, waited)),
                ),
                None => Err(CallError::Gone),
            },
            final(manager)@ == old(manager)@.session_waited(self@, waited),
            final(manager)@.wf(),
    {
        match manager.session(self) {
            Some(session) => {
                let mut session = session;
                let outcome = session.finish_poll(waited);
                manager.store(self, session);
                Ok(outcome)
            },
            None => Err(CallError::Gone),
        }
    }

    /// Records a notification for the session. The latest one wins.
    pub fn notify(&self, manager: &mut ClPlayerManager, event: SessionEvent) -> (done: Result<(), CallError>)
        ensures
            done == answered(old(manager)@, self@, Ok(())),
            final(manager)@ == old(manager)@.session_notified(self@, event),
            final(manager)@.wf(),
    {
        match manager.session(self) {
            Some(session) => {
                let mut session = session;
                session.notify(event);
                manager.store(self, session);
                Ok(())
            },
            None => Err(CallError::Gone),
        }
    }

    /// Takes note of the answer of the session's playback source to a command
    /// that was forwarded to it: an accepted shuffle or repeat setting becomes
    /// the value of record. Returns the source's answer.
    pub fn complete(
        &self,
        manager: &mut ClPlayerManager,
        command: Command,
        accepted: bool,
    ) -> (done: Result<bool, CallError>)
        ensures
            done == answered(old(manager)@, self@, Ok(accepted)),
            final(manager)@ == old(manager)@.session_committed(self@, command, accepted),
            final(manager)@.wf(),
    {
        match manager.session(self) {
            Some(session) => {
                let mut session = session;
                session.commit(command, accepted);
                manager.store(self, session);
                Ok(accepted)
            },
            None => Err(CallError::Gone),
        }
    }

    /// The command to forward for a call on this facade, if its session is
    /// still there.
    fn request(&self, manager: &ClPlayerManager, command: Command) -> (request: Result<Command, CallError>)
        ensures
            request == manager@.request(self@, command),
    {
        match manager.session(self) {
            Some(_) => Ok(command),
            None => Err(CallError::Gone),
        }
    }

    /// A snapshot of the session's status. `code` and `timeline` are what the
    /// session's playback source reports now; nothing of them is kept.
    pub fn get_status(
        &self,
        manager: &ClPlayerManager,
        code: i32,
        timeline: Option<Timeline>,
    ) -> (status: Result<ClStatus, CallError>)
        ensures
            status == match manager@.resolve(self@) {
                Some(session) => status_of(session, code as int, timeline),
                None => Err(CallError::Gone),
            },
    {
        match manager.session(self) {
            Some(session) => match PlaybackStatus::from_code(code) {
                Some(status) => Ok(
                    ClStatus { status, shuffle: session.shuffle(), repeat: session.repeat(), timeline },
                ),
                None => Err(CallError::Rejected),
            },
            None => Err(CallError::Gone),
        }
    }

    /// The name of the playback state that the status code `code` stands for.
    pub fn get_playback_status(&self, manager: &ClPlayerManager, code: i32) -> (name: Result<String, CallError>)
        ensures
            text_of(name) == answered(manager@, self@, status_name(code as int)),
    {
        match manager.session(self) {
            Some(_) => match PlaybackStatus::from_code(code) {
                Some(status) => Ok(status.label()),
                None => Err(CallError::Rejected),
            },
            None => Err(CallError::Gone),
        }
    }

    /// The command that starts playback.
    pub fn play(&self, manager: &ClPlayerManager) -> (request: Result<Command, CallError>)
        ensures
            request == manager@.request(self@, Command::Play),
    {
        self.request(manager, Command::Play)
    }

    /// The command that pauses playback.
    pub fn pause(&self, manager: &ClPlayerManager) -> (request: Result<Command, CallError>)
        ensures
            request == manager@.request(self@, Command::Pause),
    {
        self.request(manager, Command::Pause)
    }

    /// The command that toggles between playing and paused.
    pub fn play_pause(&self, manager: &ClPlayerManager) -> (request: Result<Command, CallError>)
        ensures
            request == manager@.request(self@, Command::PlayPause),
    {
        self.request(manager, Command::PlayPause)
    }

    /// The command that stops playback.
    pub fn stop(&self, manager: &ClPlayerManager) -> (request: Result<Command, CallError>)
        ensures
            request == manager@.request(self@, Command::Stop),
    {
        self.request(manager, Command::Stop)
    }

    /// The command that skips to the next track.
    pub fn next(&self, manager: &ClPlayerManager) -> (request: Result<Command, CallError>)
        ensures
            request == manager@.request(self@, Command::Next),
    {
        self.request(manager, Command::Next)
    }

    /// The command that skips to the previous track.
    pub fn previous(&self, manager: &ClPlayerManager) -> (request: Result<Command, CallError>)
        ensures
            request == manager@.request(self@, Command::Previous),
    {
        self.request(manager, Command::Previous)
    }

    /// The command that sets the shuffle flag. The flag of record follows once
    /// the source's acceptance is passed to `complete`.
    pub fn set_shuffle(&self, manager: &ClPlayerManager, value: bool) -> (request: Result<Command, CallError>)
        ensures
            request == manager@.request(self@, Command::SetShuffle(value)),
    {
        self.request(manager, Command::SetShuffle(value))
    }

    /// The shuffle flag of record.
    pub fn get_shuffle(&self, manager: &ClPlayerManager) -> (shuffle: Result<bool, CallError>)
        ensures
            shuffle == match manager@.resolve(self@) {
                Some(session) => Ok::<bool, CallError>(session.shuffle),
                None => Err(CallError::Gone),
            },
    {
        match manager.session(self) {
            Some(session) => Ok(session.shuffle()),
            None => Err(CallError::Gone),
        }
    }

    /// The command that sets the repeat mode named `value`. The mode of record
    /// follows once the source's acceptance is passed to `complete`.
    pub fn set_repeat(&self, manager: &ClPlayerManager, value: String) -> (request: Result<Command, CallError>)
        ensures
            request == answered(manager@, self@, repeat_command(value@)),
    {
        match manager.session(self) {
            Some(_) => match RepeatMode::from_label(&value) {
                Some(mode) => Ok(Command::SetRepeat(mode)),
                None => Err(CallError::Rejected),
            },
            None => Err(CallError::Gone),
        }
    }

    /// The name of the repeat mode of record.
    pub fn get_repeat(&self, manager: &ClPlayerManager) -> (name: Result<String, CallError>)
        ensures
            text_of(name) == match manager@.resolve(self@) {
                Some(session) => Ok::<Seq<char>, CallError>(session.repeat.spec_label()),
                None => Err(CallError::Gone),
            },
    {
        match manager.session(self) {
            Some(session) => Ok(session.repeat().label()),
            None => Err(CallError::Gone),
        }
    }

    /// The command that moves the position by `offset` ticks.
    pub fn seek(&self, manager: &ClPlayerManager, offset: i64) -> (request: Result<Command, CallError>)
        ensures
            request == manager@.request(self@, Command::Seek(offset)),
    {
        self.request(manager, Command::Seek(offset))
    }

    /// The command that moves the position to `millionths` of the way into
    /// the timeline. Refused if that is more than the whole, or if the
    /// duration is not known.
    pub fn seek_percentage(
        &self,
        manager: &ClPlayerManager,
        millionths: u32,
        timeline: Option<Timeline>,
    ) -> (request: Result<Command, CallError>)
        ensures
            request == answered(manager@, self@, share_command(millionths, timeline)),
    {
        match manager.session(self) {
            Some(_) => match seek_share(millionths, timeline) {
                Ok(target) => Ok(Command::SetPosition(target)),
                Err(error) => Err(error),
            },
            None => Err(CallError::Gone),
        }
    }

    /// The command that moves the position to `position` ticks from the start.
    pub fn set_position(&self, manager: &ClPlayerManager, position: i64) -> (request: Result<Command, CallError>)
        ensures
            request == manager@.request(self@, Command::SetPosition(position)),
    {
        self.request(manager, Command::SetPosition(position))
    }

    /// The session's position: the last reported one, or, if
    /// `wants_current_position`, an estimate of where playback is now, `elapsed`
    /// ticks after the report. There is none without a timeline.
    pub fn get_position(
        &self,
        manager: &ClPlayerManager,
        wants_current_position: bool,
        timeline: Option<Timeline>,
        elapsed: u64,
    ) -> (position: Result<Option<ClPosition>, CallError>)
        ensures
            position == answered(manager@, self@, Ok(position_of(timeline, wants_current_position, elapsed))),
    {
        match manager.session(self) {
            Some(_) => Ok(position_at(timeline, wants_current_position, elapsed)),
            None => Err(CallError::Gone),
        }
    }
}

} // verus!
