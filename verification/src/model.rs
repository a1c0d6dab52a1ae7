//! The registry as a mathematical state machine.
//!
//! The executable registry is described by a view into the states defined
//! here, and each of its operations by one of the transitions below. What
//! holds of every run of these transitions is proved in `laws`.

use vstd::prelude::*;
use crate::command::{CallError, Command};
use crate::events::{after_wait, ManagerEvent, SessionEvent};
use crate::status::{PlaybackStatus, RepeatMode};

verus! {

/// What the registry keeps about one session.
pub struct SessionState {
    /// The session's identifier.
    pub aumid: Seq<char>,
    /// The shuffle flag of record.
    pub shuffle: bool,
    /// The repeat mode of record.
    pub repeat: RepeatMode,
    /// The latest notification that no poll has delivered yet.
    pub pending: Option<SessionEvent>,
}

/// What a facade names: a tracked session by its identifier, or the system
/// session while it has that identifier.
pub struct FacadeState {
    pub aumid: Seq<char>,
    pub system: bool,
}

/// One entry of a status snapshot: a session and the status code that was
/// fetched for it.
pub struct StatusReport {
    pub aumid: Seq<char>,
    pub code: int,
}

/// The whole registry.
pub struct RegistryState {
    /// The tracked sessions, in registry order.
    pub sessions: Seq<SessionState>,
    /// The system session, kept apart from the tracked ones.
    pub system: Option<SessionState>,
    /// The identifier of the session that the last arbitration chose.
    pub active: Option<Seq<char>>,
    /// The latest registry-level notification that no poll has delivered yet.
    pub pending: Option<ManagerEvent>,
    /// How long a poll waits for a notification, in milliseconds.
    pub timeout_ms: u64,
}

impl SessionState {
    /// A session as it is when the registry first learns of it.
    pub open spec fn fresh(aumid: Seq<char>) -> SessionState {
        SessionState { aumid, shuffle: false, repeat: RepeatMode::Off, pending: None }
    }

    /// The session after its source answered a command: a shuffle or repeat
    /// setting that the source accepted becomes the value of record, and
    /// nothing else changes anything.
    pub open spec fn committed(self, command: Command, accepted: bool) -> SessionState {
        match command {
            Command::SetShuffle(value) if accepted => SessionState { shuffle: value, ..self },
            Command::SetRepeat(mode) if accepted => SessionState { repeat: mode, ..self },
            _ => self,
        }
    }

    /// The session after a notification: the latest one wins.
    pub open spec fn notified(self, event: SessionEvent) -> SessionState {
        SessionState { pending: Some(event), ..self }
    }

    /// The session after a poll took what was pending.
    pub open spec fn drained(self) -> SessionState {
        SessionState { pending: None, ..self }
    }

    /// The session after a poll's timed wait ended.
    pub open spec fn waited(self, waited: Result<(), tokio::time::error::Elapsed>) -> SessionState {
        SessionState { pending: after_wait(self.pending, waited), ..self }
    }
}

/// The identifiers that a list of strings holds, in order.
pub open spec fn ids(list: Seq<String>) -> Seq<Seq<char>> {
    Seq::new(list.len(), |i: int| list[i]@)
}

/// The identifier that an optional string holds.
pub open spec fn id_of(name: Option<String>) -> Option<Seq<char>> {
    match name {
        Some(name) => Some(name@),
        None => None,
    }
}

/// The identifiers that an optional denylist holds.
pub open spec fn deny_ids(denylist: Option<Vec<String>>) -> Option<Seq<Seq<char>>> {
    match denylist {
        Some(list) => Some(ids(list@)),
        None => None,
    }
}

/// Whether a session with this identifier is among `sessions`.
pub open spec fn tracks(sessions: Seq<SessionState>, id: Seq<char>) -> bool {
    exists|i: int| 0 <= i < sessions.len() && (#[trigger] sessions[i]).aumid == id
}

/// No identifier occurs twice among `sessions`.
pub open spec fn distinct(sessions: Seq<SessionState>) -> bool {
    forall|i: int, j: int|
        0 <= i < j < sessions.len() ==> (#[trigger] sessions[i]).aumid != (#[trigger] sessions[j]).aumid
}

/// Where the session with this identifier stands among `sessions`.
pub open spec fn place(sessions: Seq<SessionState>, id: Seq<char>) -> int {
    choose|i: int| 0 <= i < sessions.len() && (#[trigger] sessions[i]).aumid == id
}

/// The identifiers of `sessions`, in order.
pub open spec fn keys(sessions: Seq<SessionState>) -> Seq<Seq<char>> {
    Seq::new(sessions.len(), |i: int| sessions[i].aumid)
}

/// Whether the denylist excludes this identifier.
pub open spec fn denied(id: Seq<char>, denylist: Option<Seq<Seq<char>>>) -> bool {
    match denylist {
        Some(list) => list.contains(id),
        None => false,
    }
}

/// Whether a refresh keeps or adds this identifier: it is live and not denied.
pub open spec fn admitted(id: Seq<char>, live: Seq<Seq<char>>, denylist: Option<Seq<Seq<char>>>) -> bool {
    live.contains(id) && !denied(id, denylist)
}

/// The sessions that survive a refresh, unchanged and in their old order.
pub open spec fn retained(
    sessions: Seq<SessionState>,
    live: Seq<Seq<char>>,
    denylist: Option<Seq<Seq<char>>>,
) -> Seq<SessionState>
    decreases sessions.len(),
{
    if sessions.len() == 0 {
        Seq::empty()
    } else {
        let front = retained(sessions.drop_last(), live, denylist);
        if admitted(sessions.last().aumid, live, denylist) {
            front.push(sessions.last())
        } else {
            front
        }
    }
}

/// `sessions` followed by a fresh session for each identifier of `live` that
/// is neither denied nor tracked yet, in the order of first appearance.
pub open spec fn discovered(
    sessions: Seq<SessionState>,
    live: Seq<Seq<char>>,
    denylist: Option<Seq<Seq<char>>>,
) -> Seq<SessionState>
    decreases live.len(),
{
    if live.len() == 0 {
        sessions
    } else {
        let front = discovered(sessions, live.drop_last(), denylist);
        if denied(live.last(), denylist) || tracks(front, live.last()) {
            front
        } else {
            front.push(SessionState::fresh(live.last()))
        }
    }
}

/// The tracked sessions after a refresh against `live` under `denylist`.
pub open spec fn resynced(
    sessions: Seq<SessionState>,
    live: Seq<Seq<char>>,
    denylist: Option<Seq<Seq<char>>>,
) -> Seq<SessionState> {
    discovered(retained(sessions, live, denylist), live, denylist)
}

/// Whether two lists of sessions differ in the identifiers they hold.
pub open spec fn net_change(before: Seq<SessionState>, after: Seq<SessionState>) -> bool {
    exists|id: Seq<char>| tracks(before, id) != tracks(after, id)
}

/// Whether the snapshot holds an entry that reports this session in this
/// status.
pub open spec fn reports(snapshot: Seq<StatusReport>, id: Seq<char>, wanted: PlaybackStatus) -> bool {
    exists|k: int|
        0 <= k < snapshot.len() && (#[trigger] snapshot[k]).aumid == id && PlaybackStatus::spec_from_code(
            snapshot[k].code,
        ) == Some(wanted)
}

/// Whether `i` is the first place in `sessions` whose session the snapshot
/// reports in status `wanted`.
pub open spec fn is_first_in(
    sessions: Seq<SessionState>,
    snapshot: Seq<StatusReport>,
    wanted: PlaybackStatus,
    i: int,
) -> bool {
    &&& 0 <= i < sessions.len()
    &&& reports(snapshot, sessions[i].aumid, wanted)
    &&& forall|j: int| 0 <= j < i ==> !reports(snapshot, (#[trigger] sessions[j]).aumid, wanted)
}

/// The first session, in registry order, that the snapshot reports in status
/// `wanted`.
pub open spec fn first_in(
    sessions: Seq<SessionState>,
    snapshot: Seq<StatusReport>,
    wanted: PlaybackStatus,
) -> Option<Seq<char>> {
    if exists|i: int| is_first_in(sessions, snapshot, wanted, i) {
        Some(sessions[choose|i: int| is_first_in(sessions, snapshot, wanted, i)].aumid)
    } else {
        None
    }
}

/// The active session: the first one playing, or else the first one paused.
pub open spec fn arbitrate(sessions: Seq<SessionState>, snapshot: Seq<StatusReport>) -> Option<Seq<char>> {
    match first_in(sessions, snapshot, PlaybackStatus::Playing) {
        Some(id) => Some(id),
        None => first_in(sessions, snapshot, PlaybackStatus::Paused),
    }
}

impl RegistryState {
    /// No identifier is tracked twice, and the active session is tracked.
    pub open spec fn wf(self) -> bool {
        &&& distinct(self.sessions)
        &&& self.active matches Some(id) ==> tracks(self.sessions, id)
    }

    /// The registry before anything is known, with its poll timeout.
    pub open spec fn empty(timeout_ms: u64) -> RegistryState {
        RegistryState { sessions: Seq::empty(), system: None, active: None, pending: None, timeout_ms }
    }

    /// The registry with another poll timeout.
    pub open spec fn configured(self, timeout_ms: u64) -> RegistryState {
        RegistryState { timeout_ms, ..self }
    }

    /// The session that a facade stands for, if the registry still holds it.
    pub open spec fn resolve(self, facade: FacadeState) -> Option<SessionState> {
        if facade.system {
            match self.system {
                Some(session) if session.aumid == facade.aumid => Some(session),
                _ => None,
            }
        } else if tracks(self.sessions, facade.aumid) {
            Some(self.sessions[place(self.sessions, facade.aumid)])
        } else {
            None
        }
    }

    /// The registry with the facade's session replaced by `session`.
    pub open spec fn with_session(self, facade: FacadeState, session: SessionState) -> RegistryState {
        if facade.system {
            RegistryState { system: Some(session), ..self }
        } else {
            RegistryState {
                sessions: self.sessions.update(place(self.sessions, facade.aumid), session),
                ..self
            }
        }
    }

    /// What a transport command on a facade comes to: the command to forward
    /// to the session's playback source, or nothing once the session is gone.
    pub open spec fn request(self, facade: FacadeState, command: Command) -> Result<Command, CallError> {
        if self.resolve(facade) is Some {
            Ok(command)
        } else {
            Err(CallError::Gone)
        }
    }

    /// The registry after `change` was applied to the facade's session, and
    /// unchanged if that session is gone.
    pub open spec fn on_session(self, facade: FacadeState, change: spec_fn(SessionState) -> SessionState) -> RegistryState {
        match self.resolve(facade) {
            Some(session) => self.with_session(facade, change(session)),
            None => self,
        }
    }

    /// A notification for the facade's session.
    pub open spec fn session_notified(self, facade: FacadeState, event: SessionEvent) -> RegistryState {
        self.on_session(facade, |s: SessionState| s.notified(event))
    }

    /// The start of a poll on the facade's session, which takes what was
    /// pending.
    pub open spec fn session_drained(self, facade: FacadeState) -> RegistryState {
        self.on_session(facade, |s: SessionState| s.drained())
    }

    /// The end of a timed wait in a poll on the facade's session.
    pub open spec fn session_waited(
        self,
        facade: FacadeState,
        waited: Result<(), tokio::time::error::Elapsed>,
    ) -> RegistryState {
        self.on_session(facade, |s: SessionState| s.waited(waited))
    }

    /// The answer of the playback source of the facade's session to a
    /// command.
    pub open spec fn session_committed(self, facade: FacadeState, command: Command, accepted: bool) -> RegistryState {
        self.on_session(facade, |s: SessionState| s.committed(command, accepted))
    }

    /// A refresh of the tracked sessions: those that are no longer live, or that
    /// the denylist excludes, are dropped; the others stay as they are; new
    /// ones are added. The active session is forgotten if it was dropped, and
    /// a net change is notified.
    pub open spec fn update_sessions(self, live: Seq<Seq<char>>, denylist: Option<Seq<Seq<char>>>) -> RegistryState {
        let sessions = resynced(self.sessions, live, denylist);
        RegistryState {
            sessions,
            system: self.system,
            active: match self.active {
                Some(id) if tracks(sessions, id) => Some(id),
                _ => None,
            },
            pending: if net_change(self.sessions, sessions) {
                Some(ManagerEvent::SessionsChanged)
            } else {
                self.pending
            },
            timeout_ms: self.timeout_ms,
        }
    }

    /// Whether the system session is the one with this identifier.
    pub open spec fn system_is(self, current: Option<Seq<char>>) -> bool {
        match (self.system, current) {
            (Some(session), Some(id)) => session.aumid == id,
            (None, None) => true,
            _ => false,
        }
    }

    /// A refresh of the system session: if the platform designates another
    /// session than before, or none, that one takes its place, fresh, and the
    /// change is notified.
    pub open spec fn update_system_session(self, current: Option<Seq<char>>) -> RegistryState {
        if self.system_is(current) {
            self
        } else {
            RegistryState {
                system: match current {
                    Some(id) => Some(SessionState::fresh(id)),
                    None => None,
                },
                pending: Some(ManagerEvent::SystemSessionChanged),
                ..self
            }
        }
    }

    /// An arbitration over a status snapshot: its result becomes the active
    /// session, and a change of the active session is notified.
    pub open spec fn figure_out_active_session(self, snapshot: Seq<StatusReport>) -> RegistryState {
        let chosen = arbitrate(self.sessions, snapshot);
        RegistryState {
            active: chosen,
            pending: if chosen == self.active {
                self.pending
            } else {
                Some(ManagerEvent::ActiveSessionChanged)
            },
            ..self
        }
    }

    /// A registry-level notification: the latest one wins.
    pub open spec fn notified(self, event: ManagerEvent) -> RegistryState {
        RegistryState { pending: Some(event), ..self }
    }

    /// The registry after a poll took what was pending.
    pub open spec fn drained(self) -> RegistryState {
        RegistryState { pending: None, ..self }
    }

    /// The registry after a poll's timed wait ended.
    pub open spec fn waited(self, waited: Result<(), tokio::time::error::Elapsed>) -> RegistryState {
        RegistryState { pending: after_wait(self.pending, waited), ..self }
    }
}

/// One step of the registry: any of its operations, with what it was given.
pub enum Step {
    /// A refresh of the tracked sessions.
    Refresh { live: Seq<Seq<char>>, denylist: Option<Seq<Seq<char>>> },
    /// A refresh of the system session.
    RefreshSystem { current: Option<Seq<char>> },
    /// An arbitration over a status snapshot.
    Arbitrate { snapshot: Seq<StatusReport> },
    /// A registry-level notification.
    Notify { notice: ManagerEvent },
    /// A change of the poll timeout.
    Configure { timeout_ms: u64 },
    /// The start of a registry poll.
    Poll,
    /// The end of a registry poll that waited.
    Wake { waited: Result<(), tokio::time::error::Elapsed> },
    /// A notification for a session.
    SessionNotify { facade: FacadeState, event: SessionEvent },
    /// The start of a session poll.
    SessionPoll { facade: FacadeState },
    /// The end of a session poll that waited.
    SessionWake { facade: FacadeState, waited: Result<(), tokio::time::error::Elapsed> },
    /// The answer of a session's playback source to a command.
    Complete { facade: FacadeState, command: Command, accepted: bool },
}

impl RegistryState {
    /// The registry after one step.
    pub open spec fn step(self, step: Step) -> RegistryState {
        match step {
            Step::Refresh { live, denylist } => self.update_sessions(live, denylist),
            Step::RefreshSystem { current } => self.update_system_session(current),
            Step::Arbitrate { snapshot } => self.figure_out_active_session(snapshot),
            Step::Notify { notice } => self.notified(notice),
            Step::Configure { timeout_ms } => self.configured(timeout_ms),
            Step::Poll => self.drained(),
            Step::Wake { waited } => self.waited(waited),
            Step::SessionNotify { facade, event } => self.session_notified(facade, event),
            Step::SessionPoll { facade } => self.session_drained(facade),
            Step::SessionWake { facade, waited } => self.session_waited(facade, waited),
            Step::Complete { facade, command, accepted } => self.session_committed(facade, command, accepted),
        }
    }

    /// The registry after a run of steps.
    pub open spec fn run(self, steps: Seq<Step>) -> RegistryState
        decreases steps.len(),
    {
        if steps.len() == 0 {
            self
        } else {
            self.run(steps.drop_last()).step(steps.last())
        }
    }
}

/// The most recent refresh of the tracked sessions in a run of steps.
pub open spec fn last_refresh(steps: Seq<Step>) -> Option<Step>
    decreases steps.len(),
{
    if steps.len() == 0 {
        None
    } else if steps.last() is Refresh {
        Some(steps.last())
    } else {
        last_refresh(steps.drop_last())
    }
}

} // verus!
