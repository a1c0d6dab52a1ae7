//! The session registry.

use vstd::prelude::*;
use crate::clplayer::ClPlayer;
use crate::events::{
    delivery, outcome_of, poll_step, EventSlot, ManagerEvent, Outcome, PollStep, DEFAULT_POLL_TIMEOUT_MS,
};
use crate::lemmas::{
    lemma_first_in, lemma_first_in_none, lemma_net_change, lemma_place, lemma_resynced, lemma_with_session,
};
use crate::model::{
    admitted, arbitrate, deny_ids, denied, discovered, first_in, id_of, ids, keys, reports, retained, tracks,
    FacadeState, RegistryState, SessionState, StatusReport,
};
use crate::session::{session_views, Session};
use crate::status::PlaybackStatus;

verus! {

/// The registry of sessions: the tracked sessions under their identifiers, the
/// system session, the active session that the last arbitration chose, and
/// the slot for registry-level notifications.
pub struct ClPlayerManager {
    sessions: Vec<Session>,
    system: Option<Session>,
    active: Option<String>,
    events: EventSlot<ManagerEvent>,
    timeout_ms: u64,
}

impl View for ClPlayerManager {
    type V = RegistryState;

    closed spec fn view(&self) -> RegistryState {
        RegistryState {
            sessions: session_views(self.sessions@),
            system: match self.system {
                Some(session) => Some(session@),
                None => None,
            },
            active: id_of(self.active),
            pending: self.events@,
            timeout_ms: self.timeout_ms,
        }
    }
}

/// One entry of a status snapshot: a session's identifier and the status code
/// that its playback source reported.
#[derive(Debug, PartialEq, Eq)]
pub struct SessionStatus {
    pub aumid: String,
    pub code: i32,
}

impl View for SessionStatus {
    type V = StatusReport;

    open spec fn view(&self) -> StatusReport {
        StatusReport { aumid: self.aumid@, code: self.code as int }
    }
}

/// The entries of a status snapshot, in order.
pub open spec fn report_views(snapshot: Seq<SessionStatus>) -> Seq<StatusReport> {
    Seq::new(snapshot.len(), |k: int| snapshot[k]@)
}

/// Whether `list` holds `id`.
pub fn contains_id(list: &Vec<String>, id: &String) -> (found: bool)
    ensures
        found == ids(list@).contains(id@),
{
    let mut i: usize = 0;
    while i < list.len()
        invariant
            i <= list.len(),
            forall|k: int| 0 <= k < i ==> ids(list@)[k] != id@,
        decreases list.len() - i,
    {
        if list[i] == *id {
            assert(ids(list@)[i as int] == id@);
            return true;
        }
        i += 1;
    }
    false
}

/// Whether the denylist excludes `id`.
pub fn is_denied(id: &String, denylist: &Option<Vec<String>>) -> (excluded: bool)
    ensures
        excluded == denied(id@, deny_ids(*denylist)),
{
    match denylist {
        Some(list) => contains_id(list, id),
        None => false,
    }
}

/// Where the session with this identifier stands among `sessions`.
pub fn find_session(sessions: &Vec<Session>, id: &String) -> (found: Option<usize>)
    ensures
        match found {
            Some(i) => i < sessions.len() && sessions[i as int]@.aumid == id@,
            None => !tracks(session_views(sessions@), id@),
        },
{
    let mut i: usize = 0;
    while i < sessions.len()
        invariant
            i <= sessions.len(),
            forall|k: int| 0 <= k < i ==> (#[trigger] session_views(sessions@)[k]).aumid != id@,
        decreases sessions.len() - i,
    {
        if *sessions[i].aumid() == *id {
            return Some(i);
        }
        i += 1;
    }
    None
}

/// Copies the sessions that a refresh retains.
fn retain_sessions(
    sessions: &Vec<Session>,
    live: &Vec<String>,
    denylist: &Option<Vec<String>>,
) -> (kept: Vec<Session>)
    ensures
        session_views(kept@) == retained(session_views(sessions@), ids(live@), deny_ids(*denylist)),
{
    let mut kept: Vec<Session> = Vec::new();
    let mut i: usize = 0;
    assert(session_views(sessions@).take(0) =~= Seq::empty());
    assert(session_views(kept@) =~= Seq::empty());
    while i < sessions.len()
        invariant
            i <= sessions.len(),
            session_views(kept@) == retained(
                session_views(sessions@).take(i as int),
                ids(live@),
                deny_ids(*denylist),
            ),
        decreases sessions.len() - i,
    {
        let session = &sessions[i];
        let ghost before = session_views(kept@);
        let ghost upto = session_views(sessions@).take(i as int + 1);
        assert(upto.drop_last() =~= session_views(sessions@).take(i as int));
        assert(upto.last() == session@);
        if contains_id(live, session.aumid()) && !is_denied(session.aumid(), denylist) {
            kept.push(session.duplicate());
            assert(session_views(kept@) =~= before.push(session@));
        }
        i += 1;
    }
    assert(session_views(sessions@).take(i as int) =~= session_views(sessions@));
    kept
}

/// Appends a fresh session for each live identifier that is neither denied
/// nor among the sessions yet.
fn discover_sessions(
    kept: Vec<Session>,
    live: &Vec<String>,
    denylist: &Option<Vec<String>>,
) -> (all: Vec<Session>)
    ensures
        session_views(all@) == discovered(session_views(kept@), ids(live@), deny_ids(*denylist)),
{
    let ghost start = session_views(kept@);
    let mut all = kept;
    let mut j: usize = 0;
    assert(ids(live@).take(0) =~= Seq::empty());
    while j < live.len()
        invariant
            j <= live.len(),
            session_views(all@) == discovered(start, ids(live@).take(j as int), deny_ids(*denylist)),
        decreases live.len() - j,
    {
        let id = &live[j];
        let ghost before = session_views(all@);
        let ghost upto = ids(live@).take(j as int + 1);
        assert(upto.drop_last() =~= ids(live@).take(j as int));
        assert(upto.last() == id@);
        if !is_denied(id, denylist) {
            match find_session(&all, id) {
                Some(at) => {
                    assert(before[at as int].aumid == id@);
                },
                None => {
                    all.push(Session::new(id.clone()));
                    assert(session_views(all@) =~= before.push(SessionState::fresh(id@)));
                },
            }
        }
        j += 1;
    }
    assert(ids(live@).take(j as int) =~= ids(live@));
    all
}

/// Whether the snapshot reports the session `id` in status `wanted`.
pub fn is_reported(snapshot: &Vec<SessionStatus>, id: &String, wanted: PlaybackStatus) -> (found: bool)
    ensures
        found == reports(report_views(snapshot@), id@, wanted),
{
    let mut k: usize = 0;
    while k < snapshot.len()
        invariant
            k <= snapshot.len(),
            forall|n: int|
                0 <= n < k ==> !((#[trigger] report_views(snapshot@)[n]).aumid == id@
                    && PlaybackStatus::spec_from_code(report_views(snapshot@)[n].code) == Some(wanted)),
        decreases snapshot.len() - k,
    {
        if snapshot[k].aumid == *id {
            match PlaybackStatus::from_code(snapshot[k].code) {
                Some(status) => {
                    if status == wanted {
                        assert(report_views(snapshot@)[k as int].aumid == id@);
                        return true;
                    }
                },
                None => {},
            }
        }
        k += 1;
    }
    false
}

/// The first place among `sessions` whose session the snapshot reports in
/// status `wanted`.
fn first_reported(
    sessions: &Vec<Session>,
    snapshot: &Vec<SessionStatus>,
    wanted: PlaybackStatus,
) -> (found: Option<usize>)
    ensures
        match found {
            Some(i) => i < sessions.len() && first_in(
                session_views(sessions@),
                report_views(snapshot@),
                wanted,
            ) == Some(session_views(sessions@)[i as int].aumid),
            None => first_in(session_views(sessions@), report_views(snapshot@), wanted) is None,
        },
{
    let mut i: usize = 0;
    while i < sessions.len()
        invariant
            i <= sessions.len(),
            forall|j: int|
                0 <= j < i ==> !reports(
                    report_views(snapshot@),
                    (#[trigger] session_views(sessions@)[j]).aumid,
                    wanted,
                ),
        decreases sessions.len() - i,
    {
        if is_reported(snapshot, sessions[i].aumid(), wanted) {
            proof {
                lemma_first_in(session_views(sessions@), report_views(snapshot@), wanted, i as int);
            }
            return Some(i);
        }
        i += 1;
    }
    proof {
        lemma_first_in_none(session_views(sessions@), report_views(snapshot@), wanted);
    }
    None
}

/// The place of the session that arbitration chooses: the first one playing,
/// or else the first one paused.
fn arbitrate_place(sessions: &Vec<Session>, snapshot: &Vec<SessionStatus>) -> (chosen: Option<usize>)
    ensures
        match chosen {
            Some(i) => i < sessions.len() && arbitrate(session_views(sessions@), report_views(snapshot@))
                == Some(session_views(sessions@)[i as int].aumid),
            None => arbitrate(session_views(sessions@), report_views(snapshot@)) is None,
        },
{
    match first_reported(sessions, snapshot, PlaybackStatus::Playing) {
        Some(i) => Some(i),
        None => first_reported(sessions, snapshot, PlaybackStatus::Paused),
    }
}

/// Whether two optional identifiers are the same.
pub fn same_id(a: &Option<String>, b: &Option<String>) -> (same: bool)
    ensures
        same == (id_of(*a) == id_of(*b)),
{
    match a {
        Some(x) => match b {
            Some(y) => *x == *y,
            None => false,
        },
        None => b.is_none(),
    }
}

impl ClPlayerManager {
    #[verifier::type_invariant]
    closed spec fn inv(self) -> bool {
        self@.wf()
    }

    /// A registry that tracks nothing yet, with the default poll timeout.
    pub fn new() -> (manager: ClPlayerManager)
        ensures
            manager@ == RegistryState::empty(DEFAULT_POLL_TIMEOUT_MS),
            manager@.wf(),
    {
        Self::with_timeout(DEFAULT_POLL_TIMEOUT_MS)
    }

    /// A registry that tracks nothing yet, whose polls wait for at most
    /// `timeout_ms` milliseconds.
    pub fn with_timeout(timeout_ms: u64) -> (manager: ClPlayerManager)
        ensures
            manager@ == RegistryState::empty(timeout_ms),
            manager@.wf(),
    {
        let manager = ClPlayerManager {
            sessions: Vec::new(),
            system: None,
            active: None,
            events: EventSlot::new(),
            timeout_ms,
        };
        assert(manager@.sessions =~= Seq::empty());
        manager
    }

    /// How long a poll waits for a notification, in milliseconds.
    pub fn poll_timeout(&self) -> (timeout_ms: u64)
        ensures
            timeout_ms == self@.timeout_ms,
    {
        self.timeout_ms
    }

    /// Sets how long a poll waits for a notification, in milliseconds.
    pub fn set_poll_timeout(&mut self, timeout_ms: u64)
        ensures
            final(self)@ == old(self)@.configured(timeout_ms),
            final(self)@.wf(),
    {
        proof {
            use_type_invariant(&*self);
        }
        self.timeout_ms = timeout_ms;
    }

    /// Brings the tracked sessions in line with `live`, the identifiers of the
    /// sessions that the platform lists now, leaving out every identifier in
    /// `denylist`.
    pub fn update_sessions(&mut self, live: Vec<String>, denylist: Option<Vec<String>>)
        ensures
            final(self)@ == old(self)@.update_sessions(ids(live@), deny_ids(denylist)),
            final(self)@.wf(),
            forall|id: Seq<char>| #[trigger]
                tracks(final(self)@.sessions, id) <==> admitted(id, ids(live@), deny_ids(denylist)),
    {
        proof {
            use_type_invariant(&*self);
            lemma_resynced(self@.sessions, ids(live@), deny_ids(denylist));
            lemma_net_change(self@.sessions, ids(live@), deny_ids(denylist));
        }
        let kept = retain_sessions(&self.sessions, &live, &denylist);
        let kept_len = kept.len();
        let next = discover_sessions(kept, &live, &denylist);
        let changed = kept_len != self.sessions.len() || next.len() != kept_len;
        let active = match &self.active {
            Some(id) => match find_session(&next, id) {
                Some(at) => {
                    assert(session_views(next@)[at as int].aumid == id@);
                    Some(id.clone())
                },
                None => None,
            },
            None => None,
        };
        self.active = None;
        self.sessions = next;
        self.active = active;
        if changed {
            self.events.notify(ManagerEvent::SessionsChanged);
        }
    }
    /// Reads the system session anew. `current` is the identifier of the
    /// session that the platform designates now, if it designates one.
    pub fn update_system_session(&mut self, current: Option<String>)
        ensures
            final(self)@ == old(self)@.update_system_session(id_of(current)),
            final(self)@.wf(),
    {
        proof {
            use_type_invariant(&*self);
        }
        let same = match &self.system {
            Some(session) => match &current {
                Some(id) => *session.aumid() == *id,
                None => false,
            },
            None => current.is_none(),
        };
        if !same {
            self.system = match current {
                Some(id) => Some(Session::new(id)),
                None => None,
            };
            self.events.notify(ManagerEvent::SystemSessionChanged);
        }
    }

    /// Arbitrates over a snapshot of the sessions' statuses: the first tracked
    /// session that is playing, or else the first that is paused, becomes the
    /// active session. Entries for sessions that are not tracked count for
    /// nothing, and a tracked session without an entry is passed over.
    pub fn figure_out_active_session(&mut self, snapshot: &Vec<SessionStatus>) -> (chosen: Option<String>)
        ensures
            id_of(chosen) == arbitrate(old(self)@.sessions, report_views(snapshot@)),
            final(self)@ == old(self)@.figure_out_active_session(report_views(snapshot@)),
            final(self)@.wf(),
    {
        proof {
            use_type_invariant(&*self);
        }
        let chosen = match arbitrate_place(&self.sessions, snapshot) {
            Some(i) => Some(self.sessions[i].aumid().clone()),
            None => None,
        };
        let same = same_id(&chosen, &self.active);
        self.active = chosen.clone();
        if !same {
            self.events.notify(ManagerEvent::ActiveSessionChanged);
        }
        chosen
    }

    /// The identifiers of the tracked sessions, in registry order.
    pub fn get_sessions_keys(&self) -> (list: Vec<String>)
        ensures
            ids(list@) == keys(self@.sessions),
            self@.wf(),
    {
        proof {
            use_type_invariant(self);
        }
        let mut list: Vec<String> = Vec::new();
        let mut i: usize = 0;
        while i < self.sessions.len()
            invariant
                i <= self.sessions.len(),
                list.len() == i,
                forall|k: int| 0 <= k < i ==> (#[trigger] list[k])@ == session_views(self.sessions@)[k].aumid,
            decreases self.sessions.len() - i,
        {
            list.push(self.sessions[i].aumid().clone());
            i += 1;
        }
        assert(ids(list@) =~= keys(self@.sessions));
        list
    }

    /// The facade of the tracked session with this identifier.
    pub fn get_session(&self, aumid: String) -> (player: Option<ClPlayer>)
        ensures
            player is Some <==> tracks(self@.sessions, aumid@),
            player matches Some(p) ==> p@ == (FacadeState { aumid: aumid@, system: false }),
    {
        match find_session(&self.sessions, &aumid) {
            Some(i) => {
                assert(session_views(self.sessions@)[i as int].aumid == aumid@);
                Some(ClPlayer::new(aumid))
            },
            None => None,
        }
    }

    /// The facade of the session that the last arbitration chose.
    pub fn get_active_session(&self) -> (player: Option<ClPlayer>)
        ensures
            match player {
                Some(p) => self@.active == Some(p@.aumid) && !p@.system && self@.resolve(p@) is Some,
                None => self@.active is None,
            },
    {
        proof {
            use_type_invariant(self);
        }
        match &self.active {
            Some(id) => Some(ClPlayer::new(id.clone())),
            None => None,
        }
    }

    /// The facade of the system session.
    pub fn get_system_session(&self) -> (player: Option<ClPlayer>)
        ensures
            match player {
                Some(p) => {
                    &&& p@.system
                    &&& self@.system matches Some(s)
                    &&& s.aumid == p@.aumid
                    &&& self@.resolve(p@) == Some(s)
                },
                None => self@.system is None,
            },
    {
        match &self.system {
            Some(session) => Some(ClPlayer::system(session.aumid().clone())),
            None => None,
        }
    }

    /// Records a registry-level notification. The latest one wins.
    pub fn notify(&mut self, event: ManagerEvent)
        ensures
            final(self)@ == old(self)@.notified(event),
            final(self)@.wf(),
    {
        proof {
            use_type_invariant(&*self);
        }
        self.events.notify(event);
    }

    /// Starts a poll for the next registry-level event: delivers the pending
    /// one at once, or asks for a wait of at most the poll timeout.
    pub fn poll_next_event(&mut self) -> (step: PollStep<ManagerEvent>)
        ensures
            step == poll_step(old(self)@.pending, old(self)@.timeout_ms),
            final(self)@ == old(self)@.drained(),
            final(self)@.wf(),
    {
        proof {
            use_type_invariant(&*self);
        }
        self.events.poll_next_event(self.timeout_ms)
    }

    /// Ends a poll that had to wait. `waited` is what the timed wait for the
    /// next notification returned: after a timeout nothing is taken from the
    /// slot.
    pub fn finish_poll(
        &mut self,
        waited: Result<(), tokio::time::error::Elapsed>,
    ) -> (outcome: Outcome<ManagerEvent>)
        ensures
            outcome == outcome_of(delivery(old(self)@.pending, waited)),
            final(self)@ == old(self)@.waited(waited),
            final(self)@.wf(),
    {
        proof {
            use_type_invariant(&*self);
        }
        self.events.finish_poll(waited)
    }
    /// A copy of the session that a facade names, if the registry still holds
    /// it.
    pub fn session(&self, player: &ClPlayer) -> (found: Option<Session>)
        ensures
            match found {
                Some(session) => self@.resolve(player@) == Some(session@),
                None => self@.resolve(player@) is None,
            },
            self@.wf(),
    {
        proof {
            use_type_invariant(self);
        }
        if player.is_system() {
            match &self.system {
                Some(session) => {
                    if *session.aumid() == *player.id() {
                        Some(session.duplicate())
                    } else {
                        None
                    }
                },
                None => None,
            }
        } else {
            match find_session(&self.sessions, player.id()) {
                Some(i) => {
                    proof {
                        lemma_place(self@.sessions, i as int);
                    }
                    Some(self.sessions[i].duplicate())
                },
                None => None,
            }
        }
    }

    /// Puts `session` in the place of the session that a facade names.
    pub(crate) fn store(&mut self, player: &ClPlayer, session: Session)
        requires
            old(self)@.resolve(player@) is Some,
            session@.aumid == player@.aumid,
        ensures
            final(self)@ == old(self)@.with_session(player@, session@),
            final(self)@.wf(),
    {
        proof {
            use_type_invariant(&*self);
            lemma_with_session(self@, player@, session@);
        }
        if player.is_system() {
            self.system = Some(session);
        } else {
            match find_session(&self.sessions, player.id()) {
                Some(i) => {
                    proof {
                        lemma_place(self@.sessions, i as int);
                        assert(session_views(self.sessions@.update(i as int, session)) =~= self@.sessions.update(
                            i as int,
                            session@,
                        ));
                    }
                    let mut active: Option<String> = None;
                    let mut sessions: Vec<Session> = Vec::new();
                    assert(session_views(sessions@) =~= Seq::empty());
                    std::mem::swap(&mut self.active, &mut active);
                    std::mem::swap(&mut self.sessions, &mut sessions);
                    sessions.set(i, session);
                    self.sessions = sessions;
                    self.active = active;
                },
                None => {},
            }
        }
    }
}

} // verus!
