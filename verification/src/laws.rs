//! What holds of the registry, however it is used.

use vstd::prelude::*;
use crate::clplayer::answered;
use crate::command::{CallError, Command};
use crate::events::{after_wait, delivery, outcome_of, poll_step, ManagerEvent, Outcome, PollStep, SessionEvent};
use crate::lemmas::{
    lemma_discovered, lemma_first_in, lemma_first_in_agrees, lemma_first_in_none, lemma_first_in_tracked,
    lemma_least, lemma_nothing_to_discover, lemma_place, lemma_resolve, lemma_resynced, lemma_retained,
    lemma_with_session,
};
use crate::model::{
    admitted, arbitrate, denied, is_first_in, last_refresh, net_change, place, reports, resynced, retained,
    tracks, FacadeState, RegistryState, SessionState, StatusReport, Step,
};
use crate::status::PlaybackStatus;

verus! {

/// Arbitration depends on nothing but the order of the tracked sessions and
/// the snapshot: two registries that track the same identifiers in the same
/// order choose the same session, whatever else they hold.
pub proof fn law_arbitration_is_deterministic(a: RegistryState, b: RegistryState, snapshot: Seq<StatusReport>)
    requires
        a.sessions.len() == b.sessions.len(),
        forall|i: int| 0 <= i < a.sessions.len() ==> (#[trigger] a.sessions[i]).aumid == b.sessions[i].aumid,
    ensures
        arbitrate(a.sessions, snapshot) == arbitrate(b.sessions, snapshot),
        a.figure_out_active_session(snapshot).active == b.figure_out_active_session(snapshot).active,
{
    lemma_first_in_agrees(a.sessions, b.sessions, snapshot, PlaybackStatus::Playing);
    lemma_first_in_agrees(a.sessions, b.sessions, snapshot, PlaybackStatus::Paused);
}

/// The first session that is playing wins, wherever paused sessions stand.
pub proof fn law_first_playing_wins(sessions: Seq<SessionState>, snapshot: Seq<StatusReport>, i: int)
    requires
        0 <= i < sessions.len(),
        reports(snapshot, sessions[i].aumid, PlaybackStatus::Playing),
        forall|j: int| 0 <= j < i ==> !reports(snapshot, (#[trigger] sessions[j]).aumid, PlaybackStatus::Playing),
    ensures
        arbitrate(sessions, snapshot) == Some(sessions[i].aumid),
{
    lemma_first_in(sessions, snapshot, PlaybackStatus::Playing, i);
}

/// Where no session is playing, the first session that is paused wins.
pub proof fn law_first_paused_wins_without_playing(
    sessions: Seq<SessionState>,
    snapshot: Seq<StatusReport>,
    i: int,
)
    requires
        forall|j: int|
            0 <= j < sessions.len() ==> !reports(snapshot, (#[trigger] sessions[j]).aumid, PlaybackStatus::Playing),
        0 <= i < sessions.len(),
        reports(snapshot, sessions[i].aumid, PlaybackStatus::Paused),
        forall|j: int| 0 <= j < i ==> !reports(snapshot, (#[trigger] sessions[j]).aumid, PlaybackStatus::Paused),
    ensures
        arbitrate(sessions, snapshot) == Some(sessions[i].aumid),
{
    lemma_first_in_none(sessions, snapshot, PlaybackStatus::Playing);
    lemma_first_in(sessions, snapshot, PlaybackStatus::Paused, i);
}

/// Arbitration chooses no session exactly if no tracked session is playing
/// or paused; and a session that it chooses is tracked and is playing or
/// paused.
pub proof fn law_no_candidate_no_active(sessions: Seq<SessionState>, snapshot: Seq<StatusReport>)
    ensures
        arbitrate(sessions, snapshot) is None <==> (forall|i: int|
            0 <= i < sessions.len() ==> !reports(snapshot, (#[trigger] sessions[i]).aumid, PlaybackStatus::Playing)
                && !reports(snapshot, sessions[i].aumid, PlaybackStatus::Paused)),
        arbitrate(sessions, snapshot) matches Some(id) ==> tracks(sessions, id) && (reports(
            snapshot,
            id,
            PlaybackStatus::Playing,
        ) || reports(snapshot, id, PlaybackStatus::Paused)),
{
    lemma_first_in_tracked(sessions, snapshot, PlaybackStatus::Playing);
    lemma_first_in_tracked(sessions, snapshot, PlaybackStatus::Paused);
    if forall|i: int|
        0 <= i < sessions.len() ==> !reports(snapshot, (#[trigger] sessions[i]).aumid, PlaybackStatus::Playing)
            && !reports(snapshot, sessions[i].aumid, PlaybackStatus::Paused) {
        lemma_first_in_none(sessions, snapshot, PlaybackStatus::Playing);
        lemma_first_in_none(sessions, snapshot, PlaybackStatus::Paused);
    } else {
        let i = choose|i: int|
            0 <= i < sessions.len() && !(!reports(snapshot, (#[trigger] sessions[i]).aumid, PlaybackStatus::Playing)
                && !reports(snapshot, sessions[i].aumid, PlaybackStatus::Paused));
        if reports(snapshot, sessions[i].aumid, PlaybackStatus::Playing) {
            lemma_least(sessions, snapshot, PlaybackStatus::Playing, i);
            let c = choose|c: int| 0 <= c <= i && is_first_in(sessions, snapshot, PlaybackStatus::Playing, c);
            lemma_first_in(sessions, snapshot, PlaybackStatus::Playing, c);
        } else {
            lemma_least(sessions, snapshot, PlaybackStatus::Paused, i);
            let c = choose|c: int| 0 <= c <= i && is_first_in(sessions, snapshot, PlaybackStatus::Paused, c);
            lemma_first_in(sessions, snapshot, PlaybackStatus::Paused, c);
        }
    }
}

/// Every step keeps the registry well formed, and no step but a refresh of
/// the tracked sessions changes which identifiers are tracked.
pub proof fn law_step(state: RegistryState, step: Step)
    requires
        state.wf(),
    ensures
        state.step(step).wf(),
        step !is Refresh ==> forall|id: Seq<char>| #[trigger]
            tracks(state.step(step).sessions, id) <==> tracks(state.sessions, id),
        step matches Step::Refresh { live, denylist } ==> forall|id: Seq<char>| #[trigger]
            tracks(state.step(step).sessions, id) <==> admitted(id, live, denylist),
{
    match step {
        Step::Refresh { live, denylist } => {
            lemma_resynced(state.sessions, live, denylist);
        },
        Step::Arbitrate { snapshot } => {
            law_no_candidate_no_active(state.sessions, snapshot);
        },
        Step::SessionNotify { facade, event } => {
            if let Some(session) = state.resolve(facade) {
                lemma_resolve(state, facade);
                lemma_with_session(state, facade, session.notified(event));
            }
        },
        Step::SessionPoll { facade } => {
            if let Some(session) = state.resolve(facade) {
                lemma_resolve(state, facade);
                lemma_with_session(state, facade, session.drained());
            }
        },
        Step::SessionWake { facade, waited } => {
            if let Some(session) = state.resolve(facade) {
                lemma_resolve(state, facade);
                lemma_with_session(state, facade, session.waited(waited));
            }
        },
        Step::Complete { facade, command, accepted } => {
            if let Some(session) = state.resolve(facade) {
                lemma_resolve(state, facade);
                lemma_with_session(state, facade, session.committed(command, accepted));
            }
        },
        _ => {},
    }
}

/// Over any run of steps the registry stays well formed, and the identifiers
/// it tracks are exactly those that the most recent refresh admitted: the
/// live ones that its denylist did not exclude. Before the first refresh
/// they are those it started with.
pub proof fn law_run(state: RegistryState, steps: Seq<Step>)
    requires
        state.wf(),
    ensures
        state.run(steps).wf(),
        last_refresh(steps) matches Some(Step::Refresh { live, denylist }) ==> forall|id: Seq<char>| #[trigger]
            tracks(state.run(steps).sessions, id) <==> admitted(id, live, denylist),
        last_refresh(steps) is None ==> forall|id: Seq<char>| #[trigger]
            tracks(state.run(steps).sessions, id) <==> tracks(state.sessions, id),
    decreases steps.len(),
{
    if steps.len() > 0 {
        law_run(state, steps.drop_last());
        law_step(state.run(steps.drop_last()), steps.last());
    }
}

/// However the registry is used, it never tracks an identifier that the
/// denylist of the most recent refresh excludes.
pub proof fn law_denied_never_tracked(
    state: RegistryState,
    steps: Seq<Step>,
    live: Seq<Seq<char>>,
    denylist: Option<Seq<Seq<char>>>,
    id: Seq<char>,
)
    requires
        state.wf(),
        last_refresh(steps) == Some(Step::Refresh { live, denylist }),
        denied(id, denylist),
    ensures
        !tracks(state.run(steps).sessions, id),
{
    law_run(state, steps);
}

/// A refresh is idempotent: a second refresh against the same live sessions
/// under the same denylist changes nothing and notifies nothing.
pub proof fn law_refresh_is_idempotent(state: RegistryState, live: Seq<Seq<char>>, denylist: Option<Seq<Seq<char>>>)
    ensures
        state.update_sessions(live, denylist).update_sessions(live, denylist) == state.update_sessions(
            live,
            denylist,
        ),
{
    let once = state.update_sessions(live, denylist);
    let d = once.sessions;
    lemma_resynced(state.sessions, live, denylist);
    lemma_retained(d, live, denylist);
    assert(retained(d, live, denylist) == d) by {
        if retained(d, live, denylist).len() < d.len() {
            let i = choose|i: int| 0 <= i < d.len() && !admitted((#[trigger] d[i]).aumid, live, denylist);
            assert(tracks(d, d[i].aumid));
        }
    }
    assert forall|i: int| 0 <= i < live.len() implies denied(#[trigger] live[i], denylist) || tracks(d, live[i]) by {
        if !denied(live[i], denylist) {
            assert(admitted(live[i], live, denylist));
        }
    }
    lemma_nothing_to_discover(d, live, denylist);
    assert(resynced(d, live, denylist) == d);
    assert(!net_change(d, d));
}

/// A refresh leaves the sessions that it keeps as they were: a facade of a
/// tracked session that is still admitted stands for the same record, with
/// its settings of record and its pending event.
pub proof fn law_refresh_keeps_survivors(
    state: RegistryState,
    live: Seq<Seq<char>>,
    denylist: Option<Seq<Seq<char>>>,
    facade: FacadeState,
)
    requires
        state.wf(),
        state.resolve(facade) is Some,
        facade.system || admitted(facade.aumid, live, denylist),
    ensures
        state.update_sessions(live, denylist).resolve(facade) == state.resolve(facade),
{
    if !facade.system {
        let id = facade.aumid;
        let r = retained(state.sessions, live, denylist);
        let d = resynced(state.sessions, live, denylist);
        lemma_retained(state.sessions, live, denylist);
        lemma_discovered(r, live, denylist);
        lemma_resynced(state.sessions, live, denylist);
        assert(tracks(r, id));
        let k = place(r, id);
        assert(0 <= k < r.len() && r[k].aumid == id);
        let i = choose|i: int| 0 <= i < state.sessions.len() && #[trigger] state.sessions[i] == #[trigger] r[k];
        lemma_place(state.sessions, i);
        assert(d.subrange(0, r.len() as int)[k] == d[k]);
        lemma_place(d, k);
    }
}

/// Once a refresh has dropped a session, every call on a facade of it comes
/// to `CallError::Gone`, whatever its arguments, and changes nothing.
pub proof fn law_dropped_session_is_gone<T>(
    state: RegistryState,
    live: Seq<Seq<char>>,
    denylist: Option<Seq<Seq<char>>>,
    facade: FacadeState,
    command: Command,
    answer: Result<T, CallError>,
    change: spec_fn(SessionState) -> SessionState,
)
    requires
        state.wf(),
        !facade.system,
        !admitted(facade.aumid, live, denylist),
    ensures
        state.update_sessions(live, denylist).resolve(facade) is None,
        state.update_sessions(live, denylist).request(facade, command) == Err::<Command, CallError>(CallError::Gone),
        answered(state.update_sessions(live, denylist), facade, answer) == Err::<T, CallError>(CallError::Gone),
        state.update_sessions(live, denylist).on_session(facade, change) == state.update_sessions(live, denylist),
{
    lemma_resynced(state.sessions, live, denylist);
}

/// Once the platform designates another system session, or none, every call
/// on a facade of the former one comes to `CallError::Gone` and changes
/// nothing.
pub proof fn law_replaced_system_session_is_gone<T>(
    state: RegistryState,
    current: Option<Seq<char>>,
    facade: FacadeState,
    command: Command,
    answer: Result<T, CallError>,
    change: spec_fn(SessionState) -> SessionState,
)
    requires
        facade.system,
        current != Some(facade.aumid),
    ensures
        state.update_system_session(current).resolve(facade) is None,
        state.update_system_session(current).request(facade, command) == Err::<Command, CallError>(
            CallError::Gone,
        ),
        answered(state.update_system_session(current), facade, answer) == Err::<T, CallError>(CallError::Gone),
        state.update_system_session(current).on_session(facade, change) == state.update_system_session(current),
{
}

/// The settings of record follow the playback source's answers: after the
/// source accepted a shuffle or repeat setting, that value is read back; any
/// other answer leaves both settings as they were.
pub proof fn law_settings_of_record(state: RegistryState, facade: FacadeState, command: Command, accepted: bool)
    requires
        state.wf(),
        state.resolve(facade) is Some,
    ensures
        ({
            let before = state.resolve(facade)->0;
            let after = state.session_committed(facade, command, accepted).resolve(facade);
            &&& after is Some
            &&& after->0.shuffle == match command {
                Command::SetShuffle(value) if accepted => value,
                _ => before.shuffle,
            }
            &&& after->0.repeat == match command {
                Command::SetRepeat(mode) if accepted => mode,
                _ => before.repeat,
            }
            &&& after->0.pending == before.pending
        }),
{
    lemma_resolve(state, facade);
    lemma_with_session(state, facade, state.resolve(facade)->0.committed(command, accepted));
}

/// A call on one facade leaves the session of every other facade as it was.
pub proof fn law_sessions_are_independent(
    state: RegistryState,
    facade: FacadeState,
    other: FacadeState,
    change: spec_fn(SessionState) -> SessionState,
)
    requires
        state.wf(),
        other != facade,
        forall|s: SessionState| #[trigger] change(s).aumid == s.aumid,
    ensures
        state.on_session(facade, change).resolve(other) == state.resolve(other),
{
    if let Some(session) = state.resolve(facade) {
        lemma_resolve(state, facade);
        lemma_with_session(state, facade, change(session));
    }
}

/// A timeout is an outcome of its own and takes nothing from the slot: the
/// event that was pending, if any, is delivered by the next poll.
pub proof fn law_timeout_keeps_pending<E>(pending: Option<E>, elapsed: tokio::time::error::Elapsed)
    ensures
        outcome_of(delivery(pending, Err(elapsed))) == Outcome::<E>::TimedOut,
        after_wait(pending, Err(elapsed)) == pending,
{
}

/// Of two notifications that no poll came between, only the later one is
/// delivered, and it is delivered once: the poll after that has to wait, for
/// at most the configured timeout.
pub proof fn law_latest_notification_wins(state: RegistryState, first: ManagerEvent, second: ManagerEvent)
    ensures
        state.notified(first).notified(second) == state.notified(second),
        poll_step(state.notified(first).notified(second).pending, state.timeout_ms) == PollStep::Ready(
            Outcome::Event(second),
        ),
        poll_step(state.notified(second).drained().pending, state.timeout_ms) == (PollStep::<
            ManagerEvent,
        >::Wait { timeout_ms: state.timeout_ms }),
{
}

/// The same holds of the notifications for one session.
pub proof fn law_latest_session_notification_wins(session: SessionState, first: SessionEvent, second: SessionEvent)
    ensures
        session.notified(first).notified(second) == session.notified(second),
        session.notified(second).pending == Some(second),
        session.notified(second).drained().pending is None,
{
}

} // verus!
