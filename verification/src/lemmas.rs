//! Facts about the registry's transitions that its implementation and its
//! laws rest on.

use vstd::prelude::*;
use crate::model::{
    admitted, denied, discovered, distinct, first_in, is_first_in, net_change, place, reports, resynced,
    retained, tracks, FacadeState, RegistryState, SessionState, StatusReport,
};
use crate::status::PlaybackStatus;

verus! {

/// A session is among `s.push(x)` exactly if it is among `s` or is `x`.
pub proof fn lemma_tracks_push(s: Seq<SessionState>, x: SessionState)
    ensures
        forall|id: Seq<char>| #[trigger] tracks(s.push(x), id) <==> (tracks(s, id) || x.aumid == id),
{
    let t = s.push(x);
    assert forall|id: Seq<char>| #[trigger] tracks(t, id) <==> (tracks(s, id) || x.aumid == id) by {
        if tracks(s, id) {
            let i = choose|i: int| 0 <= i < s.len() && (#[trigger] s[i]).aumid == id;
            assert(t[i].aumid == id);
        }
        if x.aumid == id {
            assert(t[s.len() as int].aumid == id);
        }
        if tracks(t, id) {
            let i = choose|i: int| 0 <= i < t.len() && (#[trigger] t[i]).aumid == id;
            if i < s.len() {
                assert(s[i].aumid == id);
            }
        }
    }
}

/// Appending a session whose identifier is new keeps the identifiers distinct.
pub proof fn lemma_distinct_push(s: Seq<SessionState>, x: SessionState)
    requires
        distinct(s),
        !tracks(s, x.aumid),
    ensures
        distinct(s.push(x)),
{
    let t = s.push(x);
    assert forall|i: int, j: int| 0 <= i < j < t.len() implies (#[trigger] t[i]).aumid != (#[trigger] t[j]).aumid by {
        if j < s.len() {
            assert(s[i].aumid != s[j].aumid);
        } else {
            assert(s[i].aumid != x.aumid);
        }
    }
}

/// Among distinct sessions, a session stands where its identifier is found.
pub proof fn lemma_place(s: Seq<SessionState>, i: int)
    requires
        distinct(s),
        0 <= i < s.len(),
    ensures
        tracks(s, s[i].aumid),
        place(s, s[i].aumid) == i,
{
    let id = s[i].aumid;
    let p = place(s, id);
    assert(0 <= p < s.len() && s[p].aumid == id);
    if p < i {
        assert(s[p].aumid != s[i].aumid);
    } else if i < p {
        assert(s[i].aumid != s[p].aumid);
    }
}

/// What a refresh retains: exactly the tracked sessions that are admitted,
/// each as it was.
pub proof fn lemma_retained(sessions: Seq<SessionState>, live: Seq<Seq<char>>, denylist: Option<Seq<Seq<char>>>)
    ensures
        forall|id: Seq<char>| #[trigger]
            tracks(retained(sessions, live, denylist), id) <==> (tracks(sessions, id) && admitted(
                id,
                live,
                denylist,
            )),
        distinct(sessions) ==> distinct(retained(sessions, live, denylist)),
        retained(sessions, live, denylist).len() <= sessions.len(),
        forall|k: int|
            0 <= k < retained(sessions, live, denylist).len() ==> exists|i: int|
                0 <= i < sessions.len() && #[trigger] sessions[i] == #[trigger] retained(sessions, live, denylist)[k],
        retained(sessions, live, denylist).len() == sessions.len() ==> retained(sessions, live, denylist)
            == sessions,
        retained(sessions, live, denylist).len() < sessions.len() ==> exists|i: int|
            0 <= i < sessions.len() && !admitted((#[trigger] sessions[i]).aumid, live, denylist),
    decreases sessions.len(),
{
    let r = retained(sessions, live, denylist);
    if sessions.len() == 0 {
        assert forall|id: Seq<char>| #[trigger] tracks(r, id) <==> (tracks(sessions, id) && admitted(id, live, denylist)) by {
        }
        assert(r =~= sessions);
    } else {
        let init = sessions.drop_last();
        let last = sessions.last();
        let front = retained(init, live, denylist);
        lemma_retained(init, live, denylist);
        assert(sessions =~= init.push(last));
        lemma_tracks_push(init, last);
        lemma_tracks_push(front, last);
        assert forall|id: Seq<char>| #[trigger] tracks(r, id) <==> (tracks(sessions, id) && admitted(id, live, denylist)) by {
            assert(tracks(sessions, id) <==> (tracks(init, id) || last.aumid == id));
        }
        if distinct(sessions) {
            assert(distinct(init)) by {
                assert forall|i: int, j: int| 0 <= i < j < init.len() implies (#[trigger] init[i]).aumid != (
                #[trigger] init[j]).aumid by {
                    assert(sessions[i].aumid != sessions[j].aumid);
                }
            }
            if admitted(last.aumid, live, denylist) {
                assert(!tracks(init, last.aumid)) by {
                    if tracks(init, last.aumid) {
                        let i = choose|i: int| 0 <= i < init.len() && (#[trigger] init[i]).aumid == last.aumid;
                        assert(sessions[i].aumid != sessions[sessions.len() - 1].aumid);
                    }
                }
                lemma_distinct_push(front, last);
            }
        }
        assert forall|k: int| 0 <= k < r.len() implies exists|i: int|
            0 <= i < sessions.len() && #[trigger] sessions[i] == #[trigger] r[k] by {
            if k < front.len() {
                let i = choose|i: int| 0 <= i < init.len() && #[trigger] init[i] == #[trigger] front[k];
                assert(sessions[i] == r[k]);
            } else {
                assert(sessions[sessions.len() - 1] == r[k]);
            }
        }
        if r.len() == sessions.len() {
            assert(front.len() == init.len());
            assert(r =~= sessions);
        }
        if r.len() < sessions.len() {
            if admitted(last.aumid, live, denylist) {
                let i = choose|i: int| 0 <= i < init.len() && !admitted((#[trigger] init[i]).aumid, live, denylist);
                assert(!admitted(sessions[i].aumid, live, denylist));
            } else {
                assert(!admitted(sessions[sessions.len() - 1].aumid, live, denylist));
            }
        }
    }
}

/// What a refresh discovers: the sessions it started from stay in front, and
/// behind them stands one fresh session for each live identifier that is
/// neither denied nor among them.
pub proof fn lemma_discovered(sessions: Seq<SessionState>, live: Seq<Seq<char>>, denylist: Option<Seq<Seq<char>>>)
    ensures
        sessions.len() <= discovered(sessions, live, denylist).len(),
        discovered(sessions, live, denylist).subrange(0, sessions.len() as int) == sessions,
        forall|id: Seq<char>| #[trigger]
            tracks(discovered(sessions, live, denylist), id) <==> (tracks(sessions, id) || (live.contains(id)
                && !denied(id, denylist))),
        distinct(sessions) ==> distinct(discovered(sessions, live, denylist)),
        forall|k: int|
            sessions.len() <= k < discovered(sessions, live, denylist).len() ==> {
                &&& (#[trigger] discovered(sessions, live, denylist)[k]) == SessionState::fresh(
                    discovered(sessions, live, denylist)[k].aumid,
                )
                &&& !tracks(sessions, discovered(sessions, live, denylist)[k].aumid)
            },
    decreases live.len(),
{
    let d = discovered(sessions, live, denylist);
    if live.len() == 0 {
        assert(d.subrange(0, sessions.len() as int) =~= sessions);
    } else {
        let init = live.drop_last();
        let last = live.last();
        let front = discovered(sessions, init, denylist);
        lemma_discovered(sessions, init, denylist);
        assert(live =~= init.push(last));
        assert forall|id: Seq<char>| live.contains(id) <==> (init.contains(id) || last == id) by {
            if init.contains(id) {
                let i = choose|i: int| 0 <= i < init.len() && init[i] == id;
                assert(live[i] == id);
            }
            if last == id {
                assert(live[live.len() - 1] == id);
            }
        }
        lemma_tracks_push(front, SessionState::fresh(last));
        assert(front.subrange(0, sessions.len() as int) == sessions);
        assert(d.subrange(0, sessions.len() as int) =~= front.subrange(0, sessions.len() as int));
        if !(denied(last, denylist) || tracks(front, last)) {
            if distinct(sessions) {
                lemma_distinct_push(front, SessionState::fresh(last));
            }
        }
        assert forall|k: int| sessions.len() <= k < d.len() implies {
            &&& (#[trigger] d[k]) == SessionState::fresh(d[k].aumid)
            &&& !tracks(sessions, d[k].aumid)
        } by {
            if k < front.len() {
                assert(d[k] == front[k]);
            }
        }
    }
}

/// After a refresh, exactly the admitted identifiers are tracked, and no
/// identifier is tracked twice.
pub proof fn lemma_resynced(sessions: Seq<SessionState>, live: Seq<Seq<char>>, denylist: Option<Seq<Seq<char>>>)
    ensures
        forall|id: Seq<char>| #[trigger]
            tracks(resynced(sessions, live, denylist), id) <==> admitted(id, live, denylist),
        distinct(sessions) ==> distinct(resynced(sessions, live, denylist)),
{
    lemma_retained(sessions, live, denylist);
    lemma_discovered(retained(sessions, live, denylist), live, denylist);
}

/// A refresh changes which identifiers are tracked exactly if it drops a
/// session or adds one.
pub proof fn lemma_net_change(sessions: Seq<SessionState>, live: Seq<Seq<char>>, denylist: Option<Seq<Seq<char>>>)
    requires
        distinct(sessions),
    ensures
        net_change(sessions, resynced(sessions, live, denylist)) <==> (retained(sessions, live, denylist).len()
            != sessions.len() || resynced(sessions, live, denylist).len() != retained(
            sessions,
            live,
            denylist,
        ).len()),
{
    let r = retained(sessions, live, denylist);
    let d = resynced(sessions, live, denylist);
    lemma_retained(sessions, live, denylist);
    lemma_discovered(r, live, denylist);
    lemma_resynced(sessions, live, denylist);
    if r.len() != sessions.len() {
        let i = choose|i: int| 0 <= i < sessions.len() && !admitted((#[trigger] sessions[i]).aumid, live, denylist);
        let id = sessions[i].aumid;
        assert(tracks(sessions, id));
        assert(!tracks(d, id));
        assert(tracks(sessions, id) != tracks(d, id));
    } else if d.len() != r.len() {
        let k = r.len() as int;
        let id = d[k].aumid;
        assert(tracks(d, id));
        assert(!tracks(r, id));
        assert(admitted(id, live, denylist));
        assert(!tracks(sessions, id));
        assert(tracks(sessions, id) != tracks(d, id));
    } else {
        assert(r == sessions);
        assert(d.subrange(0, r.len() as int) =~= d);
    }
}

/// Replacing a facade's session by one with the same identifier keeps the
/// registry well formed, makes the facade stand for the new session, and
/// leaves what every other facade stands for as it was.
pub proof fn lemma_with_session(state: RegistryState, facade: FacadeState, session: SessionState)
    requires
        state.wf(),
        state.resolve(facade) is Some,
        session.aumid == facade.aumid,
    ensures
        state.with_session(facade, session).wf(),
        state.with_session(facade, session).resolve(facade) == Some(session),
        forall|id: Seq<char>| #[trigger]
            tracks(state.with_session(facade, session).sessions, id) <==> tracks(state.sessions, id),
        forall|other: FacadeState|
            other != facade ==> #[trigger] state.with_session(facade, session).resolve(other) == state.resolve(
                other,
            ),
{
    let after = state.with_session(facade, session);
    if facade.system {
        assert forall|other: FacadeState| other != facade implies #[trigger] after.resolve(other) == state.resolve(
            other,
        ) by {
            if other.system {
                assert(other.aumid != facade.aumid);
            }
        }
    } else {
        let p = place(state.sessions, facade.aumid);
        assert(0 <= p < state.sessions.len() && state.sessions[p].aumid == facade.aumid);
        assert forall|id: Seq<char>| #[trigger] tracks(after.sessions, id) <==> tracks(state.sessions, id) by {
            if tracks(state.sessions, id) {
                let i = choose|i: int| 0 <= i < state.sessions.len() && (#[trigger] state.sessions[i]).aumid == id;
                assert(after.sessions[i].aumid == id);
            }
            if tracks(after.sessions, id) {
                let i = choose|i: int| 0 <= i < after.sessions.len() && (#[trigger] after.sessions[i]).aumid == id;
                assert(state.sessions[i].aumid == id);
            }
        }
        assert(distinct(after.sessions)) by {
            assert forall|i: int, j: int| 0 <= i < j < after.sessions.len() implies (#[trigger] after.sessions[i]).aumid
                != (#[trigger] after.sessions[j]).aumid by {
                assert(state.sessions[i].aumid != state.sessions[j].aumid);
            }
        }
        lemma_place(after.sessions, p);
        assert forall|other: FacadeState| other != facade implies #[trigger] after.resolve(other) == state.resolve(
            other,
        ) by {
            if !other.system && tracks(state.sessions, other.aumid) {
                let q = place(state.sessions, other.aumid);
                assert(0 <= q < state.sessions.len() && state.sessions[q].aumid == other.aumid);
                assert(q != p);
                assert(after.sessions[q] == state.sessions[q]);
                lemma_place(after.sessions, q);
            }
        }
    }
}

/// The first place that reports a status decides what `first_in` finds.
pub proof fn lemma_first_in(sessions: Seq<SessionState>, snapshot: Seq<StatusReport>, wanted: PlaybackStatus, i: int)
    requires
        is_first_in(sessions, snapshot, wanted, i),
    ensures
        first_in(sessions, snapshot, wanted) == Some(sessions[i].aumid),
{
    let c = choose|c: int| is_first_in(sessions, snapshot, wanted, c);
    assert(is_first_in(sessions, snapshot, wanted, c));
    if c < i {
        assert(!reports(snapshot, sessions[c].aumid, wanted));
    } else if i < c {
        assert(!reports(snapshot, sessions[i].aumid, wanted));
    }
}

/// Where no session is reported in a status, `first_in` finds none.
pub proof fn lemma_first_in_none(sessions: Seq<SessionState>, snapshot: Seq<StatusReport>, wanted: PlaybackStatus)
    requires
        forall|i: int| 0 <= i < sessions.len() ==> !reports(snapshot, (#[trigger] sessions[i]).aumid, wanted),
    ensures
        first_in(sessions, snapshot, wanted) is None,
{
    assert forall|i: int| !is_first_in(sessions, snapshot, wanted, i) by {
        if 0 <= i < sessions.len() {
            assert(!reports(snapshot, sessions[i].aumid, wanted));
        }
    }
}

/// A session that is reported in a status has a first such session at or
/// before it.
pub proof fn lemma_least(sessions: Seq<SessionState>, snapshot: Seq<StatusReport>, wanted: PlaybackStatus, i: int)
    requires
        0 <= i < sessions.len(),
        reports(snapshot, sessions[i].aumid, wanted),
    ensures
        exists|c: int| 0 <= c <= i && is_first_in(sessions, snapshot, wanted, c),
    decreases i,
{
    if exists|j: int| 0 <= j < i && reports(snapshot, (#[trigger] sessions[j]).aumid, wanted) {
        let j = choose|j: int| 0 <= j < i && reports(snapshot, (#[trigger] sessions[j]).aumid, wanted);
        lemma_least(sessions, snapshot, wanted, j);
        let c = choose|c: int| 0 <= c <= j && is_first_in(sessions, snapshot, wanted, c);
        assert(0 <= c <= i && is_first_in(sessions, snapshot, wanted, c));
    } else {
        assert(is_first_in(sessions, snapshot, wanted, i));
    }
}

/// What `first_in` finds is a tracked session that is reported in the wanted
/// status.
pub proof fn lemma_first_in_tracked(sessions: Seq<SessionState>, snapshot: Seq<StatusReport>, wanted: PlaybackStatus)
    ensures
        first_in(sessions, snapshot, wanted) matches Some(id) ==> tracks(sessions, id) && reports(
            snapshot,
            id,
            wanted,
        ),
{
    if exists|i: int| is_first_in(sessions, snapshot, wanted, i) {
        let c = choose|i: int| is_first_in(sessions, snapshot, wanted, i);
        assert(sessions[c].aumid == first_in(sessions, snapshot, wanted)->0);
    }
}

/// `first_in` looks at the identifiers only.
pub proof fn lemma_first_in_agrees(
    a: Seq<SessionState>,
    b: Seq<SessionState>,
    snapshot: Seq<StatusReport>,
    wanted: PlaybackStatus,
)
    requires
        a.len() == b.len(),
        forall|i: int| 0 <= i < a.len() ==> (#[trigger] a[i]).aumid == b[i].aumid,
    ensures
        first_in(a, snapshot, wanted) == first_in(b, snapshot, wanted),
{
    assert forall|i: int| is_first_in(a, snapshot, wanted, i) == is_first_in(b, snapshot, wanted, i) by {
        if is_first_in(a, snapshot, wanted, i) {
            assert(a[i].aumid == b[i].aumid);
            assert forall|j: int| 0 <= j < i implies !reports(snapshot, (#[trigger] b[j]).aumid, wanted) by {
                assert(a[j].aumid == b[j].aumid);
            }
        }
        if is_first_in(b, snapshot, wanted, i) {
            assert(a[i].aumid == b[i].aumid);
            assert forall|j: int| 0 <= j < i implies !reports(snapshot, (#[trigger] a[j]).aumid, wanted) by {
                assert(a[j].aumid == b[j].aumid);
            }
        }
    }
    if exists|i: int| is_first_in(a, snapshot, wanted, i) {
        let c = choose|i: int| is_first_in(a, snapshot, wanted, i);
        assert(is_first_in(b, snapshot, wanted, c));
        lemma_first_in(a, snapshot, wanted, c);
        lemma_first_in(b, snapshot, wanted, c);
        assert(a[c].aumid == b[c].aumid);
    } else {
        assert forall|i: int| !is_first_in(b, snapshot, wanted, i) by {
            assert(!is_first_in(a, snapshot, wanted, i));
        }
    }
}

/// The session that a facade stands for has the facade's identifier.
pub proof fn lemma_resolve(state: RegistryState, facade: FacadeState)
    ensures
        state.resolve(facade) matches Some(session) ==> session.aumid == facade.aumid,
{
    if !facade.system && tracks(state.sessions, facade.aumid) {
        let p = place(state.sessions, facade.aumid);
        assert(0 <= p < state.sessions.len() && state.sessions[p].aumid == facade.aumid);
    }
}

/// A refresh that finds every live identifier that is not denied among the
/// sessions adds nothing.
pub proof fn lemma_nothing_to_discover(
    sessions: Seq<SessionState>,
    live: Seq<Seq<char>>,
    denylist: Option<Seq<Seq<char>>>,
)
    requires
        forall|i: int| 0 <= i < live.len() ==> denied(#[trigger] live[i], denylist) || tracks(sessions, live[i]),
    ensures
        discovered(sessions, live, denylist) == sessions,
    decreases live.len(),
{
    if live.len() > 0 {
        let init = live.drop_last();
        assert forall|i: int| 0 <= i < init.len() implies denied(#[trigger] init[i], denylist) || tracks(
            sessions,
            init[i],
        ) by {
            assert(init[i] == live[i]);
        }
        lemma_nothing_to_discover(sessions, init, denylist);
        assert(denied(live[live.len() - 1], denylist) || tracks(sessions, live[live.len() - 1]));
    }
}

} // verus!
