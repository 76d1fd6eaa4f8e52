use vstd::prelude::*;

use crate::credentials::CredentialsView;
use crate::field::field_text;
use crate::session::{
    action_of, fresh_session, is_final, next, reachable, Action, Event, Phase, SessionView,
    lemma_next_keeps_reachable,
};

verus! {

/// The session and the store after the events `events`, in order, starting from
/// session `s` and store `c`.
pub open spec fn run(s: SessionView, c: CredentialsView, events: Seq<Event>) -> (SessionView, CredentialsView)
    decreases events.len(),
{
    if events.len() == 0 {
        (s, c)
    } else {
        let before = run(s, c, events.drop_last());
        next(before.0, before.1, events.last())
    }
}

/// The events of a session in which the endpoint is created, one client attaches, no
/// shutdown is requested, the two reads give `first` and `second`, and each effect is
/// carried out.
pub open spec fn session_events(first: Option<Vec<u8>>, second: Option<Vec<u8>>) -> Seq<Event> {
    seq![
        Event::Running(true),
        Event::EndpointCreated(true),
        Event::ClientConnected(true),
        Event::Running(true),
        Event::FieldRead(first),
        Event::FieldRead(second),
        Event::Done,
        Event::Done,
        Event::Done,
    ]
}

/// The state in which a session that ran to completion rests.
pub open spec fn finished_session() -> SessionView {
    SessionView {
        phase: Phase::Terminated,
        endpoint_open: false,
        connections: 1,
        notifications: 1,
        unlocked: true,
    }
}

broadcast proof fn lemma_drop_last_push(events: Seq<Event>, e: Event)
    ensures
        #[trigger] events.push(e).drop_last() == events,
{
    assert(events.push(e).drop_last() =~= events);
}

/// Every state that a fresh session reaches, whatever the events, is reachable: at
/// most one client, at most one notification, and the endpoint open exactly while
/// the session needs it.
pub proof fn lemma_run_reachable(c: CredentialsView, events: Seq<Event>)
    ensures
        reachable(run(fresh_session(), c, events).0),
    decreases events.len(),
{
    if events.len() > 0 {
        lemma_run_reachable(c, events.drop_last());
        let before = run(fresh_session(), c, events.drop_last());
        lemma_next_keeps_reachable(before.0, before.1, events.last());
    }
}

/// A session accepts at most one client, whatever events it is given.
pub proof fn lemma_single_connection(c: CredentialsView, events: Seq<Event>)
    ensures
        run(fresh_session(), c, events).0.connections <= 1,
{
    lemma_run_reachable(c, events);
}

/// Once a session is over and its endpoint released, no event changes it or the
/// store: a later client attaching has no effect, and the session asks only to exit.
pub proof fn lemma_finished_ignores_events(s: SessionView, c: CredentialsView, events: Seq<Event>)
    requires
        is_final(s.phase),
        !s.endpoint_open,
    ensures
        run(s, c, events) == (s, c),
        action_of(s) == Action::Exit,
    decreases events.len(),
{
    if events.len() > 0 {
        lemma_finished_ignores_events(s, c, events.drop_last());
    }
}

/// When a session asks to exit, it is in a final phase and its endpoint is released.
pub proof fn lemma_exit_releases_endpoint(s: SessionView)
    requires
        action_of(s) == Action::Exit,
    ensures
        is_final(s.phase),
        !s.endpoint_open,
{
}

/// If no client ever attaches, the lifecycle flags are never published and the owner
/// is never notified.
pub proof fn lemma_no_client_no_unlock(c: CredentialsView, events: Seq<Event>)
    requires
        forall|i: int| 0 <= i < events.len() ==> events[i] != Event::ClientConnected(true),
    ensures
        run(fresh_session(), c, events).0.connections == 0,
        !run(fresh_session(), c, events).0.unlocked,
        run(fresh_session(), c, events).0.notifications == 0,
    decreases events.len(),
{
    lemma_run_reachable(c, events);
    if events.len() > 0 {
        let rest = events.drop_last();
        assert forall|i: int| 0 <= i < rest.len() implies rest[i] != Event::ClientConnected(true) by {
            assert(rest[i] == events[i]);
        }
        lemma_no_client_no_unlock(c, rest);
    }
}

/// A session that runs normally stores the decoded username and password, marks the
/// store ready, publishes the lifecycle flags, notifies the owner exactly once and
/// releases its endpoint.
pub proof fn lemma_normal_session(c: CredentialsView, username: Vec<u8>, password: Vec<u8>)
    ensures
        run(fresh_session(), c, session_events(Some(username), Some(password))) == (
            finished_session(),
            CredentialsView {
                username: field_text(username@),
                password: field_text(password@),
                is_ready: true,
            },
        ),
{
    broadcast use lemma_drop_last_push;
    reveal_with_fuel(run, 10);
}

/// A failed username read leaves the stored username as it was, while the password
/// is stored, the store is marked ready and the session completes.
pub proof fn lemma_username_read_failure(c: CredentialsView, password: Vec<u8>)
    ensures
        run(fresh_session(), c, session_events(None, Some(password))) == (
            finished_session(),
            CredentialsView { username: c.username, password: field_text(password@), is_ready: true },
        ),
{
    broadcast use lemma_drop_last_push;
    reveal_with_fuel(run, 10);
}

} // verus!
