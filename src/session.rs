use vstd::prelude::*;

use crate::credentials::{CredentialsView, SharedCredentials};
use crate::field::{decode_field, field_text};

verus! {

/// Where a listener's single session stands.
#[derive(Clone, Copy, Debug, PartialEq, Eq, Structural)]
pub enum Phase {
    /// Nothing has been done yet; the shutdown flag is to be read.
    Created,
    /// The channel endpoint is being created.
    Listening,
    /// The endpoint exists and a client is awaited.
    Connected,
    /// A client has attached; the shutdown flag is read once more before any read.
    Accepted,
    /// The first message, the username, is being read.
    CapturingUsername,
    /// The second message, the password, is being read.
    CapturingPassword,
    /// The store is ready; the lifecycle flags are being published.
    Completed,
    /// The owner is being notified.
    Notifying,
    /// The session is over (normally or by shutdown); the endpoint is released if open.
    Terminated,
    /// The endpoint could not be created.
    CreateFailed,
    /// No client could attach; the endpoint is released.
    ConnectFailed,
}

/// What came of the last action, as the driver of the session reports it.
pub enum Event {
    /// The value of the `running` flag.
    Running(bool),
    /// Whether the endpoint was created.
    EndpointCreated(bool),
    /// Whether a client attached.
    ClientConnected(bool),
    /// The bytes of one message, or `None` where the read failed.
    FieldRead(Option<Vec<u8>>),
    /// The requested effect (unlock, notify, close) was carried out.
    Done,
}

/// What the driver of the session is to do next.
#[derive(Clone, Copy, Debug, PartialEq, Eq, Structural)]
pub enum Action {
    /// Read the `running` flag and report it with `Event::Running`.
    CheckRunning,
    /// Create the endpoint and report with `Event::EndpointCreated`.
    CreateEndpoint,
    /// Wait for a client and report with `Event::ClientConnected`.
    AwaitClient,
    /// Read one message and report it with `Event::FieldRead`.
    ReadField,
    /// Clear `running`, then set `is_unlocked`; report `Event::Done`.
    Unlock,
    /// Notify the owner once; a failure is ignored; report `Event::Done`.
    Notify,
    /// Release the endpoint; report `Event::Done`.
    CloseEndpoint,
    /// Stop: the session is over and expects nothing more.
    Exit,
}

/// A session as mathematical values.
pub struct SessionView {
    pub phase: Phase,
    /// The endpoint has been created and not yet released.
    pub endpoint_open: bool,
    /// How many clients have been accepted.
    pub connections: nat,
    /// How many times the owner has been notified.
    pub notifications: nat,
    /// The lifecycle flags have been published (`running` cleared, `is_unlocked` set).
    pub unlocked: bool,
}

/// A session that has done nothing yet.
pub open spec fn fresh_session() -> SessionView {
    SessionView {
        phase: Phase::Created,
        endpoint_open: false,
        connections: 0,
        notifications: 0,
        unlocked: false,
    }
}

/// The phases in which the session does nothing more than release its endpoint.
pub open spec fn is_final(phase: Phase) -> bool {
    phase == Phase::Terminated || phase == Phase::CreateFailed || phase == Phase::ConnectFailed
}

/// The action that a session asks for in state `s`.
pub open spec fn action_of(s: SessionView) -> Action {
    match s.phase {
        Phase::Created => Action::CheckRunning,
        Phase::Listening => Action::CreateEndpoint,
        Phase::Connected => Action::AwaitClient,
        Phase::Accepted => Action::CheckRunning,
        Phase::CapturingUsername => Action::ReadField,
        Phase::CapturingPassword => Action::ReadField,
        Phase::Completed => Action::Unlock,
        Phase::Notifying => Action::Notify,
        _ => if s.endpoint_open {
            Action::CloseEndpoint
        } else {
            Action::Exit
        },
    }
}

/// The session and the store after event `e` in state `s` with store `c`. An event
/// that does not answer the pending action changes nothing.
pub open spec fn next(s: SessionView, c: CredentialsView, e: Event) -> (SessionView, CredentialsView) {
    match (s.phase, e) {
        (Phase::Created, Event::Running(running)) => if running {
            (SessionView { phase: Phase::Listening, ..s }, c)
        } else {
            (SessionView { phase: Phase::Terminated, ..s }, c)
        },
        (Phase::Listening, Event::EndpointCreated(created)) => if created {
            (SessionView { phase: Phase::Connected, endpoint_open: true, ..s }, c)
        } else {
            (SessionView { phase: Phase::CreateFailed, ..s }, c)
        },
        (Phase::Connected, Event::ClientConnected(connected)) => if connected {
            (SessionView { phase: Phase::Accepted, connections: s.connections + 1, ..s }, c)
        } else {
            (SessionView { phase: Phase::ConnectFailed, ..s }, c)
        },
        (Phase::Accepted, Event::Running(running)) => if running {
            (SessionView { phase: Phase::CapturingUsername, ..s }, c)
        } else {
            (SessionView { phase: Phase::Terminated, ..s }, c)
        },
        (Phase::CapturingUsername, Event::FieldRead(read)) => (
            SessionView { phase: Phase::CapturingPassword, ..s },
            match read {
                Some(bytes) => CredentialsView { username: field_text(bytes@), ..c },
                None => c,
            },
        ),
        (Phase::CapturingPassword, Event::FieldRead(read)) => (
            SessionView { phase: Phase::Completed, ..s },
            match read {
                Some(bytes) => CredentialsView { password: field_text(bytes@), is_ready: true, ..c },
                None => CredentialsView { is_ready: true, ..c },
            },
        ),
        (Phase::Completed, Event::Done) => (
            SessionView { phase: Phase::Notifying, unlocked: true, ..s },
            c,
        ),
        (Phase::Notifying, Event::Done) => (
            SessionView { phase: Phase::Terminated, notifications: s.notifications + 1, ..s },
            c,
        ),
        (_, Event::Done) => if is_final(s.phase) && s.endpoint_open {
            (SessionView { endpoint_open: false, ..s }, c)
        } else {
            (s, c)
        },
        _ => (s, c),
    }
}

/// What holds of every state that a fresh session can reach.
pub open spec fn reachable(s: SessionView) -> bool {
    &&& s.connections <= 1
    &&& s.notifications <= 1
    &&& s.unlocked ==> s.connections == 1
    &&& s.notifications == 1 ==> s.unlocked
    &&& match s.phase {
        Phase::Created | Phase::Listening => !s.endpoint_open && s.connections == 0 && !s.unlocked,
        Phase::Connected => s.endpoint_open && s.connections == 0 && !s.unlocked,
        Phase::CreateFailed => !s.endpoint_open && s.connections == 0 && !s.unlocked,
        Phase::ConnectFailed => s.connections == 0 && !s.unlocked,
        Phase::Accepted | Phase::CapturingUsername | Phase::CapturingPassword | Phase::Completed =>
            s.endpoint_open && s.connections == 1 && !s.unlocked,
        Phase::Notifying => s.endpoint_open && s.connections == 1 && s.unlocked && s.notifications
            == 0,
        Phase::Terminated => true,
    }
}

/// A step keeps a session within the reachable states.
pub proof fn lemma_next_keeps_reachable(s: SessionView, c: CredentialsView, e: Event)
    requires
        reachable(s),
    ensures
        reachable(next(s, c, e).0),
{
}

/// The listener's one-shot session: from creating the endpoint to releasing it. Each
/// call of `step` takes the outcome of the pending action and returns the next one.
pub struct PipeSession {
    phase: Phase,
    endpoint_open: bool,
    connections: u64,
    notifications: u64,
    unlocked: bool,
}

impl View for PipeSession {
    type V = SessionView;

    closed spec fn view(&self) -> SessionView {
        SessionView {
            phase: self.phase,
            endpoint_open: self.endpoint_open,
            connections: self.connections as nat,
            notifications: self.notifications as nat,
            unlocked: self.unlocked,
        }
    }
}

impl PipeSession {
    #[verifier::type_invariant]
    spec fn inv(self) -> bool {
        reachable(self@)
    }

    /// A session that has done nothing yet.
    pub fn new() -> (r: PipeSession)
        ensures
            r@ == fresh_session(),
    {
        PipeSession {
            phase: Phase::Created,
            endpoint_open: false,
            connections: 0,
            notifications: 0,
            unlocked: false,
        }
    }

    /// The phase the session is in.
    pub fn phase(&self) -> (r: Phase)
        ensures
            r == self@.phase,
    {
        self.phase
    }

    /// Whether the endpoint is open.
    pub fn endpoint_open(&self) -> (r: bool)
        ensures
            r == self@.endpoint_open,
    {
        self.endpoint_open
    }

    /// How many clients the session has accepted.
    pub fn connections(&self) -> (r: u64)
        ensures
            r == self@.connections,
    {
        self.connections
    }

    /// How many times the session has notified its owner.
    pub fn notifications(&self) -> (r: u64)
        ensures
            r == self@.notifications,
    {
        self.notifications
    }

    /// The action that the session waits on.
    pub fn action(&self) -> (r: Action)
        ensures
            r == action_of(self@),
    {
        match self.phase {
            Phase::Created => Action::CheckRunning,
            Phase::Listening => Action::CreateEndpoint,
            Phase::Connected => Action::AwaitClient,
            Phase::Accepted => Action::CheckRunning,
            Phase::CapturingUsername => Action::ReadField,
            Phase::CapturingPassword => Action::ReadField,
            Phase::Completed => Action::Unlock,
            Phase::Notifying => Action::Notify,
            _ => if self.endpoint_open {
                Action::CloseEndpoint
            } else {
                Action::Exit
            },
        }
    }

    /// Takes the outcome of the pending action, writes what it captured into `store`
    /// and returns the next action. The caller holds the store's lock for the call.
    pub fn step(&mut self, store: &mut SharedCredentials, event: Event) -> (r: Action)
        ensures
            (final(self)@, final(store)@) == next(old(self)@, old(store)@, event),
            r == action_of(final(self)@),
    {
        proof {
            use_type_invariant(&*self);
            lemma_next_keeps_reachable(self@, store@, event);
        }
        let s = &*self;
        let updated: PipeSession = match (s.phase, event) {
            (Phase::Created, Event::Running(running)) => if running {
                PipeSession { phase: Phase::Listening, ..*s }
            } else {
                PipeSession { phase: Phase::Terminated, ..*s }
            },
            (Phase::Listening, Event::EndpointCreated(created)) => if created {
                PipeSession { phase: Phase::Connected, endpoint_open: true, ..*s }
            } else {
                PipeSession { phase: Phase::CreateFailed, ..*s }
            },
            (Phase::Connected, Event::ClientConnected(connected)) => if connected {
                PipeSession { phase: Phase::Accepted, connections: s.connections + 1, ..*s }
            } else {
                PipeSession { phase: Phase::ConnectFailed, ..*s }
            },
            (Phase::Accepted, Event::Running(running)) => if running {
                PipeSession { phase: Phase::CapturingUsername, ..*s }
            } else {
                PipeSession { phase: Phase::Terminated, ..*s }
            },
            (Phase::CapturingUsername, Event::FieldRead(read)) => {
                if let Some(bytes) = read {
                    store.set_username(decode_field(&bytes));
                }
                PipeSession { phase: Phase::CapturingPassword, ..*s }
            },
            (Phase::CapturingPassword, Event::FieldRead(read)) => {
                if let Some(bytes) = read {
                    store.set_password(decode_field(&bytes));
                }
                store.mark_ready();
                PipeSession { phase: Phase::Completed, ..*s }
            },
            (Phase::Completed, Event::Done) => PipeSession {
                phase: Phase::Notifying,
                unlocked: true,
                ..*s
            },
            (Phase::Notifying, Event::Done) => PipeSession {
                phase: Phase::Terminated,
                notifications: s.notifications + 1,
                ..*s
            },
            (_, Event::Done) => if (s.phase == Phase::Terminated || s.phase == Phase::CreateFailed
                || s.phase == Phase::ConnectFailed) && s.endpoint_open {
                PipeSession { endpoint_open: false, ..*s }
            } else {
                PipeSession { ..*s }
            },
            _ => PipeSession { ..*s },
        };
        *self = updated;
        self.action()
    }
}

} // verus!
