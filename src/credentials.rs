use vstd::prelude::*;

verus! {

/// What the store holds, as mathematical values.
pub struct CredentialsView {
    pub username: Seq<char>,
    pub password: Seq<char>,
    pub is_ready: bool,
}

/// The store as it stands before any session has written to it.
pub open spec fn empty_credentials() -> CredentialsView {
    CredentialsView { username: Seq::empty(), password: Seq::empty(), is_ready: false }
}

/// The captured credentials, shared between the listener's worker (the only writer)
/// and the component that owns the listener. Callers keep it behind one lock, so each
/// of the writes below is seen whole or not at all.
pub struct SharedCredentials {
    pub username: String,
    pub password: String,
    pub is_ready: bool,
}

impl View for SharedCredentials {
    type V = CredentialsView;

    open spec fn view(&self) -> CredentialsView {
        CredentialsView { username: self.username@, password: self.password@, is_ready: self.is_ready }
    }
}

impl SharedCredentials {
    /// An empty store: no username, no password, not ready.
    pub fn new() -> (r: SharedCredentials)
        ensures
            r@ == empty_credentials(),
    {
        SharedCredentials { username: String::new(), password: String::new(), is_ready: false }
    }

    /// Replaces the username; nothing else changes.
    pub fn set_username(&mut self, username: String)
        ensures
            final(self)@ == (CredentialsView { username: username@, ..old(self)@ }),
    {
        self.username = username;
    }

    /// Replaces the password; nothing else changes.
    pub fn set_password(&mut self, password: String)
        ensures
            final(self)@ == (CredentialsView { password: password@, ..old(self)@ }),
    {
        self.password = password;
    }

    /// Marks the credentials as final for this session.
    pub fn mark_ready(&mut self)
        ensures
            final(self)@ == (CredentialsView { is_ready: true, ..old(self)@ }),
    {
        self.is_ready = true;
    }
}

impl Default for SharedCredentials {
    fn default() -> (r: SharedCredentials)
        ensures
            r@ == empty_credentials(),
    {
        SharedCredentials::new()
    }
}

} // verus!
