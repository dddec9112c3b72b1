//! Immutable session state: credentials, homeserver address and the loaded
//! configuration, bundled once at startup and shared read-only by the
//! bootstrap sequence and every concurrently invoked event handler.

use vstd::prelude::*;
use std::sync::Arc;
use crate::config::Config;

verus! {

/// Shared handle on the session state. Cloning the handle shares the same
/// immutable [`Inner`]; nothing is ever mutated after construction.
#[derive(Clone)]
pub struct State {
    pub inner: Arc<Inner>,
}

/// The session data itself.
pub struct Inner {
    /// The matrix username.
    pub username: String,
    /// The matrix password.
    pub password: String,
    /// The user-specified configuration.
    pub config: Config,
    /// URL of the homeserver.
    pub homeserver_url: String,
}

impl State {
    /// Bundles the credentials and configuration into a fresh shared state.
    pub fn with_config(
        homeserver_url: String,
        username: String,
        password: String,
        config: Config,
    ) -> (s: State)
        ensures
            s.inner.homeserver_url == homeserver_url,
            s.inner.username == username,
            s.inner.password == password,
            s.inner.config == config,
    {
        let inner = Inner {
            username,
            password,
            config,
            homeserver_url,
        };

        State {
            inner: Arc::new(inner),
        }
    }

    pub fn init(&self) {
    }

    /// Returns the homeserver.
    pub fn homeserver(&self) -> (r: &str)
        ensures
            r@ == self.inner.homeserver_url@,
    {
        self.inner.homeserver_url.as_str()
    }

    /// Returns the username.
    pub fn username(&self) -> (r: &str)
        ensures
            r@ == self.inner.username@,
    {
        self.inner.username.as_str()
    }

    /// Returns the password.
    pub fn password(&self) -> (r: &str)
        ensures
            r@ == self.inner.password@,
    {
        self.inner.password.as_str()
    }

    /// Returns the id of the root space.
    pub fn root_room_id(&self) -> (r: &str)
        ensures
            r@ == self.inner.config.matrix.space.room_id@,
    {
        self.inner.config.matrix.space.room_id.as_str()
    }
}

} // verus!
