//! What the daemon tells the clients of itself.

use crate::wire::{authenticate, Request};
use vstd::prelude::*;

verus! {

/// How long the daemon's runtime may take to wind down, in milliseconds.
pub const RUNTIME_SHUTDOWN_MILLIS: u64 = 25;

/// The record that the daemon publishes in its daemon file: where it
/// listens, and the token that a client has to present.
#[derive(Debug, PartialEq, Eq)]
pub struct DaemonConfig {
    pub pid: i32,
    pub port: u16,
    pub auth_token: String,
}

impl Clone for DaemonConfig {
    fn clone(&self) -> (copy: Self)
        ensures
            copy == *self,
    {
        DaemonConfig { pid: self.pid, port: self.port, auth_token: self.auth_token.clone() }
    }
}

impl DaemonConfig {
    /// The record of a daemon with this process identifier that listens on
    /// this port. The identifier is kept in 32 signed bits.
    pub fn new(pid: u32, port: u16, auth_token: String) -> (config: Self)
        ensures
            config.pid == pid as i32,
            config.port == port,
            config.auth_token == auth_token,
    {
        DaemonConfig { pid: #[verifier::truncate] (pid as i32), port, auth_token }
    }

    /// Whether the first frame of a connection admits the client to this
    /// daemon.
    pub fn admits(&self, first: &Request) -> (admitted: bool)
        ensures
            admitted == (first matches Request::Auth(offered) && offered@ == self.auth_token@),
    {
        authenticate(first, &self.auth_token)
    }
}

} // verus!
