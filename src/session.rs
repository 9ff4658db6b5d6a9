//! The session handle's lifecycle: credentials, connect, send and close.

use vstd::prelude::*;
use vstd::string::StringExecFns;
use crate::worker::{credentials_view, worker_start, Credentials, Worker, WorkerView};

verus! {

/// The project that the gateway identifies the command line's own sessions with.
pub const HOP_LEAP_EDGE_PROJECT_ID: &'static str = "project_MzA0MDgwOTQ2MDEwODQ5NzQ";

/// Why `connect` refused.
#[derive(Clone, Copy, Debug, PartialEq, Eq, Structural)]
pub enum ConnectError {
    /// The handle already has a live session.
    AlreadyConnected,
}

/// Why `send_message` refused.
#[derive(Clone, Copy, Debug, PartialEq, Eq, Structural)]
pub enum SendError {
    /// The handle has no live session.
    NotConnected,
}

/// The handle that callers hold: its credentials and whether a worker runs.
pub struct WebsocketClient {
    pub auth: Option<Credentials>,
    pub connected: bool,
}

pub struct ClientView {
    pub auth: Option<(Seq<char>, Seq<char>)>,
    pub connected: bool,
}

impl View for WebsocketClient {
    type V = ClientView;

    open spec fn view(&self) -> ClientView {
        ClientView { auth: credentials_view(self.auth), connected: self.connected }
    }
}

/// An unconnected handle without credentials.
pub open spec fn new_client() -> ClientView {
    ClientView { auth: None, connected: false }
}

/// What `close` leaves: the handle as new.
pub open spec fn close_spec(c: ClientView) -> ClientView {
    new_client()
}

/// What `connect` does: the handle after it, and the worker that it starts.
pub open spec fn connect_spec(c: ClientView) -> (ClientView, Result<WorkerView, ConnectError>) {
    if c.connected {
        (c, Err(ConnectError::AlreadyConnected))
    } else {
        (ClientView { connected: true, ..c }, Ok(worker_start(c.auth)))
    }
}

/// What `send_message` hands to the outbound queue, or why it refuses.
pub open spec fn send_spec(c: ClientView, message: Seq<char>) -> Result<Seq<char>, SendError> {
    if c.connected {
        Ok(message)
    } else {
        Err(SendError::NotConnected)
    }
}

pub open spec fn worker_result_view(r: Result<Worker, ConnectError>) -> Result<WorkerView, ConnectError> {
    match r {
        Ok(w) => Ok(w@),
        Err(e) => Err(e),
    }
}

pub open spec fn sent_view(r: Result<String, SendError>) -> Result<Seq<char>, SendError> {
    match r {
        Ok(m) => Ok(m@),
        Err(e) => Err(e),
    }
}

impl WebsocketClient {
    pub fn new() -> (r: WebsocketClient)
        ensures
            r@ == new_client(),
    {
        WebsocketClient { auth: None, connected: false }
    }

    /// Stores the credentials that the next session identifies with.
    pub fn set_credentials(&mut self, project_id: String, token: String)
        ensures
            final(self)@ == (ClientView { auth: Some((project_id@, token@)), ..old(self)@ }),
    {
        self.auth = Some(Credentials { project_id, token });
    }

    /// Stores a token for the command line's own project.
    pub fn update_token(&mut self, token: String)
        ensures
            final(self)@ == (ClientView { auth: Some((HOP_LEAP_EDGE_PROJECT_ID@, token@)), ..old(self)@ }),
    {
        self.set_credentials(String::from_str(HOP_LEAP_EDGE_PROJECT_ID), token);
    }

    /// Starts a session: returns the worker that performs its handshake, or
    /// `AlreadyConnected` while one runs.
    pub fn connect(&mut self) -> (r: Result<Worker, ConnectError>)
        ensures
            (final(self)@, worker_result_view(r)) == connect_spec(old(self)@),
    {
        if self.connected {
            return Err(ConnectError::AlreadyConnected);
        }
        self.connected = true;
        let auth = match &self.auth {
            Some(c) => Some(Credentials { project_id: c.project_id.clone(), token: c.token.clone() }),
            None => None,
        };
        Ok(Worker::new(auth))
    }

    /// The text to push onto the outbound queue, or `NotConnected`.
    pub fn send_message(&self, message: String) -> (r: Result<String, SendError>)
        ensures
            sent_view(r) == send_spec(self@, message@),
    {
        if self.connected {
            Ok(message)
        } else {
            Err(SendError::NotConnected)
        }
    }

    /// Ends the session, if any, and clears the credentials. Idempotent.
    pub fn close(&mut self)
        ensures
            final(self)@ == close_spec(old(self)@),
    {
        self.auth = None;
        self.connected = false;
    }
}

} // verus!
