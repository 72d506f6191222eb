//! Client-side lobby-connection state: the single persistent control
//! channel between a client and the controller.
//!
//! The enclosing state guards at most one live connection. Handles to the
//! outside transport (the control stream and the UI channel) are carried as
//! plain ids; the surrounding tasks own the real sockets and perform the
//! sends this module decides on. A send without a connection observes
//! `ServerNotConnected`; a close emits one disconnect notice to the UI.

use vstd::prelude::*;

use crate::node::NodeRegistry;
use crate::node::PingUpdate;

verus! {

/// Why the lobby connection went away.
#[derive(Debug, Clone, Copy, PartialEq, Eq, Structural)]
pub enum DisconnectReason {
    Unknown,
}

/// The UI notice a closed connection emits.
#[derive(Debug, Clone)]
pub struct Disconnect {
    pub reason: DisconnectReason,
    pub message: String,
}

/// A message bound for the UI channel.
#[derive(Debug, Clone)]
pub enum OutgoingMessage {
    PingUpdate(PingUpdate),
    Disconnect(Disconnect),
}

/// One live lobby connection: the control-stream sender and the UI sender,
/// as handles owned by the surrounding tasks.
#[derive(Debug, Clone, Copy, PartialEq, Eq, Structural)]
pub struct LobbyConn {
    pub stream_id: u64,
    pub ws_sender_id: u64,
}

/// Failures of lobby sends.
#[derive(Debug, Clone, Copy, PartialEq, Eq, Structural)]
pub enum LobbyError {
    /// No lobby connection is currently established.
    ServerNotConnected,
}

/// The guarded lobby-connection state.
#[derive(Debug)]
pub struct LobbyState {
    pub domain: String,
    pub conn: Option<LobbyConn>,
}

impl LobbyState {
    /// A fresh state with no connection.
    pub fn new(domain: String) -> (r: LobbyState)
        ensures
            r.domain@ == domain@,
            r.conn is None,
    {
        LobbyState { domain, conn: None }
    }

    /// Installs a connection, replacing any previous one atomically.
    pub fn connect(&mut self, conn: LobbyConn)
        ensures
            final(self).conn == Some(conn),
            final(self).domain@ == old(self).domain@,
    {
        self.conn = Some(conn);
    }

    /// The cloneable outbound sender handle, when connected.
    pub fn get_sender_cloned(&self) -> (r: Option<u64>)
        ensures
            r == match self.conn {
                Some(c) => Some(c.stream_id),
                None => None::<u64>,
            },
    {
        match self.conn {
            Some(c) => Some(c.stream_id),
            None => None,
        }
    }

    /// Drops the connection. When one was present, returns the UI sender it
    /// owned and the disconnect notice owed to it: reason `Unknown` with a
    /// human-readable message.
    pub fn close(&mut self) -> (r: Option<(u64, Disconnect)>)
        ensures
            final(self).conn is None,
            final(self).domain@ == old(self).domain@,
            match old(self).conn {
                Some(c) => {
                    &&& r is Some
                    &&& (r->0).0 == c.ws_sender_id
                    &&& (r->0).1.reason == DisconnectReason::Unknown
                    &&& (r->0).1.message@ == "Server connection closed unexpectedly"@
                },
                None => r is None,
            },
    {
        let conn = self.conn.take();
        match conn {
            Some(c) => Some(
                (
                    c.ws_sender_id,
                    Disconnect {
                        reason: DisconnectReason::Unknown,
                        message: "Server connection closed unexpectedly".to_owned(),
                    },
                ),
            ),
            None => None,
        }
    }

    /// The ping worker's forwarding decision: a ping update reaches the UI
    /// exactly while a connection (and with it a UI sender) is present; a
    /// dropped update is non-fatal, the next one supersedes it.
    pub fn forward_ping(&self, update: PingUpdate) -> (r: Option<(u64, OutgoingMessage)>)
        ensures
            match self.conn {
                Some(c) => {
                    &&& r is Some
                    &&& (r->0).0 == c.ws_sender_id
                    &&& (r->0).1 == OutgoingMessage::PingUpdate(update)
                },
                None => r is None,
            },
    {
        match self.conn {
            Some(c) => Some((c.ws_sender_id, OutgoingMessage::PingUpdate(update))),
            None => None,
        }
    }
}

/// The client's network state: the lobby channel and the node registry.
#[derive(Debug)]
pub struct NetState {
    pub lobby: LobbyState,
    pub nodes: NodeRegistry,
}

impl NetState {
    /// A fresh network state: empty node registry, no lobby connection.
    pub fn init(lobby_domain: String) -> (r: NetState)
        ensures
            r.lobby.domain@ == lobby_domain@,
            r.lobby.conn is None,
            r.nodes.wf(),
            r.nodes.entries@.len() == 0,
    {
        NetState { lobby: LobbyState::new(lobby_domain), nodes: NodeRegistry::new() }
    }

    /// Installs a freshly established lobby connection.
    pub fn connect_lobby(&mut self, conn: LobbyConn)
        ensures
            final(self).lobby.conn == Some(conn),
            final(self).lobby.domain@ == old(self).lobby.domain@,
            final(self).nodes == old(self).nodes,
    {
        self.lobby.connect(conn);
    }

    /// The send decision of a lobby send: the cloned sender handle, or
    /// `ServerNotConnected` while no connection stands.
    pub fn lobby_sender(&self) -> (r: Result<u64, LobbyError>)
        ensures
            r == match self.lobby.conn {
                Some(c) => Ok::<u64, LobbyError>(c.stream_id),
                None => Err::<u64, LobbyError>(LobbyError::ServerNotConnected),
            },
    {
        match self.lobby.conn {
            Some(c) => Ok(c.stream_id),
            None => Err(LobbyError::ServerNotConnected),
        }
    }
}

} // verus!
