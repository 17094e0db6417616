//! # Signalling protocol (v1)
//!
//! JSON signalling messages exchanged between clients and the vauid server.
//! The server only introduces peers to each other: it relays SDP and ICE,
//! and media flows directly between the clients.
//!
//! - Every message is UTF-8 JSON; the top-level field `type` tells the kind.
//! - A client must first `join` (and receive `joined`) before anything else.
//! - `offer` / `answer` / `ice` name their target client in `to`; the server
//!   relays them to that client only.

pub mod models;
pub mod rtc;

use vstd::prelude::*;

verus! {

/// Client id.
pub type ClientId = String;

/// Room id.
pub type RoomId = String;

/// SDP session description.
#[derive(Debug, PartialEq, Eq)]
pub struct SessionDescription {
    /// SDP type: offer / answer / pranswer
    pub sdp_type: String,
    /// SDP text
    pub sdp: String,
}

impl Clone for SessionDescription {
    fn clone(&self) -> (r: Self)
        ensures
            r == *self,
    {
        SessionDescription { sdp_type: self.sdp_type.clone(), sdp: self.sdp.clone() }
    }
}

/// A copy of an optional string, equal to it.
pub fn clone_opt_string(s: &Option<String>) -> (r: Option<String>)
    ensures
        r == *s,
{
    match s {
        Some(v) => Some(v.clone()),
        None => None,
    }
}

/// A copy of a list of client ids, equal to it.
pub fn clone_ids(v: &Vec<ClientId>) -> (r: Vec<ClientId>)
    ensures
        r@ == v@,
{
    let mut r: Vec<ClientId> = Vec::new();
    let mut i: usize = 0;
    while i < v.len()
        invariant
            i <= v.len(),
            r@ == v@.subrange(0, i as int),
        decreases v.len() - i,
    {
        r.push(v[i].clone());
        i = i + 1;
    }
    r
}

/// ICE candidate (the JSON subset of RTCIceCandidateInit).
#[derive(Debug, PartialEq, Eq)]
pub struct IceCandidate {
    /// Candidate line, such as "candidate:..."
    pub candidate: String,
    /// mid of the associated m-line
    pub sdp_mid: Option<String>,
    /// Index of the associated m-line
    pub sdp_mline_index: Option<u32>,
    /// ICE username fragment
    pub username_fragment: Option<String>,
}

impl Clone for IceCandidate {
    fn clone(&self) -> (r: Self)
        ensures
            r == *self,
    {
        IceCandidate {
            candidate: self.candidate.clone(),
            sdp_mid: clone_opt_string(&self.sdp_mid),
            sdp_mline_index: self.sdp_mline_index,
            username_fragment: clone_opt_string(&self.username_fragment),
        }
    }
}

/// Client -> server signalling message.
///
/// The SDP / ICE payloads of `offer` / `answer` / `ice` are nested objects, so
/// that a payload field (such as the SDP's `type`) never clashes with the
/// message's own `type` tag.
#[derive(Debug, PartialEq, Eq)]
pub enum SignalMessage {
    /// Join a room. The client names itself; the name must be unique in the
    /// room, a duplicate is refused.
    Join { room: RoomId, client: ClientId },
    /// Leave the current room
    Leave,
    /// Send an SDP offer to a client of the room
    Offer { to: ClientId, sdp: SessionDescription },
    /// Send an SDP answer to a client of the room
    Answer { to: ClientId, sdp: SessionDescription },
    /// Relay an ICE candidate to a client of the room
    Ice { to: ClientId, candidate: IceCandidate },
}

/// Server -> client signalling event.
#[derive(Debug, PartialEq, Eq)]
pub enum ServerEvent {
    /// Join accepted; lists the clients that were already in the room
    Joined { you: ClientId, clients: Vec<ClientId> },
    /// A new client joined the room
    PeerJoined { client: ClientId },
    /// A client left the room
    PeerLeft { client: ClientId },
    /// SDP offer from a client of the room
    Offer { from: ClientId, sdp: SessionDescription },
    /// SDP answer from a client of the room
    Answer { from: ClientId, sdp: SessionDescription },
    /// ICE candidate relayed from a client of the room
    Ice { from: ClientId, candidate: IceCandidate },
}

impl ServerEvent {
    /// Two events are the same event: same kind and same contents.
    pub open spec fn same(self, other: ServerEvent) -> bool {
        match (self, other) {
            (ServerEvent::Joined { you: a, clients: c }, ServerEvent::Joined { you: b, clients: d }) =>
                a == b && c@ == d@,
            _ => self == other,
        }
    }
}

impl Clone for ServerEvent {
    fn clone(&self) -> (r: Self)
        ensures
            r.same(*self),
    {
        match self {
            ServerEvent::Joined { you, clients } => ServerEvent::Joined {
                you: you.clone(),
                clients: clone_ids(clients),
            },
            ServerEvent::PeerJoined { client } => ServerEvent::PeerJoined { client: client.clone() },
            ServerEvent::PeerLeft { client } => ServerEvent::PeerLeft { client: client.clone() },
            ServerEvent::Offer { from, sdp } => ServerEvent::Offer { from: from.clone(), sdp: sdp.clone() },
            ServerEvent::Answer { from, sdp } => ServerEvent::Answer {
                from: from.clone(),
                sdp: sdp.clone(),
            },
            ServerEvent::Ice { from, candidate } => ServerEvent::Ice {
                from: from.clone(),
                candidate: candidate.clone(),
            },
        }
    }
}

} // verus!
