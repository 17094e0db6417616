//! # Signalling server
//!
//! The decisions of the WebSocket signalling service: what a client's message
//! does to the rooms and to the connection's own state, and which events go
//! to whom. The service around it (the WebSocket, JSON, the per-connection
//! channels) performs the deliveries and hands back the next message.
//!
//! ## Connection life cycle
//! 1. A client connects; it is in no room yet.
//! 2. On `join` it is registered in the room; it gets `joined` (with the
//!    clients already there) and every other member gets `peer_joined`.
//! 3. `offer` / `answer` / `ice` are relayed to the client named in `to`.
//! 4. On an explicit `leave`, or when the connection ends, it is removed from
//!    the room and the others get `peer_left`; an empty room is removed.

use crate::proto::{ClientId, RoomId, ServerEvent, SignalMessage};
use crate::signal::room::{
    after_join, after_leave, delivery_to, finite_rooms, is_broadcast, lists_exactly, recipients,
    room_of, Delivery, RoomRegistry,
};
use vstd::prelude::*;

verus! {

/// The rooms as the contracts see them: room id -> (client id -> connection).
pub type RegistryView = Map<Seq<char>, Map<Seq<char>, u64>>;

/// State shared by every connection.
pub struct AppState {
    /// Room registry
    pub rooms: RoomRegistry,
}

impl AppState {
    /// A state with no rooms.
    pub fn new() -> (r: Self)
        ensures
            r.rooms@ == RegistryView::empty(),
            finite_rooms(r.rooms@),
    {
        AppState { rooms: RoomRegistry::new() }
    }
}

impl Default for AppState {
    fn default() -> (r: Self)
        ensures
            r.rooms@ == RegistryView::empty(),
    {
        Self::new()
    }
}

/// The signalling state of one connection: its handle, and once it has
/// joined, its client id and its room.
pub struct Session {
    /// Handle of the connection (how deliveries name it)
    pub conn: u64,
    /// Client id, once joined
    pub me: Option<ClientId>,
    /// Room id, once joined
    pub room_id: Option<RoomId>,
}

impl Session {
    /// A fresh connection, in no room.
    pub fn new(conn: u64) -> (r: Self)
        ensures
            r == (Session { conn, me: None, room_id: None }),
    {
        Session { conn, me: None, room_id: None }
    }
}

/// What handling one message asks of the connection.
pub struct Handled {
    /// Whether the connection is to be closed (explicit `leave`)
    pub close: bool,
    /// Events to deliver
    pub deliveries: Vec<Delivery>,
}

/// The connection has joined a room (it knows both its room and its id).
pub open spec fn is_joined(s: Session) -> bool {
    s.room_id is Some && s.me is Some
}

/// An optional delivery as a list.
pub open spec fn seq_of(d: Option<Delivery>) -> Seq<Delivery> {
    match d {
        Some(x) => seq![x],
        None => Seq::empty(),
    }
}

/// Outcome of `join { room: rid, client }` on connection state `s`.
pub open spec fn join_outcome(
    reg: RegistryView,
    s: Session,
    rid: RoomId,
    client: ClientId,
    reg2: RegistryView,
    s2: Session,
    r: Handled,
) -> bool {
    let p = room_of(reg, rid@);
    &&& !r.close
    &&& if s.room_id is Some {
        // already in a room: the join is ignored
        reg2 == reg && s2 == s && r.deliveries@.len() == 0
    } else {
        &&& reg2 == after_join(reg, rid@, client@, s.conn)
        &&& if p.contains_key(client@) {
            // id taken: refused, nothing is sent
            s2 == s && r.deliveries@.len() == 0
        } else {
            &&& s2 == (Session { conn: s.conn, me: Some(client), room_id: Some(rid) })
            &&& r.deliveries@.len() >= 1
            &&& r.deliveries@[0].to == client
            &&& r.deliveries@[0].conn == s.conn
            &&& r.deliveries@[0].event matches ServerEvent::Joined { you, clients } && you == client
                && lists_exactly(clients@, p.dom())
            &&& is_broadcast(
                r.deliveries@.drop_first(),
                p,
                client@,
                ServerEvent::PeerJoined { client },
            )
        }
    }
}

/// Outcome of leaving the room (explicitly or because the connection
/// ended) for connection state `s`: the room loses the client and the other
/// members are told.
pub open spec fn leave_outcome(
    reg: RegistryView,
    s: Session,
    reg2: RegistryView,
    ds: Seq<Delivery>,
) -> bool {
    if is_joined(s) {
        let rid = s.room_id->0;
        let me = s.me->0;
        &&& reg2 == after_leave(reg, rid@, me@)
        &&& is_broadcast(ds, room_of(reg, rid@).remove(me@), me@, ServerEvent::PeerLeft { client: me })
    } else {
        reg2 == reg && ds.len() == 0
    }
}

/// Outcome of relaying `evt` to `to` for connection state `s`: one delivery
/// when the connection has joined and `to` is a member of its room, none
/// otherwise.
pub open spec fn relay_outcome(
    reg: RegistryView,
    s: Session,
    to: ClientId,
    evt: ServerEvent,
    reg2: RegistryView,
    s2: Session,
    r: Handled,
) -> bool {
    &&& reg2 == reg
    &&& s2 == s
    &&& !r.close
    &&& r.deliveries@ == (if is_joined(s) && reg.contains_key(s.room_id->0@) {
        seq_of(delivery_to(reg[s.room_id->0@], to, evt))
    } else {
        Seq::empty()
    })
}

/// Is the outcome of handling `msg` on connection state `s` with rooms
/// `reg`: the new rooms `reg2`, the new connection state `s2` and the
/// answer `r`.
pub open spec fn message_outcome(
    msg: SignalMessage,
    reg: RegistryView,
    s: Session,
    reg2: RegistryView,
    s2: Session,
    r: Handled,
) -> bool {
    match msg {
        SignalMessage::Join { room, client } => join_outcome(reg, s, room, client, reg2, s2, r),
        SignalMessage::Leave => {
            &&& r.close
            &&& s2 == (Session { conn: s.conn, me: None, room_id: None })
            &&& leave_outcome(reg, s, reg2, r.deliveries@)
        },
        SignalMessage::Offer { to, sdp } => relay_outcome(
            reg,
            s,
            to,
            ServerEvent::Offer { from: s.me->0, sdp },
            reg2,
            s2,
            r,
        ),
        SignalMessage::Answer { to, sdp } => relay_outcome(
            reg,
            s,
            to,
            ServerEvent::Answer { from: s.me->0, sdp },
            reg2,
            s2,
            r,
        ),
        SignalMessage::Ice { to, candidate } => relay_outcome(
            reg,
            s,
            to,
            ServerEvent::Ice { from: s.me->0, candidate },
            reg2,
            s2,
            r,
        ),
    }
}

/// Broadcasting to every member but `skip` is the same whatever `skip`'s own
/// entry is.
proof fn lemma_broadcast_ignores_skip_entry(
    ds: Seq<Delivery>,
    peers: Map<Seq<char>, u64>,
    skip: Seq<char>,
    conn: u64,
    evt: ServerEvent,
)
    requires
        is_broadcast(ds, peers.insert(skip, conn), skip, evt),
    ensures
        is_broadcast(ds, peers, skip, evt),
{
    assert(peers.insert(skip, conn).dom().remove(skip) =~= peers.dom().remove(skip));
    assert forall|i: int| #![trigger ds[i]] 0 <= i < ds.len() implies ds[i].conn == peers[ds[i].to@]
        && ds[i].event.same(evt) by {
        assert(recipients(ds)[i] == ds[i].to@);
        assert(recipients(ds).to_set().contains(ds[i].to@));
    }
}

/// An optional delivery as a list.
fn opt_to_vec(d: Option<Delivery>) -> (r: Vec<Delivery>)
    ensures
        r@ == seq_of(d),
{
    let mut r: Vec<Delivery> = Vec::new();
    match d {
        Some(x) => {
            r.push(x);
        },
        None => {},
    }
    assert(r@ =~= seq_of(d));
    r
}

/// Removes the client of a connection from its room and tells the other
/// members (`peer_left`); an emptied room is removed.
fn leave_room(state: &mut AppState, rid: &RoomId, client: &ClientId) -> (r: Vec<Delivery>)
    ensures
        final(state).rooms@ == after_leave(old(state).rooms@, rid@, client@),
        finite_rooms(final(state).rooms@),
        is_broadcast(
            r@,
            room_of(old(state).rooms@, rid@).remove(client@),
            client@,
            ServerEvent::PeerLeft { client: *client },
        ),
{
    state.rooms.leave(rid, client)
}

/// When a connection ends: if it had joined a room, leaves it.
pub fn cleanup(state: &mut AppState, session: &Session) -> (r: Vec<Delivery>)
    ensures
        leave_outcome(old(state).rooms@, *session, final(state).rooms@, r@),
        finite_rooms(final(state).rooms@),
{
    proof {
        use_type_invariant(&state.rooms);
        RoomRegistry::lemma_finite_view(&state.rooms);
    }
    match (&session.room_id, &session.me) {
        (Some(rid), Some(me)) => leave_room(state, rid, me),
        _ => Vec::new(),
    }
}

/// Handles one message of a client; returns whether to close the
/// connection and the events to deliver.
pub fn handle_message(msg: SignalMessage, state: &mut AppState, session: &mut Session) -> (r: Handled)
    ensures
        message_outcome(
            msg,
            old(state).rooms@,
            *old(session),
            final(state).rooms@,
            *final(session),
            r,
        ),
        finite_rooms(final(state).rooms@),
{
    proof {
        use_type_invariant(&state.rooms);
        RoomRegistry::lemma_finite_view(&state.rooms);
    }
    match msg {
        SignalMessage::Join { room: rid, client } => {
            // a connection that already joined a room ignores further joins
            if session.room_id.is_some() {
                return Handled { close: false, deliveries: Vec::new() };
            }
            match state.rooms.join(&rid, &client, session.conn) {
                Ok(existing) => {
                    let ghost p = room_of(old(state).rooms@, rid@);
                    let joined = Delivery {
                        to: client.clone(),
                        conn: session.conn,
                        event: ServerEvent::Joined { you: client.clone(), clients: existing },
                    };
                    let mut others = state.rooms.broadcast_except(
                        &rid,
                        &client,
                        ServerEvent::PeerJoined { client: client.clone() },
                    );
                    proof {
                        assert(room_of(state.rooms@, rid@) == p.insert(client@, session.conn));
                        lemma_broadcast_ignores_skip_entry(
                            others@,
                            p,
                            client@,
                            session.conn,
                            ServerEvent::PeerJoined { client },
                        );
                    }
                    let ghost others_seq = others@;
                    let mut deliveries: Vec<Delivery> = Vec::new();
                    deliveries.push(joined);
                    deliveries.append(&mut others);
                    assert(deliveries@.drop_first() =~= others_seq);
                    session.me = Some(client);
                    session.room_id = Some(rid);
                    Handled { close: false, deliveries }
                },
                Err(_) => Handled { close: false, deliveries: Vec::new() },
            }
        },
        SignalMessage::Leave => {
            let deliveries = cleanup(state, session);
            session.me = None;
            session.room_id = None;
            Handled { close: true, deliveries }
        },
        SignalMessage::Offer { to, sdp } => {
            let deliveries = match (&session.room_id, &session.me) {
                (Some(rid), Some(me)) => opt_to_vec(
                    state.rooms.send_to(rid, &to, ServerEvent::Offer { from: me.clone(), sdp }),
                ),
                _ => Vec::new(),
            };
            Handled { close: false, deliveries }
        },
        SignalMessage::Answer { to, sdp } => {
            let deliveries = match (&session.room_id, &session.me) {
                (Some(rid), Some(me)) => opt_to_vec(
                    state.rooms.send_to(rid, &to, ServerEvent::Answer { from: me.clone(), sdp }),
                ),
                _ => Vec::new(),
            };
            Handled { close: false, deliveries }
        },
        SignalMessage::Ice { to, candidate } => {
            let deliveries = match (&session.room_id, &session.me) {
                (Some(rid), Some(me)) => opt_to_vec(
                    state.rooms.send_to(rid, &to, ServerEvent::Ice { from: me.clone(), candidate }),
                ),
                _ => Vec::new(),
            };
            Handled { close: false, deliveries }
        },
    }
}

} // verus!
