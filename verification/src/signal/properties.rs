//! Properties of the signalling service that span several messages and
//! several connections.

use crate::proto::{ClientId, IceCandidate, RoomId, ServerEvent, SessionDescription, SignalMessage};
use crate::signal::room::{
    after_join, after_leave, delivery_to, ids_of, is_broadcast, lists_exactly, recipients, room_of,
    Delivery,
};
use crate::signal::server::{is_joined, leave_outcome, message_outcome, Handled, RegistryView, Session};
use vstd::prelude::*;

verus! {

/// A room that exists has members.
pub open spec fn rooms_occupied(reg: RegistryView) -> bool {
    forall|rid: Seq<char>|
        #[trigger] reg.contains_key(rid) ==> reg[rid].dom().finite() && !reg[rid].dom().is_empty()
}

/// A client that joins a room it was not in and then leaves it again leaves
/// the room's members as they were.
pub proof fn law_room_join_then_leave(peers: Map<Seq<char>, u64>, client: Seq<char>, conn: u64)
    requires
        !peers.contains_key(client),
    ensures
        peers.insert(client, conn).remove(client) == peers,
{
    assert(peers.insert(client, conn).remove(client) =~= peers);
}

/// A join under an id the room already holds changes no room.
pub proof fn law_refused_join_changes_nothing(
    reg: RegistryView,
    rid: Seq<char>,
    client: Seq<char>,
    conn: u64,
)
    requires
        room_of(reg, rid).contains_key(client),
    ensures
        after_join(reg, rid, client, conn) == reg,
{
}

/// If `client` is not in room `rid`, and that room is absent or has
/// members, then joining it and leaving it again gives the rooms back
/// unchanged.
pub proof fn lemma_join_then_leave(reg: RegistryView, rid: Seq<char>, client: Seq<char>, conn: u64)
    requires
        !room_of(reg, rid).contains_key(client),
        reg.contains_key(rid) ==> reg[rid].dom().finite() && !reg[rid].dom().is_empty(),
    ensures
        after_leave(after_join(reg, rid, client, conn), rid, client) == reg,
{
    let joined = after_join(reg, rid, client, conn);
    let p = room_of(reg, rid);
    assert(joined[rid].remove(client) =~= p);
    if reg.contains_key(rid) {
        let k = reg[rid].dom().choose();
        assert(reg[rid].dom().contains(k));
        assert(reg[rid].dom().len() > 0);
        assert(joined.insert(rid, p) =~= reg);
    } else {
        assert(p.len() == 0);
        assert(joined.remove(rid) =~= reg);
    }
}

/// After `client` leaves room `rid` of occupied rooms, every room is still
/// occupied.
proof fn lemma_leave_keeps_occupied(reg: RegistryView, rid: Seq<char>, client: Seq<char>)
    requires
        rooms_occupied(reg),
    ensures
        rooms_occupied(after_leave(reg, rid, client)),
{
    let reg2 = after_leave(reg, rid, client);
    assert forall|r: Seq<char>| #[trigger] reg2.contains_key(r) implies reg2[r].dom().finite()
        && !reg2[r].dom().is_empty() by {
        if r == rid && reg.contains_key(rid) && reg[rid].remove(client).len() != 0 {
            let p = reg[rid].remove(client);
            assert(p.dom().finite());
            if p.dom().is_empty() {
                assert(p.dom() =~= Set::<Seq<char>>::empty());
            }
        }
    }
}

/// No room is ever left without members: handling any message keeps every
/// room of the registry occupied.
pub proof fn law_message_keeps_rooms_occupied(
    msg: SignalMessage,
    reg: RegistryView,
    s: Session,
    reg2: RegistryView,
    s2: Session,
    r: Handled,
)
    requires
        rooms_occupied(reg),
        message_outcome(msg, reg, s, reg2, s2, r),
    ensures
        rooms_occupied(reg2),
{
    match msg {
        SignalMessage::Join { room, client } => {
            if s.room_id is None {
                assert forall|rid: Seq<char>| #[trigger] reg2.contains_key(rid) implies reg2[rid].dom().finite()
                    && !reg2[rid].dom().is_empty() by {
                    if rid == room@ {
                        assert(reg2[rid].dom().contains(client@));
                        if reg.contains_key(rid) {
                            assert(reg2[rid].dom() =~= reg[rid].dom().insert(client@));
                        } else {
                            assert(reg2[rid].dom() =~= set![client@]);
                        }
                    }
                }
            }
        },
        SignalMessage::Leave => {
            if is_joined(s) {
                lemma_leave_keeps_occupied(reg, s.room_id->0@, s.me->0@);
            }
        },
        _ => {},
    }
}

/// A connection that ends keeps every room of the registry occupied.
pub proof fn law_cleanup_keeps_rooms_occupied(
    reg: RegistryView,
    s: Session,
    reg2: RegistryView,
    ds: Seq<Delivery>,
)
    requires
        rooms_occupied(reg),
        leave_outcome(reg, s, reg2, ds),
    ensures
        rooms_occupied(reg2),
{
    if is_joined(s) {
        lemma_leave_keeps_occupied(reg, s.room_id->0@, s.me->0@);
    }
}

/// A connection that joins a room (a fresh id there) and then sends
/// `leave` gives the rooms back as they were, its state back to a fresh
/// connection's, closes, and tells `peer_left` to exactly the members that
/// were told `peer_joined`.
pub proof fn law_join_then_leave(
    reg: RegistryView,
    s: Session,
    rid: RoomId,
    client: ClientId,
    reg1: RegistryView,
    s1: Session,
    r1: Handled,
    reg2: RegistryView,
    s2: Session,
    r2: Handled,
)
    requires
        rooms_occupied(reg),
        s.room_id is None,
        !room_of(reg, rid@).contains_key(client@),
        message_outcome(SignalMessage::Join { room: rid, client }, reg, s, reg1, s1, r1),
        message_outcome(SignalMessage::Leave, reg1, s1, reg2, s2, r2),
    ensures
        reg2 == reg,
        s2 == (Session { conn: s.conn, me: None, room_id: None }),
        r2.close,
        is_broadcast(r2.deliveries@, room_of(reg, rid@), client@, ServerEvent::PeerLeft { client }),
        is_broadcast(
            r1.deliveries@.drop_first(),
            room_of(reg, rid@),
            client@,
            ServerEvent::PeerJoined { client },
        ),
{
    if reg.contains_key(rid@) {
        assert(reg.contains_key(rid@));
    }
    lemma_join_then_leave(reg, rid@, client@, s.conn);
    assert(room_of(reg1, rid@).remove(client@) =~= room_of(reg, rid@));
}

/// The rooms and the connections agree: every room has finitely many
/// members; each connection is filed under its own handle; a connection that
/// has joined is a member of its room, registered on that connection; no two
/// joined connections hold the same id in the same room.
pub open spec fn sessions_agree(reg: RegistryView, sessions: Map<u64, Session>) -> bool {
    &&& forall|rid: Seq<char>| #[trigger] reg.contains_key(rid) ==> reg[rid].dom().finite()
    &&& forall|c: u64| #[trigger] sessions.contains_key(c) ==> sessions[c].conn == c
    &&& forall|c: u64|
        #[trigger] sessions.contains_key(c) && is_joined(sessions[c]) ==> room_of(
            reg,
            sessions[c].room_id->0@,
        ).contains_key(sessions[c].me->0@) && room_of(reg, sessions[c].room_id->0@)[sessions[c].me->0@]
            == c
    &&& forall|c1: u64, c2: u64|
        #![trigger sessions[c1], sessions[c2]]
        sessions.contains_key(c1) && sessions.contains_key(c2) && c1 != c2 && is_joined(sessions[c1])
            && is_joined(sessions[c2]) ==> sessions[c1].room_id->0@ != sessions[c2].room_id->0@
            || sessions[c1].me->0@ != sessions[c2].me->0@
}

/// Leaving keeps the other joined connections in their rooms.
proof fn lemma_leave_keeps_others(reg: RegistryView, sessions: Map<u64, Session>, c: u64, reg2: RegistryView)
    requires
        sessions_agree(reg, sessions),
        sessions.contains_key(c),
        is_joined(sessions[c]),
        reg2 == after_leave(reg, sessions[c].room_id->0@, sessions[c].me->0@),
    ensures
        forall|rid: Seq<char>| #[trigger] reg2.contains_key(rid) ==> reg2[rid].dom().finite(),
        forall|d: u64|
            #[trigger] sessions.contains_key(d) && d != c && is_joined(sessions[d]) ==> room_of(
                reg2,
                sessions[d].room_id->0@,
            ).contains_key(sessions[d].me->0@) && room_of(reg2, sessions[d].room_id->0@)[sessions[d].me->0@]
                == d,
{
    let rid = sessions[c].room_id->0@;
    let me = sessions[c].me->0@;
    assert forall|d: u64|
        #[trigger] sessions.contains_key(d) && d != c && is_joined(sessions[d]) implies room_of(
        reg2,
        sessions[d].room_id->0@,
    ).contains_key(sessions[d].me->0@) && room_of(reg2, sessions[d].room_id->0@)[sessions[d].me->0@]
        == d by {
        let rd = sessions[d].room_id->0@;
        let md = sessions[d].me->0@;
        assert(room_of(reg, rd).contains_key(md));
        if rd == rid {
            assert(md != me);
            assert(reg[rid].remove(me).dom().contains(md));
            assert(reg[rid].remove(me).dom().finite());
            assert(reg[rid].remove(me).len() > 0);
        }
    }
}

/// Handling any message on any connection keeps the rooms and the
/// connections in agreement.
pub proof fn law_message_keeps_sessions_agreed(
    reg: RegistryView,
    sessions: Map<u64, Session>,
    c: u64,
    msg: SignalMessage,
    reg2: RegistryView,
    s2: Session,
    r: Handled,
)
    requires
        sessions_agree(reg, sessions),
        sessions.contains_key(c),
        message_outcome(msg, reg, sessions[c], reg2, s2, r),
    ensures
        sessions_agree(reg2, sessions.insert(c, s2)),
{
    let s = sessions[c];
    let sessions2 = sessions.insert(c, s2);
    match msg {
        SignalMessage::Join { room, client } => {
            if s.room_id is None {
                let p = room_of(reg, room@);
                assert forall|rid: Seq<char>| #[trigger] reg2.contains_key(rid) implies reg2[rid].dom().finite() by {
                    if rid == room@ {
                        assert(reg2[rid].dom() =~= p.dom().insert(client@));
                    }
                }
                assert forall|d: u64|
                    #[trigger] sessions2.contains_key(d) && is_joined(sessions2[d]) implies room_of(
                    reg2,
                    sessions2[d].room_id->0@,
                ).contains_key(sessions2[d].me->0@) && room_of(reg2, sessions2[d].room_id->0@)[sessions2[d].me->0@]
                    == d by {
                    if d != c {
                        let rd = sessions[d].room_id->0@;
                        assert(room_of(reg, rd).contains_key(sessions[d].me->0@));
                    }
                }
                assert forall|c1: u64, c2: u64|
                    #![trigger sessions2[c1], sessions2[c2]]
                    sessions2.contains_key(c1) && sessions2.contains_key(c2) && c1 != c2 && is_joined(
                        sessions2[c1],
                    ) && is_joined(sessions2[c2]) implies sessions2[c1].room_id->0@ != sessions2[c2].room_id->0@
                    || sessions2[c1].me->0@ != sessions2[c2].me->0@ by {
                    if c1 == c {
                        assert(room_of(reg, sessions[c2].room_id->0@).contains_key(sessions[c2].me->0@));
                    } else if c2 == c {
                        assert(room_of(reg, sessions[c1].room_id->0@).contains_key(sessions[c1].me->0@));
                    } else {
                        assert(sessions2[c1] == sessions[c1] && sessions2[c2] == sessions[c2]);
                    }
                }
            } else {
                assert(sessions2 =~= sessions);
            }
        },
        SignalMessage::Leave => {
            if is_joined(s) {
                lemma_leave_keeps_others(reg, sessions, c, reg2);
            }
            assert forall|c1: u64, c2: u64|
                #![trigger sessions2[c1], sessions2[c2]]
                sessions2.contains_key(c1) && sessions2.contains_key(c2) && c1 != c2 && is_joined(
                    sessions2[c1],
                ) && is_joined(sessions2[c2]) implies sessions2[c1].room_id->0@ != sessions2[c2].room_id->0@
                || sessions2[c1].me->0@ != sessions2[c2].me->0@ by {
                assert(sessions2[c1] == sessions[c1] && sessions2[c2] == sessions[c2]);
            }
        },
        _ => {
            assert(sessions2 =~= sessions);
        },
    }
}

/// A connection that ends (and is dropped) leaves the rooms and the
/// remaining connections in agreement.
pub proof fn law_cleanup_keeps_sessions_agreed(
    reg: RegistryView,
    sessions: Map<u64, Session>,
    c: u64,
    reg2: RegistryView,
    ds: Seq<Delivery>,
)
    requires
        sessions_agree(reg, sessions),
        sessions.contains_key(c),
        leave_outcome(reg, sessions[c], reg2, ds),
    ensures
        sessions_agree(reg2, sessions.remove(c)),
{
    if is_joined(sessions[c]) {
        lemma_leave_keeps_others(reg, sessions, c, reg2);
    }
}

/// A new connection, in no room, keeps the rooms and the connections in
/// agreement.
pub proof fn law_new_session_keeps_sessions_agreed(reg: RegistryView, sessions: Map<u64, Session>, c: u64)
    requires
        sessions_agree(reg, sessions),
    ensures
        sessions_agree(reg, sessions.insert(c, Session { conn: c, me: None, room_id: None })),
{
}

/// Two events are the same exactly when they are equal, except that two
/// `joined` events compare their client lists by contents.
pub proof fn law_same(e: ServerEvent, f: ServerEvent)
    ensures
        e.same(e),
        !(e is Joined) ==> (e.same(f) <==> e == f),
        e is Joined ==> (e.same(f) <==> (f is Joined && e->Joined_you == f->Joined_you
            && e->Joined_clients@ == f->Joined_clients@)),
{
}

/// There is a delivery exactly when the target is a member; it goes to the
/// target, on the target's connection, and carries the event unchanged.
pub proof fn law_delivery_to(peers: Map<Seq<char>, u64>, to: ClientId, evt: ServerEvent)
    ensures
        delivery_to(peers, to, evt) is Some <==> peers.contains_key(to@),
        delivery_to(peers, to, evt) is Some ==> delivery_to(peers, to, evt)->0.event == evt
            && delivery_to(peers, to, evt)->0.to == to && delivery_to(peers, to, evt)->0.conn
            == peers[to@],
{
}

/// A list names exactly a set of ids: each entry is in the set, no id is
/// named twice, and every id of the set is named.
pub proof fn law_lists_exactly(v: Seq<ClientId>, keys: Set<Seq<char>>, i: int, j: int, k: Seq<char>)
    requires
        lists_exactly(v, keys),
    ensures
        0 <= i < v.len() ==> keys.contains(v[i]@),
        0 <= i < j < v.len() ==> v[i]@ != v[j]@,
        keys.contains(k) ==> exists|m: int| 0 <= m < v.len() && #[trigger] v[m]@ == k,
        keys.finite() ==> v.len() == keys.len(),
{
    let ids = ids_of(v);
    if 0 <= i < v.len() {
        assert(ids[i] == v[i]@);
        assert(ids.to_set().contains(ids[i]));
    }
    if 0 <= i < j < v.len() {
        assert(ids[i] == v[i]@ && ids[j] == v[j]@);
    }
    if keys.contains(k) {
        assert(ids.to_set().contains(k));
        let m = choose|m: int| 0 <= m < ids.len() && ids[m] == k;
        assert(v[m]@ == k);
    }
    ids.unique_seq_to_set();
}

/// A broadcast hands the event to every member but `skip`, exactly once
/// each, on the member's own connection, and to nobody else.
pub proof fn law_broadcast(
    ds: Seq<Delivery>,
    peers: Map<Seq<char>, u64>,
    skip: Seq<char>,
    evt: ServerEvent,
    i: int,
    j: int,
    k: Seq<char>,
)
    requires
        is_broadcast(ds, peers, skip, evt),
    ensures
        0 <= i < ds.len() ==> ds[i].to@ != skip && peers.contains_key(ds[i].to@) && ds[i].conn
            == peers[ds[i].to@] && ds[i].event.same(evt),
        0 <= i < j < ds.len() ==> ds[i].to@ != ds[j].to@,
        peers.contains_key(k) && k != skip ==> exists|m: int| 0 <= m < ds.len() && #[trigger] ds[m].to@ == k,
        peers.dom().finite() ==> ds.len() == peers.dom().remove(skip).len(),
{
    let rs = recipients(ds);
    if 0 <= i < ds.len() {
        assert(rs[i] == ds[i].to@);
        assert(rs.to_set().contains(rs[i]));
    }
    if 0 <= i < j < ds.len() {
        assert(rs[i] == ds[i].to@ && rs[j] == ds[j].to@);
    }
    if peers.contains_key(k) && k != skip {
        assert(peers.dom().remove(skip).contains(k));
        let m = choose|m: int| 0 <= m < rs.len() && rs[m] == k;
        assert(ds[m].to@ == k);
    }
    rs.unique_seq_to_set();
}

/// The members of a room that does not exist: none.
pub proof fn law_room_of(reg: RegistryView, rid: Seq<char>)
    ensures
        reg.contains_key(rid) ==> room_of(reg, rid) == reg[rid],
        !reg.contains_key(rid) ==> room_of(reg, rid).dom().is_empty(),
{
}

/// Joining: a taken id changes nothing; otherwise the room (created when
/// missing) gains the client on its connection, and nothing else changes.
pub proof fn law_after_join(
    reg: RegistryView,
    rid: Seq<char>,
    client: Seq<char>,
    conn: u64,
    other_room: Seq<char>,
    other: Seq<char>,
)
    ensures
        room_of(reg, rid).contains_key(client) ==> after_join(reg, rid, client, conn) == reg,
        !room_of(reg, rid).contains_key(client) ==> {
            let reg2 = after_join(reg, rid, client, conn);
            &&& reg2.contains_key(rid)
            &&& reg2[rid].contains_key(client)
            &&& reg2[rid][client] == conn
            &&& (other != client ==> (reg2[rid].contains_key(other) <==> room_of(reg, rid).contains_key(
                other,
            )))
            &&& (other != client && room_of(reg, rid).contains_key(other) ==> reg2[rid][other] == room_of(
                reg,
                rid,
            )[other])
            &&& (other_room != rid ==> (reg2.contains_key(other_room) <==> reg.contains_key(other_room)))
            &&& (other_room != rid && reg.contains_key(other_room) ==> reg2[other_room] == reg[other_room])
        },
{
}

/// Leaving: the client is no longer in the room; the other members stay on
/// their connections; the room goes away exactly when nobody is left; other
/// rooms do not change.
pub proof fn law_after_leave(
    reg: RegistryView,
    rid: Seq<char>,
    client: Seq<char>,
    other_room: Seq<char>,
    other: Seq<char>,
)
    requires
        reg.contains_key(rid) ==> reg[rid].dom().finite(),
    ensures
        !reg.contains_key(rid) ==> after_leave(reg, rid, client) == reg,
        reg.contains_key(rid) ==> {
            let reg2 = after_leave(reg, rid, client);
            &&& (reg2.contains_key(rid) <==> exists|m: Seq<char>| #[trigger] reg[rid].contains_key(m) && m != client)
            &&& (reg2.contains_key(rid) ==> !reg2[rid].contains_key(client))
            &&& (reg2.contains_key(rid) && other != client ==> (reg2[rid].contains_key(other)
                <==> reg[rid].contains_key(other)))
            &&& (reg2.contains_key(rid) && other != client && reg[rid].contains_key(other)
                ==> reg2[rid][other] == reg[rid][other])
            &&& (other_room != rid ==> (reg2.contains_key(other_room) <==> reg.contains_key(other_room)))
            &&& (other_room != rid && reg.contains_key(other_room) ==> reg2[other_room] == reg[other_room])
        },
{
    if reg.contains_key(rid) {
        let p = reg[rid].remove(client);
        assert(p.dom().finite());
        if p.len() == 0 {
            p.dom().lemma_len0_is_empty();
            assert forall|m: Seq<char>| #[trigger] reg[rid].contains_key(m) implies m == client by {
                assert(!p.dom().contains(m));
            }
        } else {
            if forall|m: Seq<char>| #[trigger] reg[rid].contains_key(m) ==> m == client {
                assert(p.dom() =~= Set::<Seq<char>>::empty());
            }
        }
    }
}

/// Whether a relay of a joined connection reaches its target.
pub open spec fn relay_reaches(reg: RegistryView, s: Session, to: ClientId) -> bool {
    is_joined(s) && room_of(reg, s.room_id->0@).contains_key(to@)
}

/// An `ice` message changes no room and no connection state, keeps the
/// connection open, and hands the candidate as received, with the sender's
/// id, to the named member of the sender's room only; in any other case it
/// is dropped.
pub proof fn law_ice_relayed_as_received(
    reg: RegistryView,
    s: Session,
    to: ClientId,
    candidate: IceCandidate,
    reg2: RegistryView,
    s2: Session,
    r: Handled,
)
    requires
        message_outcome((SignalMessage::Ice { to, candidate }), reg, s, reg2, s2, r),
    ensures
        reg2 == reg,
        s2 == s,
        !r.close,
        relay_reaches(reg, s, to) ==> r.deliveries@.len() == 1 && r.deliveries@[0].to == to
            && r.deliveries@[0].conn == reg[s.room_id->0@][to@] && r.deliveries@[0].event
            == (ServerEvent::Ice { from: s.me->0, candidate }),
        !relay_reaches(reg, s, to) ==> r.deliveries@.len() == 0,
{
}

/// An `offer` is handed, as received, with the sender's id, to the named
/// member of the sender's room only; nothing else changes.
pub proof fn law_offer_relayed_as_received(
    reg: RegistryView,
    s: Session,
    to: ClientId,
    sdp: SessionDescription,
    reg2: RegistryView,
    s2: Session,
    r: Handled,
)
    requires
        message_outcome((SignalMessage::Offer { to, sdp }), reg, s, reg2, s2, r),
    ensures
        reg2 == reg,
        s2 == s,
        !r.close,
        relay_reaches(reg, s, to) ==> r.deliveries@.len() == 1 && r.deliveries@[0].to == to
            && r.deliveries@[0].conn == reg[s.room_id->0@][to@] && r.deliveries@[0].event
            == (ServerEvent::Offer { from: s.me->0, sdp }),
        !relay_reaches(reg, s, to) ==> r.deliveries@.len() == 0,
{
}

/// An `answer` is handed, as received, with the sender's id, to the named
/// member of the sender's room only; nothing else changes.
pub proof fn law_answer_relayed_as_received(
    reg: RegistryView,
    s: Session,
    to: ClientId,
    sdp: SessionDescription,
    reg2: RegistryView,
    s2: Session,
    r: Handled,
)
    requires
        message_outcome((SignalMessage::Answer { to, sdp }), reg, s, reg2, s2, r),
    ensures
        reg2 == reg,
        s2 == s,
        !r.close,
        relay_reaches(reg, s, to) ==> r.deliveries@.len() == 1 && r.deliveries@[0].to == to
            && r.deliveries@[0].conn == reg[s.room_id->0@][to@] && r.deliveries@[0].event
            == (ServerEvent::Answer { from: s.me->0, sdp }),
        !relay_reaches(reg, s, to) ==> r.deliveries@.len() == 0,
{
}

/// A `join` of a connection in no room, under an id free in the room: the
/// connection becomes that member of that room; the room (created when
/// missing) registers it on the connection; the joiner gets `joined`
/// naming every earlier member once; every earlier member, and nobody else,
/// gets `peer_joined` with the joiner's id, once, on its own connection.
pub proof fn law_join_accepted(
    reg: RegistryView,
    s: Session,
    room: RoomId,
    client: ClientId,
    reg2: RegistryView,
    s2: Session,
    r: Handled,
    i: int,
    k: Seq<char>,
)
    requires
        message_outcome((SignalMessage::Join { room, client }), reg, s, reg2, s2, r),
        s.room_id is None,
        !room_of(reg, room@).contains_key(client@),
    ensures
        !r.close,
        s2.conn == s.conn && s2.me == Some(client) && s2.room_id == Some(room),
        reg2.contains_key(room@) && reg2[room@].contains_key(client@) && reg2[room@][client@] == s.conn,
        r.deliveries@.len() >= 1,
        r.deliveries@[0].to == client && r.deliveries@[0].conn == s.conn,
        r.deliveries@[0].event is Joined && r.deliveries@[0].event->Joined_you == client,
        lists_exactly(r.deliveries@[0].event->Joined_clients@, room_of(reg, room@).dom()),
        1 <= i < r.deliveries@.len() ==> r.deliveries@[i].event == (ServerEvent::PeerJoined { client })
            && room_of(reg, room@).contains_key(r.deliveries@[i].to@) && r.deliveries@[i].conn
            == room_of(reg, room@)[r.deliveries@[i].to@],
        room_of(reg, room@).contains_key(k) ==> exists|m: int|
            1 <= m < r.deliveries@.len() && #[trigger] r.deliveries@[m].to@ == k,
{
    let ds = r.deliveries@.drop_first();
    let p = room_of(reg, room@);
    if 1 <= i < r.deliveries@.len() {
        law_broadcast(ds, p, client@, ServerEvent::PeerJoined { client }, i - 1, i - 1, k);
        assert(ds[i - 1] == r.deliveries@[i]);
    }
    if p.contains_key(k) {
        assert(k != client@);
        law_broadcast(ds, p, client@, ServerEvent::PeerJoined { client }, 0, 0, k);
        let m = choose|m: int| 0 <= m < ds.len() && #[trigger] ds[m].to@ == k;
        assert(r.deliveries@[m + 1] == ds[m]);
    }
}

/// A `join` under an id the room already holds, or from a connection
/// already in a room, changes nothing and tells nobody.
pub proof fn law_join_refused(
    reg: RegistryView,
    s: Session,
    room: RoomId,
    client: ClientId,
    reg2: RegistryView,
    s2: Session,
    r: Handled,
)
    requires
        message_outcome((SignalMessage::Join { room, client }), reg, s, reg2, s2, r),
        s.room_id is Some || room_of(reg, room@).contains_key(client@),
    ensures
        reg2 == reg,
        s2 == s,
        !r.close,
        r.deliveries@.len() == 0,
{
}

/// A `leave` closes the connection and resets its state. A joined
/// connection leaves its room: every other member, and nobody else, gets
/// `peer_left` with its id, once, on its own connection. A connection in no
/// room changes nothing and tells nobody.
pub proof fn law_leave(
    reg: RegistryView,
    s: Session,
    reg2: RegistryView,
    s2: Session,
    r: Handled,
    i: int,
    k: Seq<char>,
)
    requires
        message_outcome(SignalMessage::Leave, reg, s, reg2, s2, r),
    ensures
        r.close,
        s2.conn == s.conn && s2.me is None && s2.room_id is None,
        !is_joined(s) ==> reg2 == reg && r.deliveries@.len() == 0,
        is_joined(s) ==> reg2 == after_leave(reg, s.room_id->0@, s.me->0@),
        is_joined(s) && 0 <= i < r.deliveries@.len() ==> r.deliveries@[i].event == (ServerEvent::PeerLeft {
            client: s.me->0,
        }) && r.deliveries@[i].to@ != s.me->0@ && room_of(reg, s.room_id->0@).contains_key(
            r.deliveries@[i].to@,
        ) && r.deliveries@[i].conn == room_of(reg, s.room_id->0@)[r.deliveries@[i].to@],
        is_joined(s) && room_of(reg, s.room_id->0@).contains_key(k) && k != s.me->0@ ==> exists|m: int|
            0 <= m < r.deliveries@.len() && #[trigger] r.deliveries@[m].to@ == k,
{
    if is_joined(s) {
        let p = room_of(reg, s.room_id->0@).remove(s.me->0@);
        let e = ServerEvent::PeerLeft { client: s.me->0 };
        law_broadcast(r.deliveries@, p, s.me->0@, e, i, i, k);
    }
}

} // verus!
