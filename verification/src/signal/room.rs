//! # Rooms
//!
//! In-memory rooms of the P2P stage: each room maps its clients to the
//! connection that carries their signalling events, and tells whom an event
//! goes to. The server only introduces peers (it relays SDP / ICE); media
//! never passes through it.
//!
//! Delivering an event is the caller's I/O: the functions here return
//! [`Delivery`] values that name the recipient and its connection.

use crate::proto::{ClientId, RoomId, ServerEvent};
use crate::signal::table::{
    peer_entries, peers_entries, peers_get, peers_insert, peers_len, peers_new, peers_remove,
    room_entries, rooms_contains, rooms_insert, rooms_len, rooms_new, rooms_remove,
};
use dashmap::DashMap;
use vstd::prelude::*;

verus! {

/// Why joining a room failed.
#[derive(Debug, Clone, Copy, PartialEq, Eq, Structural)]
pub enum JoinError {
    /// The client id is already taken in the room
    ClientIdTaken,
}

/// One event for one client, on the connection registered for it.
#[derive(Debug)]
pub struct Delivery {
    /// Recipient client
    pub to: ClientId,
    /// Connection that carries the recipient's events
    pub conn: u64,
    /// The event
    pub event: ServerEvent,
}

/// The ids of a list of clients.
pub open spec fn ids_of(v: Seq<ClientId>) -> Seq<Seq<char>> {
    v.map_values(|s: ClientId| s@)
}

/// `v` names every id of `keys` exactly once, and nothing else.
pub open spec fn lists_exactly(v: Seq<ClientId>, keys: Set<Seq<char>>) -> bool {
    &&& ids_of(v).no_duplicates()
    &&& ids_of(v).to_set() == keys
}

/// The recipients of a list of deliveries.
pub open spec fn recipients(ds: Seq<Delivery>) -> Seq<Seq<char>> {
    ds.map_values(|d: Delivery| d.to@)
}

/// `ds` hands `evt` to every member of `peers` but `skip`, exactly once
/// each, on the member's own connection.
pub open spec fn is_broadcast(
    ds: Seq<Delivery>,
    peers: Map<Seq<char>, u64>,
    skip: Seq<char>,
    evt: ServerEvent,
) -> bool {
    &&& recipients(ds).no_duplicates()
    &&& recipients(ds).to_set() == peers.dom().remove(skip)
    &&& forall|i: int|
        #![trigger ds[i]]
        0 <= i < ds.len() ==> ds[i].conn == peers[ds[i].to@] && ds[i].event.same(evt)
}

/// The delivery of `evt` to `to`: there is one exactly when `to` is a member.
pub open spec fn delivery_to(peers: Map<Seq<char>, u64>, to: ClientId, evt: ServerEvent) -> Option<
    Delivery,
> {
    if peers.contains_key(to@) {
        Some(Delivery { to, conn: peers[to@], event: evt })
    } else {
        None
    }
}

/// A single room: its id and its members (`client id -> connection`).
pub struct Room {
    /// Room id (kept for topology decisions and metrics)
    id: RoomId,
    peers: DashMap<ClientId, u64>,
}

impl View for Room {
    type V = Map<Seq<char>, u64>;

    /// The members of the room and their connections.
    closed spec fn view(&self) -> Map<Seq<char>, u64> {
        peer_entries(self.peers)
    }
}

impl Room {
    /// A room has finitely many members.
    #[verifier::type_invariant]
    spec fn members_finite(self) -> bool {
        peer_entries(self.peers).dom().finite()
    }

    /// Id of the room.
    pub closed spec fn room_id(&self) -> Seq<char> {
        self.id@
    }

    /// A room with no members.
    pub fn new(id: RoomId) -> (r: Self)
        ensures
            r@ == Map::<Seq<char>, u64>::empty(),
            r@.dom().finite(),
            r.room_id() == id@,
    {
        Room { id, peers: peers_new() }
    }

    /// Id of the room.
    pub fn id(&self) -> (r: &RoomId)
        ensures
            r@ == self.room_id(),
    {
        &self.id
    }

    /// A client joins the room on connection `conn`.
    ///
    /// On success returns the clients that were in the room before (for the
    /// `joined` answer). If the id is already taken, returns
    /// `JoinError::ClientIdTaken` and the room is left as it was.
    pub fn join(&mut self, client: &ClientId, conn: u64) -> (r: Result<Vec<ClientId>, JoinError>)
        ensures
            final(self)@.dom().finite(),
            final(self).room_id() == old(self).room_id(),
            r is Err <==> old(self)@.contains_key(client@),
            r is Err ==> final(self)@ == old(self)@,
            r is Ok ==> final(self)@ == old(self)@.insert(client@, conn),
            r matches Ok(v) ==> lists_exactly(v@, old(self)@.dom()),
    {
        proof {
            use_type_invariant(&*self);
        }
        if peers_get(&self.peers, client).is_some() {
            return Err(JoinError::ClientIdTaken);
        }
        let entries = peers_entries(&self.peers);
        let mut existing: Vec<ClientId> = Vec::new();
        let mut i: usize = 0;
        while i < entries.len()
            invariant
                i <= entries@.len(),
                existing@.len() == i,
                forall|j: int| 0 <= j < i ==> #[trigger] existing@[j] == entries@[j].0,
            decreases entries@.len() - i,
        {
            existing.push(entries[i].0.clone());
            i = i + 1;
        }
        proof {
            let ids = ids_of(existing@);
            let dom = peer_entries(self.peers).dom();
            assert forall|a: int, b: int| 0 <= a < ids.len() && 0 <= b < ids.len() && a != b implies ids[a]
                != ids[b] by {
                if a < b {
                    assert(entries@[a].0@ != entries@[b].0@);
                } else {
                    assert(entries@[b].0@ != entries@[a].0@);
                }
            }
            assert forall|k: Seq<char>| #[trigger] ids.to_set().contains(k) <==> dom.contains(k) by {
                if dom.contains(k) {
                    assert(peer_entries(self.peers).contains_key(k));
                    let j = choose|j: int| 0 <= j < entries@.len() && #[trigger] entries@[j].0@ == k;
                    assert(ids[j] == k);
                }
                if ids.to_set().contains(k) {
                    let j = choose|j: int| 0 <= j < ids.len() && ids[j] == k;
                    assert(peer_entries(self.peers).contains_key(entries@[j].0@));
                }
            }
            assert(ids.to_set() =~= dom);
        }
        let mut peers = peers_new();
        std::mem::swap(&mut peers, &mut self.peers);
        let _ = peers_insert(&mut peers, client.clone(), conn);
        std::mem::swap(&mut peers, &mut self.peers);
        Ok(existing)
    }

    /// A client leaves the room (nothing happens if it is not a member).
    /// Returns whether the room is now empty (the caller then cleans it up).
    pub fn leave(&mut self, client: &ClientId) -> (r: bool)
        ensures
            final(self)@ == old(self)@.remove(client@),
            final(self)@.dom().finite(),
            final(self).room_id() == old(self).room_id(),
            r <==> final(self)@.dom().is_empty(),
    {
        proof {
            use_type_invariant(&*self);
        }
        let mut peers = peers_new();
        std::mem::swap(&mut peers, &mut self.peers);
        let _ = peers_remove(&mut peers, client);
        std::mem::swap(&mut peers, &mut self.peers);
        let n = peers_len(&self.peers);
        proof {
            let d = peer_entries(self.peers).dom();
            if n == 0 {
                d.lemma_len0_is_empty();
            } else if d.is_empty() {
                assert(d =~= Set::<Seq<char>>::empty());
            }
        }
        n == 0
    }

    /// The delivery of `evt` to client `to`; `None` when `to` is not a member
    /// (the event is then dropped).
    pub fn send_to(&self, to: &ClientId, evt: ServerEvent) -> (r: Option<Delivery>)
        ensures
            r == delivery_to(self@, *to, evt),
            r is Some <==> self@.contains_key(to@),
            r matches Some(d) ==> d.event == evt && d.to == *to && d.conn == self@[to@],
    {
        match peers_get(&self.peers, to) {
            Some(conn) => Some(Delivery { to: to.clone(), conn, event: evt }),
            None => None,
        }
    }

    /// The deliveries of `evt` to every member but `skip`.
    pub fn broadcast_except(&self, skip: &ClientId, evt: ServerEvent) -> (r: Vec<Delivery>)
        ensures
            is_broadcast(r@, self@, skip@, evt),
    {
        let entries = peers_entries(&self.peers);
        let ghost peers = peer_entries(self.peers);
        let mut out: Vec<Delivery> = Vec::new();
        let mut i: usize = 0;
        while i < entries.len()
            invariant
                i <= entries@.len(),
                peers == peer_entries(self.peers),
                forall|x: int|
                    0 <= x < entries@.len() ==> peers.contains_key(#[trigger] entries@[x].0@)
                        && peers[entries@[x].0@] == entries@[x].1,
                forall|x: int, y: int|
                    0 <= x < y < entries@.len() ==> #[trigger] entries@[x].0@ != #[trigger] entries@[y].0@,
                forall|j: int|
                    #![trigger out@[j]]
                    0 <= j < out@.len() ==> {
                        &&& peers.contains_key(out@[j].to@)
                        &&& out@[j].to@ != skip@
                        &&& out@[j].conn == peers[out@[j].to@]
                        &&& out@[j].event.same(evt)
                    },
                forall|j1: int, j2: int|
                    0 <= j1 < j2 < out@.len() ==> #[trigger] out@[j1].to@ != #[trigger] out@[j2].to@,
                forall|m: int|
                    0 <= m < i && #[trigger] entries@[m].0@ != skip@ ==> exists|j: int|
                        0 <= j < out@.len() && #[trigger] out@[j].to@ == entries@[m].0@,
                forall|j: int|
                    0 <= j < out@.len() ==> exists|m: int|
                        0 <= m < i && #[trigger] entries@[m].0@ == #[trigger] out@[j].to@,
            decreases entries@.len() - i,
        {
            if !(entries[i].0 == *skip) {
                let ghost before = out@;
                let d = Delivery { to: entries[i].0.clone(), conn: entries[i].1, event: evt.clone() };
                out.push(d);
                proof {
                    assert(out@[out@.len() - 1].to@ == entries@[i as int].0@);
                    assert forall|j1: int, j2: int|
                        0 <= j1 < j2 < out@.len() implies #[trigger] out@[j1].to@
                        != #[trigger] out@[j2].to@ by {
                        if j2 == out@.len() - 1 {
                            assert(before[j1] == out@[j1]);
                            let m = choose|m: int| 0 <= m < i && #[trigger] entries@[m].0@ == before[j1].to@;
                            assert(entries@[m].0@ != entries@[i as int].0@);
                        } else {
                            assert(before[j1] == out@[j1] && before[j2] == out@[j2]);
                        }
                    }
                    assert forall|m: int|
                        0 <= m < i + 1 && #[trigger] entries@[m].0@ != skip@ implies exists|j: int|
                        0 <= j < out@.len() && #[trigger] out@[j].to@ == entries@[m].0@ by {
                        if m == i {
                            assert(out@[out@.len() - 1].to@ == entries@[m].0@);
                        } else {
                            let j = choose|j: int| 0 <= j < before.len() && #[trigger] before[j].to@ == entries@[m].0@;
                            assert(out@[j] == before[j]);
                        }
                    }
                    assert forall|j: int| 0 <= j < out@.len() implies exists|m: int|
                        0 <= m < i + 1 && #[trigger] entries@[m].0@ == #[trigger] out@[j].to@ by {
                        if j == out@.len() - 1 {
                            assert(entries@[i as int].0@ == out@[j].to@);
                        } else {
                            assert(out@[j] == before[j]);
                            let m = choose|m: int| 0 <= m < i && #[trigger] entries@[m].0@ == before[j].to@;
                            assert(entries@[m].0@ == out@[j].to@);
                        }
                    }
                }
            } else {
                proof {
                    assert forall|m: int|
                        0 <= m < i + 1 && #[trigger] entries@[m].0@ != skip@ implies exists|j: int|
                        0 <= j < out@.len() && #[trigger] out@[j].to@ == entries@[m].0@ by {
                    }
                }
            }
            i = i + 1;
        }
        proof {
            let rs = recipients(out@);
            assert forall|a: int, b: int| 0 <= a < rs.len() && 0 <= b < rs.len() && a != b implies rs[a]
                != rs[b] by {
                if a < b {
                    assert(out@[a].to@ != out@[b].to@);
                } else {
                    assert(out@[b].to@ != out@[a].to@);
                }
            }
            assert forall|k: Seq<char>| #[trigger] rs.to_set().contains(k) <==> peers.dom().remove(skip@).contains(k) by {
                if rs.to_set().contains(k) {
                    let j = choose|j: int| 0 <= j < rs.len() && rs[j] == k;
                    assert(out@[j].to@ == k);
                }
                if peers.dom().remove(skip@).contains(k) {
                    assert(peers.contains_key(k));
                    let m = choose|m: int| 0 <= m < entries@.len() && #[trigger] entries@[m].0@ == k;
                    assert(entries@[m].0@ != skip@);
                    let j = choose|j: int| 0 <= j < out@.len() && #[trigger] out@[j].to@ == entries@[m].0@;
                    assert(rs[j] == k);
                }
            }
            assert(rs.to_set() =~= peers.dom().remove(skip@));
        }
        out
    }

    /// Number of members.
    pub fn peer_count(&self) -> (r: usize)
        ensures
            r == self@.len(),
            self@.dom().finite(),
    {
        proof {
            use_type_invariant(self);
        }
        peers_len(&self.peers)
    }
}

/// The members of room `rid` in a registry; a room that does not exist has
/// no members.
pub open spec fn room_of(reg: Map<Seq<char>, Map<Seq<char>, u64>>, rid: Seq<char>) -> Map<
    Seq<char>,
    u64,
> {
    if reg.contains_key(rid) {
        reg[rid]
    } else {
        Map::empty()
    }
}

/// The registry after `client` asks to join room `rid` on `conn`: the room
/// is created when missing and the client added; a taken id changes nothing.
pub open spec fn after_join(
    reg: Map<Seq<char>, Map<Seq<char>, u64>>,
    rid: Seq<char>,
    client: Seq<char>,
    conn: u64,
) -> Map<Seq<char>, Map<Seq<char>, u64>> {
    if room_of(reg, rid).contains_key(client) {
        reg
    } else {
        reg.insert(rid, room_of(reg, rid).insert(client, conn))
    }
}

/// The registry after `client` leaves room `rid`: a room left empty is
/// removed.
pub open spec fn after_leave(
    reg: Map<Seq<char>, Map<Seq<char>, u64>>,
    rid: Seq<char>,
    client: Seq<char>,
) -> Map<Seq<char>, Map<Seq<char>, u64>> {
    if !reg.contains_key(rid) {
        reg
    } else if reg[rid].remove(client).len() == 0 {
        reg.remove(rid)
    } else {
        reg.insert(rid, reg[rid].remove(client))
    }
}

/// Finitely many rooms, each with finitely many members.
pub open spec fn finite_rooms(reg: Map<Seq<char>, Map<Seq<char>, u64>>) -> bool {
    &&& reg.dom().finite()
    &&& forall|rid: Seq<char>| #[trigger] reg.contains_key(rid) ==> reg[rid].dom().finite()
}

/// The room registry: `room id -> room`.
///
/// A single process keeps it in memory.
pub struct RoomRegistry {
    rooms: DashMap<RoomId, Room>,
}

impl View for RoomRegistry {
    type V = Map<Seq<char>, Map<Seq<char>, u64>>;

    /// Every room with its members.
    closed spec fn view(&self) -> Map<Seq<char>, Map<Seq<char>, u64>> {
        room_entries(self.rooms).map_values(|r: Room| r@)
    }
}

impl RoomRegistry {
    /// Finitely many rooms, each with finitely many members.
    #[verifier::type_invariant]
    pub(crate) closed spec fn rooms_finite(self) -> bool {
        &&& room_entries(self.rooms).dom().finite()
        &&& forall|k: Seq<char>|
            #[trigger] room_entries(self.rooms).contains_key(k) ==> room_entries(
                self.rooms,
            )[k]@.dom().finite()
    }

    /// The view of a registry that keeps its invariant is finite.
    pub(crate) proof fn lemma_finite_view(reg: &RoomRegistry)
        requires
            reg.rooms_finite(),
        ensures
            finite_rooms(reg@),
    {
        assert(reg@.dom() =~= room_entries(reg.rooms).dom());
    }

    /// An empty registry.
    pub fn new() -> (r: Self)
        ensures
            r@ == Map::<Seq<char>, Map<Seq<char>, u64>>::empty(),
            finite_rooms(r@),
    {
        let rooms = rooms_new();
        assert(room_entries(rooms).dom() =~= Set::<Seq<char>>::empty());
        let r = RoomRegistry { rooms };
        assert(r@ =~= Map::<Seq<char>, Map<Seq<char>, u64>>::empty());
        r
    }

    /// Makes sure room `id` exists (an empty room is created when missing).
    pub fn get_or_create(&mut self, id: &RoomId)
        ensures
            final(self)@ == (if old(self)@.contains_key(id@) {
                old(self)@
            } else {
                old(self)@.insert(id@, Map::empty())
            }),
            finite_rooms(final(self)@),
            old(self)@.contains_key(id@) ==> final(self)@.len() == old(self)@.len(),
            !old(self)@.contains_key(id@) ==> final(self)@.len() == old(self)@.len() + 1,
    {
        proof {
            use_type_invariant(&*self);
        }
        if !rooms_contains(&self.rooms, id) {
            let room = Room::new(id.clone());
            let mut rooms = rooms_new();
            std::mem::swap(&mut rooms, &mut self.rooms);
            let _ = rooms_insert(&mut rooms, id.clone(), room);
            std::mem::swap(&mut rooms, &mut self.rooms);
            assert(self@ =~= old(self)@.insert(id@, Map::empty()));
        }
        proof {
            use_type_invariant(&*self);
            Self::lemma_finite_view(&*self);
            assert(self@.dom() =~= room_entries(self.rooms).dom());
            assert(old(self)@.dom() =~= room_entries(old(self).rooms).dom());
        }
    }

    /// Removes room `id` if it has no members (cleanup after a leave).
    pub fn cleanup(&mut self, id: &RoomId)
        ensures
            final(self)@ == (if old(self)@.contains_key(id@) && old(self)@[id@].dom().is_empty() {
                old(self)@.remove(id@)
            } else {
                old(self)@
            }),
            finite_rooms(final(self)@),
    {
        proof {
            use_type_invariant(&*self);
        }
        let mut rooms = rooms_new();
        std::mem::swap(&mut rooms, &mut self.rooms);
        let ghost before = room_entries(rooms);
        match rooms_remove(&mut rooms, id) {
            Some((key, room)) => {
                let n = room.peer_count();
                proof {
                    let d = room@.dom();
                    if n == 0 {
                        d.lemma_len0_is_empty();
                    } else if d.is_empty() {
                        assert(d =~= Set::<Seq<char>>::empty());
                    }
                }
                if n != 0 {
                    let _ = rooms_insert(&mut rooms, key, room);
                    assert(room_entries(rooms) =~= before);
                }
            },
            None => {
                assert(room_entries(rooms) =~= before);
            },
        }
        std::mem::swap(&mut rooms, &mut self.rooms);
        proof {
            use_type_invariant(&*self);
            Self::lemma_finite_view(&*self);
        }
        assert(self@ =~= (if old(self)@.contains_key(id@) && old(self)@[id@].dom().is_empty() {
            old(self)@.remove(id@)
        } else {
            old(self)@
        }));
    }

    /// Number of rooms.
    pub fn room_count(&self) -> (r: usize)
        ensures
            r == self@.len(),
            finite_rooms(self@),
    {
        proof {
            use_type_invariant(self);
            Self::lemma_finite_view(self);
        }
        assert(self@.dom() =~= room_entries(self.rooms).dom());
        rooms_len(&self.rooms)
    }

    /// Client `client` joins room `rid` (created when missing) on `conn`;
    /// see [`Room::join`]. A taken id leaves the registry as it was.
    pub fn join(&mut self, rid: &RoomId, client: &ClientId, conn: u64) -> (r: Result<
        Vec<ClientId>,
        JoinError,
    >)
        ensures
            final(self)@ == after_join(old(self)@, rid@, client@, conn),
            finite_rooms(final(self)@),
            r is Err <==> room_of(old(self)@, rid@).contains_key(client@),
            r matches Ok(v) ==> lists_exactly(v@, room_of(old(self)@, rid@).dom()),
    {
        self.get_or_create(rid);
        proof {
            use_type_invariant(&*self);
        }
        let ghost mid = self@;
        let mut rooms = rooms_new();
        std::mem::swap(&mut rooms, &mut self.rooms);
        let ghost mid_rooms = room_entries(rooms);
        assert(mid.contains_key(rid@) && mid[rid@] == room_of(old(self)@, rid@));
        assert(mid_rooms.contains_key(rid@));
        let r = match rooms_remove(&mut rooms, rid) {
            Some((key, mut room)) => {
                assert(room == mid_rooms[rid@]);
                assert(room@ == mid[rid@]);
                let r = room.join(client, conn);
                proof {
                    use_type_invariant(&room);
                }
                let _ = rooms_insert(&mut rooms, key, room);
                assert(room_entries(rooms) =~= mid_rooms.insert(rid@, room));
                r
            },
            None => Err(JoinError::ClientIdTaken),
        };
        std::mem::swap(&mut rooms, &mut self.rooms);
        proof {
            use_type_invariant(&*self);
            Self::lemma_finite_view(&*self);
        }
        assert(self@ =~= after_join(old(self)@, rid@, client@, conn));
        r
    }

    /// Client `client` leaves room `rid`: the remaining members are told
    /// `peer_left`, and the room is removed once empty. Nothing happens when
    /// the room does not exist.
    pub fn leave(&mut self, rid: &RoomId, client: &ClientId) -> (r: Vec<Delivery>)
        ensures
            final(self)@ == after_leave(old(self)@, rid@, client@),
            finite_rooms(final(self)@),
            is_broadcast(
                r@,
                room_of(old(self)@, rid@).remove(client@),
                client@,
                ServerEvent::PeerLeft { client: *client },
            ),
    {
        proof {
            use_type_invariant(&*self);
        }
        let mut rooms = rooms_new();
        std::mem::swap(&mut rooms, &mut self.rooms);
        let ghost old_rooms = room_entries(rooms);
        match rooms_remove(&mut rooms, rid) {
            Some((key, mut room)) => {
                assert(room == old_rooms[rid@]);
                assert(room@ == old(self)@[rid@]);
                let _ = room.leave(client);
                let ds = room.broadcast_except(client, ServerEvent::PeerLeft { client: client.clone() });
                proof {
                    use_type_invariant(&room);
                }
                let _ = rooms_insert(&mut rooms, key, room);
                std::mem::swap(&mut rooms, &mut self.rooms);
                assert(self@ =~= old(self)@.insert(rid@, old(self)@[rid@].remove(client@)));
                self.cleanup(rid);
                proof {
                    let p = old(self)@[rid@].remove(client@);
                    assert(p.dom().finite());
                    if p.len() == 0 {
                        p.dom().lemma_len0_is_empty();
                    } else if p.dom().is_empty() {
                        assert(p.dom() =~= Set::<Seq<char>>::empty());
                    }
                }
                assert(self@ =~= after_leave(old(self)@, rid@, client@));
                ds
            },
            None => {
                std::mem::swap(&mut rooms, &mut self.rooms);
                proof {
                    use_type_invariant(&*self);
                    Self::lemma_finite_view(&*self);
                }
                assert(self@ =~= old(self)@);
                let ds: Vec<Delivery> = Vec::new();
                assert(recipients(ds@).to_set() =~= room_of(old(self)@, rid@).remove(client@).dom().remove(client@));
                ds
            },
        }
    }

    /// The delivery of `evt` to member `to` of room `rid`, if both exist.
    pub fn send_to(&mut self, rid: &RoomId, to: &ClientId, evt: ServerEvent) -> (r: Option<Delivery>)
        ensures
            final(self)@ == old(self)@,
            finite_rooms(final(self)@),
            r == (if old(self)@.contains_key(rid@) {
                delivery_to(old(self)@[rid@], *to, evt)
            } else {
                None
            }),
            r is Some <==> room_of(old(self)@, rid@).contains_key(to@),
            r matches Some(d) ==> d.event == evt && d.to == *to && d.conn == old(self)@[rid@][to@],
    {
        proof {
            use_type_invariant(&*self);
        }
        let mut rooms = rooms_new();
        std::mem::swap(&mut rooms, &mut self.rooms);
        let ghost before = room_entries(rooms);
        let d = match rooms_remove(&mut rooms, rid) {
            Some((key, room)) => {
                let d = room.send_to(to, evt);
                let _ = rooms_insert(&mut rooms, key, room);
                assert(room_entries(rooms) =~= before);
                d
            },
            None => None,
        };
        std::mem::swap(&mut rooms, &mut self.rooms);
        proof {
            use_type_invariant(&*self);
            Self::lemma_finite_view(&*self);
        }
        d
    }

    /// The deliveries of `evt` to every member of room `rid` but `skip`.
    pub fn broadcast_except(&mut self, rid: &RoomId, skip: &ClientId, evt: ServerEvent) -> (r: Vec<
        Delivery,
    >)
        ensures
            final(self)@ == old(self)@,
            finite_rooms(final(self)@),
            is_broadcast(r@, room_of(old(self)@, rid@), skip@, evt),
    {
        proof {
            use_type_invariant(&*self);
        }
        let mut rooms = rooms_new();
        std::mem::swap(&mut rooms, &mut self.rooms);
        let ghost before = room_entries(rooms);
        let ds = match rooms_remove(&mut rooms, rid) {
            Some((key, room)) => {
                let ds = room.broadcast_except(skip, evt);
                let _ = rooms_insert(&mut rooms, key, room);
                assert(room_entries(rooms) =~= before);
                ds
            },
            None => {
                assert(room_entries(rooms) =~= before);
                let ds: Vec<Delivery> = Vec::new();
                assert(recipients(ds@).to_set() =~= room_of(old(self)@, rid@).dom().remove(skip@));
                ds
            },
        };
        std::mem::swap(&mut rooms, &mut self.rooms);
        proof {
            use_type_invariant(&*self);
            Self::lemma_finite_view(&*self);
        }
        ds
    }
}

} // verus!
