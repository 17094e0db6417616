//! The concurrent maps behind rooms and the room registry.
//!
//! Both are `dashmap::DashMap`s. Verus sees a map only through the names
//! `peer_entries` and `room_entries` below, and through the contracts of the
//! wrappers in this file, which state what dashmap's source does. The
//! wrappers take `&mut` where dashmap takes `&self`: the library changes a
//! map only through a unique reference, so no other holder can observe it
//! in between.

use crate::signal::room::Room;
use dashmap::DashMap;
use vstd::prelude::*;

verus! {

/// `dashmap::DashMap`, opaque to Verus: its contents are known through the
/// names below.
#[verifier::external_type_specification]
#[verifier::external_body]
#[verifier::reject_recursive_types(K)]
#[verifier::reject_recursive_types(V)]
#[verifier::reject_recursive_types(S)]
pub struct ExDashMap<K, V, S>(DashMap<K, V, S>);

/// What a room's member map holds: client id -> connection handle.
pub uninterp spec fn peer_entries(m: DashMap<String, u64>) -> Map<Seq<char>, u64>;

/// What the room registry's map holds: room id -> room.
pub uninterp spec fn room_entries(m: DashMap<String, Room>) -> Map<Seq<char>, Room>;

/// `DashMap::new`: a map with no entries.
#[verifier::external_body]
pub(crate) fn peers_new() -> (r: DashMap<String, u64>)
    ensures
        peer_entries(r).is_empty(),
{
    DashMap::new()
}

/// `DashMap::insert`: sets the entry of `key` and returns the value it
/// replaced, if any.
#[verifier::external_body]
pub(crate) fn peers_insert(m: &mut DashMap<String, u64>, key: String, conn: u64) -> (r: Option<u64>)
    ensures
        peer_entries(*final(m)) == peer_entries(*old(m)).insert(key@, conn),
        r == (if peer_entries(*old(m)).contains_key(key@) {
            Some(peer_entries(*old(m))[key@])
        } else {
            None::<u64>
        }),
{
    m.insert(key, conn)
}

/// `DashMap::remove`: drops the entry of `key` and returns it, if any.
#[verifier::external_body]
pub(crate) fn peers_remove(m: &mut DashMap<String, u64>, key: &String) -> (r: Option<(String, u64)>)
    ensures
        peer_entries(*final(m)) == peer_entries(*old(m)).remove(key@),
        r is Some <==> peer_entries(*old(m)).contains_key(key@),
        r matches Some(e) ==> e.0@ == key@ && e.1 == peer_entries(*old(m))[key@],
{
    m.remove(key)
}

/// `DashMap::get`, reading the value out of the guard.
#[verifier::external_body]
pub(crate) fn peers_get(m: &DashMap<String, u64>, key: &String) -> (r: Option<u64>)
    ensures
        r == (if peer_entries(*m).contains_key(key@) {
            Some(peer_entries(*m)[key@])
        } else {
            None::<u64>
        }),
{
    m.get(key).map(|e| *e.value())
}

/// `DashMap::len`: the number of entries.
#[verifier::external_body]
pub(crate) fn peers_len(m: &DashMap<String, u64>) -> (r: usize)
    ensures
        r == peer_entries(*m).len(),
{
    m.len()
}

/// `DashMap::iter`, each entry copied out as a (key, value) pair. Every
/// entry comes out exactly once; the order is the map's own (it depends on
/// the hasher's per-process seed) and is left open.
#[verifier::external_body]
pub(crate) fn peers_entries(m: &DashMap<String, u64>) -> (r: Vec<(String, u64)>)
    ensures
        forall|i: int|
            0 <= i < r@.len() ==> peer_entries(*m).contains_key(#[trigger] r@[i].0@)
                && peer_entries(*m)[r@[i].0@] == r@[i].1,
        forall|k: Seq<char>|
            #[trigger] peer_entries(*m).contains_key(k) ==> exists|i: int|
                0 <= i < r@.len() && #[trigger] r@[i].0@ == k,
        forall|i: int, j: int| 0 <= i < j < r@.len() ==> #[trigger] r@[i].0@ != #[trigger] r@[j].0@,
{
    m.iter().map(|e| (e.key().clone(), *e.value())).collect()
}

/// `DashMap::new`: a registry with no rooms.
#[verifier::external_body]
pub(crate) fn rooms_new() -> (r: DashMap<String, Room>)
    ensures
        room_entries(r).is_empty(),
{
    DashMap::new()
}

/// `DashMap::insert` on the registry: sets the room of `key`.
#[verifier::external_body]
pub(crate) fn rooms_insert(m: &mut DashMap<String, Room>, key: String, room: Room) -> (r: Option<Room>)
    ensures
        room_entries(*final(m)) == room_entries(*old(m)).insert(key@, room),
        r is Some <==> room_entries(*old(m)).contains_key(key@),
        r matches Some(o) ==> o == room_entries(*old(m))[key@],
{
    m.insert(key, room)
}

/// `DashMap::remove` on the registry: takes the room of `key` out, if any.
#[verifier::external_body]
pub(crate) fn rooms_remove(m: &mut DashMap<String, Room>, key: &String) -> (r: Option<(String, Room)>)
    ensures
        room_entries(*final(m)) == room_entries(*old(m)).remove(key@),
        r is Some <==> room_entries(*old(m)).contains_key(key@),
        r matches Some(e) ==> e.0@ == key@ && e.1 == room_entries(*old(m))[key@],
{
    m.remove(key)
}

/// `DashMap::contains_key` on the registry.
#[verifier::external_body]
pub(crate) fn rooms_contains(m: &DashMap<String, Room>, key: &String) -> (r: bool)
    ensures
        r == room_entries(*m).contains_key(key@),
{
    m.contains_key(key)
}

/// `DashMap::len` on the registry: the number of rooms.
#[verifier::external_body]
pub(crate) fn rooms_len(m: &DashMap<String, Room>) -> (r: usize)
    ensures
        r == room_entries(*m).len(),
{
    m.len()
}

} // verus!
