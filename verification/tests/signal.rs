use vauid::proto::{IceCandidate, ServerEvent, SessionDescription, SignalMessage};
use vauid::signal::server::{cleanup, handle_message};
use vauid::signal::{AppState, Delivery, JoinError, Room, RoomRegistry, Session};

fn join(state: &mut AppState, s: &mut Session, room: &str, client: &str) -> Vec<Delivery> {
    let h = handle_message(
        SignalMessage::Join { room: room.into(), client: client.into() },
        state,
        s,
    );
    assert!(!h.close);
    h.deliveries
}

fn only(ds: Vec<Delivery>) -> (u64, ServerEvent) {
    assert_eq!(ds.len(), 1, "expected one delivery");
    let d = ds.into_iter().next().unwrap();
    (d.conn, d.event)
}

fn is_event(e: &ServerEvent, expected: &ServerEvent) -> bool {
    format!("{e:?}") == format!("{expected:?}")
}

/// join -> joined / peer_joined
#[test]
fn join_broadcasts_peer_joined() {
    let mut state = AppState::new();
    let mut a = Session::new(1);
    let (conn, evt) = only(join(&mut state, &mut a, "r1", "a"));
    assert_eq!(conn, 1);
    assert!(is_event(&evt, &ServerEvent::Joined { you: "a".into(), clients: vec![] }));

    let mut b = Session::new(2);
    let ds = join(&mut state, &mut b, "r1", "b");
    assert_eq!(ds.len(), 2);
    assert_eq!(ds[0].conn, 2);
    assert!(is_event(&ds[0].event, &ServerEvent::Joined { you: "b".into(), clients: vec!["a".into()] }));
    assert_eq!(ds[1].conn, 1);
    assert_eq!(ds[1].to, "a");
    assert!(is_event(&ds[1].event, &ServerEvent::PeerJoined { client: "b".into() }));
}

/// offer / answer / ice reach their target only
#[test]
fn relays_sdp_and_ice_between_peers() {
    let mut state = AppState::new();
    let mut a = Session::new(1);
    let mut b = Session::new(2);
    join(&mut state, &mut a, "r2", "a");
    join(&mut state, &mut b, "r2", "b");

    let offer = SessionDescription { sdp_type: "offer".into(), sdp: "v=0 fake-sdp".into() };
    let h = handle_message(SignalMessage::Offer { to: "b".into(), sdp: offer.clone() }, &mut state, &mut a);
    assert!(!h.close);
    let (conn, evt) = only(h.deliveries);
    assert_eq!(conn, 2);
    assert!(is_event(&evt, &ServerEvent::Offer { from: "a".into(), sdp: offer }));

    let answer = SessionDescription { sdp_type: "answer".into(), sdp: "v=0 fake-answer".into() };
    let h = handle_message(SignalMessage::Answer { to: "a".into(), sdp: answer.clone() }, &mut state, &mut b);
    let (conn, evt) = only(h.deliveries);
    assert_eq!(conn, 1);
    assert!(is_event(&evt, &ServerEvent::Answer { from: "b".into(), sdp: answer }));

    let candidate = IceCandidate {
        candidate: "candidate:1 1 udp 2130706431 192.0.2.1 5000 typ host".into(),
        sdp_mid: Some("0".into()),
        sdp_mline_index: Some(0),
        username_fragment: None,
    };
    let h = handle_message(SignalMessage::Ice { to: "b".into(), candidate: candidate.clone() }, &mut state, &mut a);
    let (conn, evt) = only(h.deliveries);
    assert_eq!(conn, 2);
    assert!(is_event(&evt, &ServerEvent::Ice { from: "a".into(), candidate }));

    // nobody called "z": the offer is dropped
    let h = handle_message(
        SignalMessage::Offer { to: "z".into(), sdp: SessionDescription { sdp_type: "offer".into(), sdp: String::new() } },
        &mut state,
        &mut a,
    );
    assert!(h.deliveries.is_empty());
}

#[test]
fn relay_before_join_is_dropped() {
    let mut state = AppState::new();
    let mut a = Session::new(1);
    let mut b = Session::new(2);
    join(&mut state, &mut b, "r", "b");
    let h = handle_message(
        SignalMessage::Offer { to: "b".into(), sdp: SessionDescription { sdp_type: "offer".into(), sdp: "x".into() } },
        &mut state,
        &mut a,
    );
    assert!(h.deliveries.is_empty());
    assert!(!h.close);
}

/// the connection ends -> the others get peer_left
#[test]
fn disconnect_broadcasts_peer_left() {
    let mut state = AppState::new();
    let mut a = Session::new(1);
    let mut b = Session::new(2);
    join(&mut state, &mut a, "r3", "a");
    join(&mut state, &mut b, "r3", "b");

    let (conn, evt) = only(cleanup(&mut state, &a));
    assert_eq!(conn, 2);
    assert!(is_event(&evt, &ServerEvent::PeerLeft { client: "a".into() }));
    assert_eq!(state.rooms.room_count(), 1);

    // the last one leaves: the room goes away
    assert!(cleanup(&mut state, &b).is_empty());
    assert_eq!(state.rooms.room_count(), 0);
}

/// explicit leave -> the others get peer_left and the connection closes
#[test]
fn explicit_leave_broadcasts_peer_left() {
    let mut state = AppState::new();
    let mut a = Session::new(1);
    let mut b = Session::new(2);
    join(&mut state, &mut a, "r4", "a");
    join(&mut state, &mut b, "r4", "b");

    let h = handle_message(SignalMessage::Leave, &mut state, &mut a);
    assert!(h.close);
    let (conn, evt) = only(h.deliveries);
    assert_eq!(conn, 2);
    assert!(is_event(&evt, &ServerEvent::PeerLeft { client: "a".into() }));
    assert!(a.me.is_none() && a.room_id.is_none());
}

/// a second join under a taken id is refused: no event at all
#[test]
fn duplicate_client_id_join_rejected() {
    let mut state = AppState::new();
    let mut a = Session::new(1);
    let mut b = Session::new(2);
    join(&mut state, &mut a, "r5", "a");
    join(&mut state, &mut b, "r5", "b");

    let mut c = Session::new(3);
    assert!(join(&mut state, &mut c, "r5", "a").is_empty());
    assert!(c.me.is_none());
    // an already joined connection ignores another join
    assert!(join(&mut state, &mut b, "r5", "a").is_empty());
    assert_eq!(b.me.as_deref(), Some("b"));
    // the room is unchanged: events for "a" still reach a's connection
    let h = handle_message(
        SignalMessage::Offer { to: "a".into(), sdp: SessionDescription { sdp_type: "offer".into(), sdp: "x".into() } },
        &mut state,
        &mut b,
    );
    let (conn, _) = only(h.deliveries);
    assert_eq!(conn, 1);
    // and when a leaves, only b is told
    let (conn, evt) = only(handle_message(SignalMessage::Leave, &mut state, &mut a).deliveries);
    assert_eq!(conn, 2);
    assert!(is_event(&evt, &ServerEvent::PeerLeft { client: "a".into() }));
}

#[test]
fn join_then_leave_restores_rooms() {
    let mut state = AppState::new();
    let mut a = Session::new(1);
    join(&mut state, &mut a, "room", "a");
    let mut b = Session::new(2);
    join(&mut state, &mut b, "room", "b");
    let h = handle_message(SignalMessage::Leave, &mut state, &mut b);
    assert_eq!(h.deliveries.len(), 1);
    assert_eq!(state.rooms.room_count(), 1);
    // a is still alone in the room
    let d = state.rooms.send_to(&"room".to_string(), &"a".to_string(), ServerEvent::PeerLeft { client: "x".into() });
    assert_eq!(d.map(|d| d.conn), Some(1));
    assert!(state.rooms.send_to(&"room".to_string(), &"b".to_string(), ServerEvent::PeerLeft { client: "x".into() }).is_none());
}

#[test]
fn room_membership() {
    let mut room = Room::new("r".into());
    assert_eq!(room.id(), "r");
    assert_eq!(room.peer_count(), 0);
    assert_eq!(room.join(&"a".into(), 1).unwrap(), Vec::<String>::new());
    let mut others = room.join(&"b".into(), 2).unwrap();
    others.sort();
    assert_eq!(others, vec!["a".to_string()]);
    assert_eq!(room.join(&"a".into(), 7), Err(JoinError::ClientIdTaken));
    assert_eq!(room.peer_count(), 2);
    // a refused join leaves the member on its own connection
    assert_eq!(room.send_to(&"a".into(), ServerEvent::PeerLeft { client: "q".into() }).unwrap().conn, 1);

    let mut ds = room.broadcast_except(&"a".into(), ServerEvent::PeerJoined { client: "c".into() });
    assert_eq!(ds.len(), 1);
    let d = ds.pop().unwrap();
    assert_eq!((d.to.as_str(), d.conn), ("b", 2));

    let mut all: Vec<(String, u64)> = room
        .broadcast_except(&"nobody".into(), ServerEvent::PeerJoined { client: "c".into() })
        .into_iter()
        .map(|d| (d.to, d.conn))
        .collect();
    all.sort();
    assert_eq!(all, vec![("a".to_string(), 1), ("b".to_string(), 2)]);

    assert!(!room.leave(&"a".into()));
    assert!(room.leave(&"b".into()));
    assert_eq!(room.peer_count(), 0);
}

#[test]
fn registry_rooms() {
    let mut reg = RoomRegistry::new();
    assert_eq!(reg.room_count(), 0);
    reg.get_or_create(&"r".into());
    reg.get_or_create(&"r".into());
    assert_eq!(reg.room_count(), 1);
    reg.cleanup(&"r".into());
    assert_eq!(reg.room_count(), 0);
    reg.join(&"r".into(), &"a".into(), 1).unwrap();
    reg.cleanup(&"r".into());
    assert_eq!(reg.room_count(), 1);
    assert_eq!(reg.join(&"r".into(), &"a".into(), 2), Err(JoinError::ClientIdTaken));
    let ds = reg.broadcast_except(&"r".into(), &"b".into(), ServerEvent::PeerLeft { client: "b".into() });
    assert_eq!(ds.len(), 1);
    assert_eq!(ds[0].conn, 1);
    assert!(reg.leave(&"r".into(), &"a".into()).is_empty());
    assert_eq!(reg.room_count(), 0);
    assert!(reg.leave(&"none".into(), &"a".into()).is_empty());
}
