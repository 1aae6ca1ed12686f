use lobby::handler::{Output, Phase, PlayerHandle, HEARTBEAT_TIMEOUT_SECS};
use lobby::room::{Delivery, Lobby, Player};
use lobby::room_event::{Role, RoomEvent};

fn join(lobby: &mut Lobby, name: &str, now: u64) -> (PlayerHandle, Output) {
    let mut handle = PlayerHandle::new(Player::new("", lobby, now));
    let out = handle.handle(
        lobby,
        RoomEvent::PlayerJoined { name: name.to_string(), id: None },
        now,
    );
    (handle, out)
}

fn delivery_targets(deliveries: &[Delivery]) -> Vec<usize> {
    deliveries.iter().map(|d| d.to).collect()
}

#[test]
fn first_join_creates_the_host() {
    // Scenario: create a room, join as Alice.
    let mut room = Lobby::new(0);
    let (alice, out) = join(&mut room, "Alice", 1);

    match out.reply {
        Some(RoomEvent::InitData { players, id, role }) => {
            assert!(players.is_empty());
            assert_eq!(0, id);
            assert_eq!(Role::Host, role);
        },
        _ => panic!("expected InitData"),
    }
    assert!(out.joined);
    assert!(!out.stop);
    assert_eq!(vec![0], delivery_targets(&out.deliveries));
    match &out.deliveries[0].event {
        RoomEvent::PlayerJoined { name, id } => {
            assert_eq!("Alice", name.as_str());
            assert_eq!(&Some(0), id);
        },
        _ => panic!("expected PlayerJoined broadcast"),
    }
    assert_eq!(Phase::Joined, alice.phase);
    assert_eq!(Role::Host, alice.player.role);
    assert_eq!(1, room.player_count());
}

#[test]
fn second_join_is_a_plain_player() {
    // Scenario: Alice is host, then Bob joins.
    let mut room = Lobby::new(0);
    let (_alice, _) = join(&mut room, "Alice", 1);
    let (bob, out) = join(&mut room, "Bob", 2);

    match out.reply {
        Some(RoomEvent::InitData { players, id, role }) => {
            assert_eq!(1, players.len());
            assert_eq!("Alice", players[0].name);
            assert_eq!(0, players[0].id);
            assert_eq!(1, id);
            assert_eq!(Role::Player, role);
        },
        _ => panic!("expected InitData"),
    }
    assert_eq!(vec![0, 1], delivery_targets(&out.deliveries));
    for d in &out.deliveries {
        match &d.event {
            RoomEvent::PlayerJoined { name, id } => {
                assert_eq!("Bob", name.as_str());
                assert_eq!(&Some(1), id);
            },
            _ => panic!("expected PlayerJoined broadcast"),
        }
    }
    assert_eq!(Role::Player, bob.player.role);
    assert_eq!(2, room.player_count());
}

#[test]
fn chat_is_broadcast_with_the_sender_id() {
    // Scenario: Bob sends a chat line; both members receive it with Bob's id.
    let mut room = Lobby::new(0);
    let (_alice, _) = join(&mut room, "Alice", 1);
    let (mut bob, _) = join(&mut room, "Bob", 2);

    let out = bob.handle(
        &mut room,
        RoomEvent::ChatMessage { msg: "hi".to_string(), id: None },
        3,
    );
    assert_eq!(vec![0, 1], delivery_targets(&out.deliveries));
    for d in &out.deliveries {
        match &d.event {
            RoomEvent::ChatMessage { msg, id } => {
                assert_eq!("hi", msg.as_str());
                assert_eq!(&Some(1), id);
            },
            _ => panic!("expected ChatMessage broadcast"),
        }
    }
    assert_eq!(3, room.updated());
}

#[test]
fn empty_chat_is_dropped() {
    let mut room = Lobby::new(0);
    let (mut alice, _) = join(&mut room, "Alice", 1);
    let out = alice.handle(&mut room, RoomEvent::ChatMessage { msg: String::new(), id: None }, 2);
    assert!(out.deliveries.is_empty());
    assert!(out.reply.is_none());
}

#[test]
fn game_start_closes_the_room_to_late_joiners() {
    // Scenario: Alice starts the game; a third join attempt is rejected.
    let mut room = Lobby::new(0);
    let (mut alice, _) = join(&mut room, "Alice", 1);
    let (_bob, _) = join(&mut room, "Bob", 2);

    let out = alice.handle(&mut room, RoomEvent::GameStart("{}".to_string()), 3);
    assert!(room.has_started());
    assert_eq!(vec![0, 1], delivery_targets(&out.deliveries));
    assert!(matches!(&out.deliveries[0].event, RoomEvent::GameStart(p) if p.as_str() == "{}"));

    let (carol, out) = join(&mut room, "Carol", 4);
    assert!(matches!(out.reply, Some(RoomEvent::GameInProgress)));
    assert!(out.stop);
    assert!(!out.joined);
    assert!(out.deliveries.is_empty());
    assert_eq!(Phase::Closed, carol.phase);
    assert_eq!(2, room.player_count());
}

#[test]
fn reset_reopens_the_room() {
    let mut room = Lobby::new(0);
    let (mut alice, _) = join(&mut room, "Alice", 1);
    alice.handle(&mut room, RoomEvent::GameStart("{}".to_string()), 2);
    let out = alice.handle(&mut room, RoomEvent::Reset, 3);
    assert!(!room.has_started());
    assert_eq!(vec![0], delivery_targets(&out.deliveries));
    assert!(matches!(out.deliveries[0].event, RoomEvent::Reset));
}

#[test]
fn set_public_is_host_local() {
    let mut room = Lobby::new(0);
    let (mut alice, _) = join(&mut room, "Alice", 1);
    let out = alice.handle(&mut room, RoomEvent::SetPublic(true), 2);
    assert!(room.is_public());
    assert!(out.deliveries.is_empty());
    assert!(out.reply.is_none());
}

#[test]
fn non_host_gated_events_do_nothing() {
    // GameStart, Reset, SetPublic, FromHost and HostEvent from a non-host
    // sender: no state change, no broadcast.
    let mut room = Lobby::new(0);
    let (_alice, _) = join(&mut room, "Alice", 1);
    let (mut bob, _) = join(&mut room, "Bob", 2);

    let events = vec![
        RoomEvent::GameStart("{}".to_string()),
        RoomEvent::Reset,
        RoomEvent::SetPublic(true),
        RoomEvent::FromHost { id: 0, msg: "x".to_string() },
        RoomEvent::HostEvent("x".to_string()),
    ];
    for event in events {
        let out = bob.handle(&mut room, event, 3);
        assert!(out.deliveries.is_empty());
        assert!(out.reply.is_none());
        assert!(!out.stop);
        assert!(!room.has_started());
        assert!(!room.is_public());
        assert_eq!(2, room.player_count());
    }
}

#[test]
fn game_event_is_open_to_everyone() {
    let mut room = Lobby::new(0);
    let (_alice, _) = join(&mut room, "Alice", 1);
    let (mut bob, _) = join(&mut room, "Bob", 2);
    let out = bob.handle(&mut room, RoomEvent::GameEvent("17".to_string()), 3);
    assert_eq!(vec![0, 1], delivery_targets(&out.deliveries));
    assert!(matches!(&out.deliveries[0].event, RoomEvent::GameEvent(p) if p.as_str() == "17"));
}

#[test]
fn to_host_reaches_only_the_host() {
    let mut room = Lobby::new(0);
    let (_alice, _) = join(&mut room, "Alice", 1);
    let (mut bob, _) = join(&mut room, "Bob", 2);
    let out = bob.handle(&mut room, RoomEvent::ToHost("ping".to_string()), 3);
    assert_eq!(vec![0], delivery_targets(&out.deliveries));
    assert!(matches!(&out.deliveries[0].event, RoomEvent::ToHost(p) if p.as_str() == "ping"));
}

#[test]
fn to_host_without_a_host_is_silent() {
    // The host leaves; no re-election happens, and ToHost goes nowhere.
    let mut room = Lobby::new(0);
    let (mut alice, _) = join(&mut room, "Alice", 1);
    let (mut bob, _) = join(&mut room, "Bob", 2);
    alice.disconnect(&mut room);
    assert!(room.host().is_none());

    let out = bob.handle(&mut room, RoomEvent::ToHost("ping".to_string()), 3);
    assert!(out.deliveries.is_empty());
    assert!(out.reply.is_none());
    assert_eq!(1, room.player_count());
}

#[test]
fn from_host_reaches_the_addressed_member() {
    let mut room = Lobby::new(0);
    let (mut alice, _) = join(&mut room, "Alice", 1);
    let (_bob, _) = join(&mut room, "Bob", 2);
    let out = alice.handle(
        &mut room,
        RoomEvent::FromHost { id: 1, msg: "go".to_string() },
        3,
    );
    assert_eq!(vec![1], delivery_targets(&out.deliveries));
    match &out.deliveries[0].event {
        RoomEvent::FromHost { id, msg } => {
            assert_eq!(&1, id);
            assert_eq!("go", msg.as_str());
        },
        _ => panic!("expected FromHost delivery"),
    }
}

#[test]
fn from_host_to_an_absent_id_is_silent() {
    let mut room = Lobby::new(0);
    let (mut alice, _) = join(&mut room, "Alice", 1);
    let out = alice.handle(
        &mut room,
        RoomEvent::FromHost { id: 9, msg: "go".to_string() },
        2,
    );
    assert!(out.deliveries.is_empty());
}

#[test]
fn player_left_removes_and_rebroadcasts() {
    let mut room = Lobby::new(0);
    let (mut alice, _) = join(&mut room, "Alice", 1);
    let (_bob, _) = join(&mut room, "Bob", 2);
    let out = alice.handle(&mut room, RoomEvent::PlayerLeft { id: 1 }, 3);
    assert_eq!(1, room.player_count());
    assert_eq!(Some(1), out.removed_id);
    assert_eq!(vec![0], delivery_targets(&out.deliveries));
    assert!(matches!(out.deliveries[0].event, RoomEvent::PlayerLeft { id: 1 }));
}

#[test]
fn events_before_joining_are_ignored() {
    let mut room = Lobby::new(0);
    let mut handle = PlayerHandle::new(Player::new("", &mut room, 0));
    let out = handle.handle(
        &mut room,
        RoomEvent::ChatMessage { msg: "hi".to_string(), id: None },
        1,
    );
    assert!(out.deliveries.is_empty());
    assert!(out.reply.is_none());
    assert_eq!(Phase::Connecting, handle.phase);
    assert_eq!(0, room.player_count());
    assert_eq!(1, room.updated());
}

#[test]
fn heartbeat_timeout_boundary() {
    let mut room = Lobby::new(0);
    let (bob, _) = join(&mut room, "Bob", 100);
    assert!(!bob.hb_expired(100));
    assert!(!bob.hb_expired(100 + HEARTBEAT_TIMEOUT_SECS));
    assert!(bob.hb_expired(100 + HEARTBEAT_TIMEOUT_SECS + 1));
    // A clock that moved backwards does not count as silence.
    assert!(!bob.hb_expired(0));
}

#[test]
fn dead_connection_cleanup_runs_once() {
    // Scenario: Bob goes silent past the heartbeat timeout; the handler
    // closes his connection, Alice hears PlayerLeft, and the next joiner's
    // snapshot no longer holds Bob.
    let mut room = Lobby::new(0);
    let (_alice, _) = join(&mut room, "Alice", 1);
    let (mut bob, _) = join(&mut room, "Bob", 2);

    assert!(bob.hb_expired(2 + HEARTBEAT_TIMEOUT_SECS + 1));
    let out = bob.disconnect(&mut room);
    assert!(out.stop);
    assert_eq!(Some(1), out.removed_id);
    assert_eq!(vec![0], delivery_targets(&out.deliveries));
    assert!(matches!(out.deliveries[0].event, RoomEvent::PlayerLeft { id: 1 }));
    assert_eq!(Phase::Closed, bob.phase);
    assert_eq!(1, room.player_count());

    // A second termination of the same connection does nothing more.
    let again = bob.disconnect(&mut room);
    assert!(again.deliveries.is_empty());
    assert!(again.removed_id.is_none());
    assert_eq!(1, room.player_count());

    // Bob is gone from the snapshot a future joiner sees.
    let (_carol, out) = join(&mut room, "Carol", 20);
    match out.reply {
        Some(RoomEvent::InitData { players, id, role }) => {
            assert_eq!(1, players.len());
            assert_eq!("Alice", players[0].name);
            assert_eq!(1, id);
            assert_eq!(Role::Player, role);
        },
        _ => panic!("expected InitData"),
    }
}

#[test]
fn joins_while_joined_are_ignored() {
    let mut room = Lobby::new(0);
    let (mut alice, _) = join(&mut room, "Alice", 1);
    let out = alice.handle(
        &mut room,
        RoomEvent::PlayerJoined { name: "Alice2".to_string(), id: None },
        2,
    );
    assert!(out.deliveries.is_empty());
    assert!(out.reply.is_none());
    assert!(!out.joined);
    assert_eq!(1, room.player_count());
    assert_eq!("Alice", room.host().unwrap().name());
}

#[test]
fn ids_can_repeat_after_departures() {
    // Ids are assigned as the member count, so after a departure a joiner
    // can receive an id an existing member already holds; a directed
    // message then goes to the first member with that id, in join order.
    let mut room = Lobby::new(0);
    let (mut alice, _) = join(&mut room, "Alice", 1);
    let (mut bob, _) = join(&mut room, "Bob", 2);
    let (_carol, _) = join(&mut room, "Carol", 3);

    bob.disconnect(&mut room);
    let (dave, _) = join(&mut room, "Dave", 4);
    assert_eq!(2, dave.player.id); // same id as Carol

    let out = alice.handle(
        &mut room,
        RoomEvent::FromHost { id: 2, msg: "m".to_string() },
        5,
    );
    // Members are now [Alice 0, Carol 2, Dave 2]; the first id-2 member is
    // Carol at index 1.
    assert_eq!(vec![1], delivery_targets(&out.deliveries));
}
