use lobby::registry::{AllocError, Lobbies, MAX_CODE_AGE_SECS};
use lobby::room_code::RoomCode;

#[test]
fn contains() {
    let mut codes = Lobbies::new();
    let code = codes.create_code(0).unwrap();
    assert!(codes.contains(&code));
}

#[test]
fn create_code_twice_gives_distinct_codes() {
    let mut codes = Lobbies::new();
    let first = codes.create_code(0).unwrap();
    let second = codes.create_code(0).unwrap();
    assert_ne!(first, second);
    assert!(codes.contains(&first));
    assert!(codes.contains(&second));
}

#[test]
fn create_many_without_removal_all_distinct() {
    let mut codes = Lobbies::new();
    let mut seen: Vec<RoomCode> = Vec::new();
    for _ in 0..50 {
        let code = codes.create_code(7).unwrap();
        assert!(!seen.contains(&code));
        seen.push(code);
    }
}

#[test]
fn get_resolves_only_registered_codes() {
    let mut codes = Lobbies::new();
    let code = codes.create_code(42).unwrap();
    let room = codes.get(&code).expect("created room must resolve");
    assert_eq!(0, room.player_count());
    assert!(!room.has_started());
    assert!(!room.is_public());
    assert_eq!(42, room.updated());

    let other = if code.to_index() == 0 {
        RoomCode::from_index(1)
    } else {
        RoomCode::from_index(0)
    };
    assert!(codes.get(&other).is_none());
}

#[test]
fn remove_unregisters() {
    let mut codes = Lobbies::new();
    let code = codes.create_code(0).unwrap();
    codes.remove(&code);
    assert!(!codes.contains(&code));
    assert!(codes.get(&code).is_none());
}

#[test]
fn purge_removes_exactly_the_idle_rooms() {
    let mut codes = Lobbies::new();
    let stale = codes.create_code(0).unwrap();
    let fresh = codes.create_code(1).unwrap();
    // At exactly the threshold the room counts as idle; one second less and
    // it is retained.
    codes.purge(MAX_CODE_AGE_SECS);
    assert!(!codes.contains(&stale));
    assert!(codes.contains(&fresh));
    assert_eq!(1, codes.get(&fresh).unwrap().updated());
}

#[test]
fn purge_keeps_touched_rooms() {
    let mut codes = Lobbies::new();
    let code = codes.create_code(0).unwrap();
    let i = codes.index_of(&code).unwrap();
    codes.lobby_at_mut(i).update(4000);
    codes.purge(MAX_CODE_AGE_SECS + 100);
    assert!(codes.contains(&code));
}

#[test]
fn list_public_shows_only_public_rooms() {
    let mut codes = Lobbies::new();
    let hidden = codes.create_code(0).unwrap();
    let listed = codes.create_code(0).unwrap();
    let i = codes.index_of(&listed).unwrap();
    let mut handle = lobby::handler::PlayerHandle::new(lobby::room::Player::new(
        "host",
        codes.lobby_at_mut(i),
        0,
    ));
    let room = codes.lobby_at_mut(i);
    handle.handle(
        room,
        lobby::room_event::RoomEvent::PlayerJoined { name: "Ann".to_string(), id: None },
        1,
    );
    handle.handle(room, lobby::room_event::RoomEvent::SetPublic(true), 2);

    let public = codes.list_public();
    assert_eq!(1, public.len());
    assert_eq!(listed, public[0]);
    assert_ne!(hidden, public[0]);
}

#[test]
fn display_name_prefers_the_host() {
    let mut codes = Lobbies::new();
    let code = codes.create_code(0).unwrap();
    let i = codes.index_of(&code).unwrap();
    {
        let room = codes.lobby_at_mut(i);
        assert_eq!(code.as_string(), room.display_name(&code));
        let mut handle =
            lobby::handler::PlayerHandle::new(lobby::room::Player::new("", room, 0));
        handle.handle(
            room,
            lobby::room_event::RoomEvent::PlayerJoined { name: "Ann".to_string(), id: None },
            1,
        );
        assert_eq!("Ann's lobby", room.display_name(&code));
    }
}

#[test]
fn space_exhausted_is_reported_without_panic() {
    // `create_code` fails only when every slot is occupied; on a registry
    // that cannot be full it must keep succeeding.
    let mut codes = Lobbies::new();
    for _ in 0..3 {
        match codes.create_code(0) {
            Ok(_) => {},
            Err(AllocError::SpaceExhausted) => panic!("space cannot be exhausted here"),
        }
    }
}
