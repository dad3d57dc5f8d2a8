use lishuuro::connection::{room_from_route, ConnectionState, CurrentRoom};
use lishuuro::messages::MessageType;

#[test]
fn route_strings_name_their_rooms() {
    assert!(matches!(room_from_route(&String::from("home")), CurrentRoom::Home));
    assert!(matches!(room_from_route(&String::from("tv")), CurrentRoom::Tv));
    match room_from_route(&String::from("/game/abc123")) {
        CurrentRoom::Game(id) => assert_eq!(id, "abc123"),
        _ => panic!("a game route binds the game room"),
    }
    match room_from_route(&String::from("/game/")) {
        CurrentRoom::Game(id) => assert_eq!(id, ""),
        _ => panic!("an empty id still names the game room"),
    }
    assert!(matches!(room_from_route(&String::from("lobby")), CurrentRoom::NoRoom));
    assert!(matches!(room_from_route(&String::from("/games/x")), CurrentRoom::NoRoom));
    assert!(matches!(room_from_route(&String::from("")), CurrentRoom::NoRoom));
}

#[test]
fn changing_to_the_same_room_is_silent() {
    let mut c = ConnectionState::new();
    assert!(c.change_room(CurrentRoom::Home).is_some());
    assert!(c.change_room(CurrentRoom::Home).is_none());
    assert!(c.change_room(CurrentRoom::Game(String::from("g1"))).is_some());
    assert!(c.change_room(CurrentRoom::Game(String::from("g1"))).is_none());
    assert!(c.change_room(CurrentRoom::Game(String::from("g2"))).is_some());
}

#[test]
fn changing_room_hands_back_the_left_room_and_drops_the_game() {
    let mut c = ConnectionState::new();
    let _ = c.change_room(CurrentRoom::Game(String::from("g1")));
    c.bind_game(true);
    assert!(c.in_game);
    let left = c.change_room(CurrentRoom::Tv).expect("a different room");
    match left {
        CurrentRoom::Game(id) => assert_eq!(id, "g1"),
        _ => panic!("the left room is the game"),
    }
    assert!(!c.in_game, "the game binding falls with the room");
}

#[test]
fn forward_rules_match_the_rooms() {
    let mut c = ConnectionState::new();
    let _ = c.change_room(CurrentRoom::Home);
    assert!(c.forward_allowed(&MessageType::AddGameRequest, false));
    assert!(!c.forward_allowed(&MessageType::GetTv, false));
    assert!(!c.forward_allowed(&MessageType::MovePiece, false));

    let _ = c.change_room(CurrentRoom::Tv);
    assert!(c.forward_allowed(&MessageType::GetTv, false));
    assert!(!c.forward_allowed(&MessageType::AddGameRequest, false));

    let _ = c.change_room(CurrentRoom::Game(String::from("g1")));
    assert!(!c.forward_allowed(&MessageType::MovePiece, false), "no mailbox bound yet");
    c.bind_game(true);
    for t in [
        MessageType::GetHand,
        MessageType::SelectMove,
        MessageType::PlacePiece,
        MessageType::MovePiece,
        MessageType::ConfirmSelection,
        MessageType::Draw,
        MessageType::Resign,
    ] {
        assert!(c.forward_allowed(&t, false), "{:?} goes to the bound game", t);
    }
    assert!(!c.forward_allowed(&MessageType::AddGameRequest, false));
}

#[test]
fn shutdown_order_needs_the_operator() {
    let c = ConnectionState::new();
    assert!(!c.forward_allowed(&MessageType::SaveState, false));
    assert!(c.forward_allowed(&MessageType::SaveState, true));
}

#[test]
fn unroutable_tags_are_dropped() {
    let mut c = ConnectionState::new();
    let _ = c.change_room(CurrentRoom::Home);
    assert!(!c.forward_allowed(&MessageType::GameEnd, true));
    assert!(!c.forward_allowed(&MessageType::ReloadJinja, true));
}
