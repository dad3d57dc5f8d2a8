use lishuuro::ai::{choose_placement, clamp_depth, fight_reply, pick_pocket, AiAction, Pockets};
use lishuuro::messages::MessageType;
use lishuuro::requests::{GameRequest, TypeOfGame, Variant};

fn request(minutes: i64, incr: i64) -> GameRequest {
    GameRequest {
        minutes,
        incr,
        variant: Variant::Shuuro,
        sub_variant: None,
        color: 2,
        game_type: TypeOfGame::VsFriend(String::from("bob")),
    }
}

#[test]
fn durations_come_from_the_whitelist() {
    for m in 1..=20i64 {
        assert!(request(m, 0).is_valid(), "{} minutes", m);
    }
    for m in [25i64, 30, 35, 40, 45, 60, 75, 90] {
        assert!(request(m, m).is_valid(), "{} minutes", m);
    }
    for m in [0i64, 21, 24, 46, 59, 91, 100, -5] {
        assert!(!request(m, 1).is_valid(), "{} minutes", m);
    }
    assert!(request(5, 0).is_valid(), "a zero increment is allowed");
    assert!(!request(5, 23).is_valid(), "the increment obeys the same whitelist");
}

#[test]
fn declared_color_beats_the_coin() {
    let mut r = request(5, 2);
    r.color = 0;
    let seats = r.colors_with(&String::from("me"), &String::from("you"), false);
    assert_eq!(seats, [String::from("me"), String::from("you")]);
    r.color = 1;
    let seats = r.colors_with(&String::from("me"), &String::from("you"), true);
    assert_eq!(seats, [String::from("you"), String::from("me")]);
}

#[test]
fn random_color_follows_the_coin() {
    let r = request(5, 2);
    let heads = r.colors_with(&String::from("me"), &String::from("you"), true);
    assert_eq!(heads, [String::from("me"), String::from("you")]);
    let tails = r.colors_with(&String::from("me"), &String::from("you"), false);
    assert_eq!(tails, [String::from("you"), String::from("me")]);
    // the tossing variant still seats each player exactly once
    let dealt = r.colors(&String::from("me"), &String::from("you"));
    assert!(dealt.contains(&String::from("me")) && dealt.contains(&String::from("you")));
}

#[test]
fn seat_name_strips_spaces_and_names_the_engine() {
    let friendly = TypeOfGame::VsFriend(String::from(" bo b "));
    assert_eq!(friendly.seat_name(), "bob");
    assert_eq!(friendly.player_name(), " bo b ");
    assert_eq!(friendly.depth(), 0);
    let engine = TypeOfGame::VsAi(3);
    assert_eq!(engine.seat_name(), "AI");
    assert_eq!(engine.depth(), 3);
}

#[test]
fn empty_request_matches_the_revival_seed() {
    let r = GameRequest::empty();
    assert_eq!(r.minutes, 1);
    assert_eq!(r.incr, 1);
    assert!(matches!(r.variant, Variant::Shuuro));
    assert!(r.sub_variant.is_none());
    assert_eq!(r.color, 2);
    assert!(matches!(r.game_type, TypeOfGame::VsFriend(ref n) if n.is_empty()));
}

#[test]
fn variant_numbers_round_trip() {
    for (v, n) in [
        (Variant::Shuuro, 0u8),
        (Variant::ShuuroFairy, 1),
        (Variant::Standard, 2),
        (Variant::StandardFairy, 3),
        (Variant::ShuuroMini, 4),
        (Variant::ShuuroMiniFairy, 5),
    ] {
        assert_eq!(v.index(), n);
        assert_eq!(Variant::from_index(n), v);
    }
    assert!(matches!(Variant::from_index(77), Variant::Shuuro));
}

#[test]
fn board_sizes_per_variant() {
    assert_eq!(Variant::Shuuro.board_size(), 12);
    assert_eq!(Variant::StandardFairy.board_size(), 8);
    assert_eq!(Variant::ShuuroMini.board_size(), 6);
}

#[test]
fn message_tags_keep_their_wire_numbers() {
    assert_eq!(MessageType::ChangeRoom.into_number(), 0);
    assert_eq!(MessageType::AddGameRequest.into_number(), 1);
    assert_eq!(MessageType::StartClock.into_number(), 5);
    assert_eq!(MessageType::GameEnd.into_number(), 15);
    assert_eq!(MessageType::GetTv.into_number(), 16);
    assert_eq!(MessageType::SaveState.into_number(), 20);
    assert_eq!(MessageType::ConfirmSelection.into_number(), 22);
    assert_eq!(MessageType::NewPlayer.into_number(), 23);
}

#[test]
fn search_depth_is_clamped() {
    assert_eq!(clamp_depth(9, Variant::Standard), 1, "out of range falls back to 1");
    assert_eq!(clamp_depth(3, Variant::Shuuro), 2, "depth 3 on the large board drops to 2");
    assert_eq!(clamp_depth(3, Variant::ShuuroFairy), 2);
    assert_eq!(clamp_depth(3, Variant::Standard), 3);
    assert_eq!(clamp_depth(2, Variant::Shuuro), 2);
    assert_eq!(clamp_depth(0, Variant::ShuuroMini), 0);
}

#[test]
fn pockets_split_their_config_lines() {
    let p = Pockets::from_config(
        String::from("qnn"),
        String::from("qnn,qaa"),
        String::from("qnn"),
        String::from("qnn"),
        String::from("qnnr,qrrb"),
        String::from("qnnrp"),
    );
    assert_eq!(p.large, vec!["qnnr", "qrrb"]);
    assert_eq!(p.mini_fairy, vec!["qnn", "qaa"]);
    assert_eq!(p.list_for(Variant::Shuuro), &p.large);
    assert_eq!(p.list_for(Variant::ShuuroMiniFairy), &p.mini_fairy);
}

#[test]
fn pocket_pick_cases_the_hand_for_its_side() {
    let list = vec![String::from("qNn"), String::from("rrk")];
    assert_eq!(pick_pocket(&list, 0, 0).unwrap(), "QNN");
    assert_eq!(pick_pocket(&list, 1, 1).unwrap(), "rrk");
    assert_eq!(pick_pocket(&list, 2, 1).unwrap(), "qnn", "the pick wraps around");
    assert!(pick_pocket(&Vec::new(), 0, 0).is_none());
}

#[test]
fn selection_script_emits_each_piece_then_confirms() {
    let moves = lishuuro::ai::selection_moves(&String::from("QNN"));
    assert_eq!(moves, vec!["+Q", "+N", "+N", "c"]);
}

#[test]
fn placement_pick_names_piece_and_square() {
    let options = vec![
        (String::from("N"), vec![String::from("c3"), String::from("d4")]),
        (String::from("R"), vec![String::from("a1")]),
    ];
    assert_eq!(choose_placement(&options, 0, 1).unwrap(), "N@d4");
    assert_eq!(choose_placement(&options, 1, 5).unwrap(), "R@a1");
    assert!(choose_placement(&Vec::new(), 0, 0).is_none());
    let empty_squares = vec![(String::from("N"), Vec::new())];
    assert!(choose_placement(&empty_squares, 0, 0).is_none());
}

#[test]
fn no_search_result_means_resignation() {
    assert!(matches!(fight_reply(None), AiAction::Resign));
    match fight_reply(Some(String::from("a1_a2"))) {
        AiAction::Play(m) => assert_eq!(m, "a1_a2"),
        _ => panic!("a found move is played"),
    }
}
