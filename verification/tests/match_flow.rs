use lishuuro::game::{Outcome, ShuuroGame};
use lishuuro::match_actor::{
    ClickGate, ClockTickOutcome, ConfirmOutcome, DrawOutcome, GameActor, JoinOutcome,
};
use lishuuro::messages::MessageType;
use lishuuro::ai::selection_moves;
use lishuuro::lobby::{AddRequestOutcome, Lobby};
use lishuuro::requests::{GameRequest, TypeOfGame, Variant};

fn request(minutes: i64, incr: i64) -> GameRequest {
    GameRequest {
        minutes,
        incr,
        variant: Variant::Standard,
        sub_variant: None,
        color: 0,
        game_type: TypeOfGame::VsFriend(String::from("bob")),
    }
}

fn actor(minutes: i64, incr: i64) -> GameActor {
    let req = request(minutes, incr);
    let game = ShuuroGame::from_request(
        &req,
        [String::from("alice"), String::from("bob")],
        String::from("game1"),
        0,
    );
    GameActor::new(game, String::from("alice"), String::from("bob"), false)
}

#[test]
fn eleventh_distinct_join_is_not_a_subscriber() {
    let mut a = actor(5, 2);
    a.started = true;
    for i in 0..10u64 {
        let name = format!("watcher{}", i);
        match a.handle_join(name, i, 0) {
            JoinOutcome::Watching => {}
            _ => panic!("join under the cap must subscribe"),
        }
    }
    assert_eq!(a.watchers.player_count(), 10);
    match a.handle_join(String::from("latecomer"), 99, 0) {
        JoinOutcome::Full => {}
        _ => panic!("the eleventh distinct join must be ignored"),
    }
    assert_eq!(a.watchers.player_count(), 10);
}

#[test]
fn expected_opponent_join_starts_the_match() {
    let mut a = actor(5, 2);
    match a.handle_join(String::from("bob"), 7, 123) {
        JoinOutcome::Started { start, opponent } => {
            assert!(matches!(start.t, MessageType::StartClock));
            assert_eq!(start.players[0], "alice");
            assert_eq!(start.players[1], "bob");
            assert_eq!(start.click, 123);
            assert_eq!(opponent, "bob");
        }
        _ => panic!("the declared friend must take the seat"),
    }
    assert!(a.started);
    // a stranger may watch but the caller cannot take the other seat
    match a.handle_join(String::from("carol"), 8, 124) {
        JoinOutcome::Watching => {}
        _ => panic!("a started match only gains watchers"),
    }
}

#[test]
fn four_unstarted_ticks_abort_the_match() {
    let mut a = actor(5, 2);
    for _ in 0..3 {
        match a.handle_check_clock([false, false], 0) {
            ClockTickOutcome::Waiting => {}
            _ => panic!("early ticks only wait"),
        }
    }
    match a.handle_check_clock([false, false], 0) {
        ClockTickOutcome::AbortNow => {}
        _ => panic!("the fourth unstarted tick must abort"),
    }
    let close = a.handle_abort();
    let end = close.notify.expect("abort broadcasts a terminal notice");
    assert_eq!(end.status, 10);
    assert_eq!(end.result, 2);
}

#[test]
fn draw_offer_then_agreement_ends_at_five_two() {
    let mut a = actor(5, 2);
    a.started = true;
    match a.handle_draw(&String::from("bob")) {
        DrawOutcome::Offered { to, msg } => {
            assert_eq!(to, "alice");
            assert!(msg.draw_offer);
            assert_eq!(msg.end, -2);
        }
        _ => panic!("first draw is an offer"),
    }
    match a.handle_draw(&String::from("alice")) {
        DrawOutcome::Agreed { close } => {
            let end = close.notify.expect("agreement is broadcast");
            assert_eq!(end.status, 5);
            assert_eq!(end.result, 2);
        }
        _ => panic!("second draw agrees"),
    }
    assert_eq!(a.game.status, 5);
    assert_eq!(a.game.result, 2);
}

#[test]
fn a_move_wipes_a_pending_draw_offer() {
    let mut a = actor(5, 2);
    a.started = true;
    let _ = a.handle_draw(&String::from("bob"));
    assert_eq!(a.game.draws, [false, true]);
    a.apply_select(0, String::from("Q"));
    assert_eq!(a.game.draws, [false, false]);
}

#[test]
fn stranger_draw_and_resign_are_ignored() {
    let mut a = actor(5, 2);
    a.started = true;
    assert!(matches!(a.handle_draw(&String::from("mallory")), DrawOutcome::Ignored));
    assert!(a.handle_resign(&String::from("mallory"), 0).is_none());
}

#[test]
fn resignation_records_the_resigner() {
    let mut a = actor(5, 2);
    a.started = true;
    let close = a.handle_resign(&String::from("bob"), 500).expect("participant may resign");
    let end = close.notify.expect("resignation is broadcast");
    assert_eq!(end.status, 7);
    assert_eq!(end.result, 1);
    assert_eq!(a.game.status, 7);
    assert_eq!(a.game.result, 1);
}

#[test]
fn fight_checkmate_broadcasts_one_zero_then_closes() {
    let mut a = actor(5, 2);
    a.started = true;
    a.game.current_stage = 2;
    a.game.tc.update_stage(2, 0);
    let gate = a.click_gate(&String::from("alice"), 2, 0, true, 1_000);
    let (index, clocks) = match gate {
        ClickGate::Ready { index, clocks } => (index, clocks),
        _ => panic!("white to move with time left"),
    };
    let out = a.apply_fight(
        index,
        clocks,
        String::from("e4_e8"),
        Outcome::Checkmate { color: 0 },
        String::from("final-sfen"),
        1_000,
    );
    assert_eq!(out.msg.status, 1);
    assert_eq!(out.msg.result, 0);
    assert!(matches!(out.msg.t, MessageType::MovePiece));
    let close = out.close.expect("checkmate closes the match");
    let end = close.notify.expect("terminal notice owed");
    assert_eq!(end.status, 1);
    assert_eq!(end.result, 0);
    assert_eq!(a.game.side_to_move, 1, "the turn flips after a legal fight move");
    assert_eq!(a.game.history.2.len(), 1);
}

#[test]
fn fight_move_alternates_side_to_move() {
    let mut a = actor(5, 2);
    a.started = true;
    a.game.current_stage = 2;
    a.game.tc.update_stage(2, 0);
    let gate = a.click_gate(&String::from("alice"), 2, 0, true, 100);
    let (index, clocks) = match gate {
        ClickGate::Ready { index, clocks } => (index, clocks),
        _ => panic!("gate must open"),
    };
    assert_eq!(a.game.side_to_move, 0);
    let _ = a.apply_fight(index, clocks, String::from("a1_a2"), Outcome::MoveOk,
        String::from("s"), 100);
    assert_eq!(a.game.side_to_move, 1);
    assert_eq!(a.game.status, -1);
}

#[test]
fn out_of_turn_and_wrong_stage_moves_are_rejected() {
    let mut a = actor(5, 2);
    a.started = true;
    a.game.current_stage = 2;
    a.game.tc.update_stage(2, 0);
    // black asks while white is to move by the oracle
    assert!(matches!(a.click_gate(&String::from("bob"), 2, 0, true, 0), ClickGate::Rejected));
    // wrong stage
    assert!(matches!(a.click_gate(&String::from("alice"), 1, 0, true, 0), ClickGate::Rejected));
    // spent clock
    assert!(matches!(
        a.click_gate(&String::from("alice"), 2, 0, true, 10_000_000),
        ClickGate::Expired
    ));
    // someone else's piece still costs the thinking time
    match a.click_gate(&String::from("alice"), 2, 0, false, 1_000) {
        ClickGate::WrongPiece { .. } => {}
        _ => panic!("wrong piece consumes the clock and drops the move"),
    }
}

#[test]
fn selection_timeout_with_neither_confirmed_fells_both() {
    let mut a = actor(1, 0);
    a.started = true;
    match a.handle_check_clock([false, false], 61_000) {
        ClockTickOutcome::Flagged { close } => {
            let end = close.notify.expect("time loss is broadcast");
            assert_eq!(end.status, 8);
            assert_eq!(end.result, 2);
        }
        _ => panic!("a spent shared budget flags"),
    }
    assert_eq!(a.game.tc.clocks, [0, 0]);
}

#[test]
fn selection_timeout_of_the_unconfirmed_side_names_it() {
    // Two humans on one minute, both budgets run from zero; white
    // never confirms and flags.
    let mut a = actor(1, 0);
    a.started = true;
    match a.handle_check_clock([false, true], 60_500) {
        ClockTickOutcome::Flagged { close } => {
            let end = close.notify.unwrap();
            assert_eq!(end.status, 8);
            assert_eq!(end.result, 0);
        }
        _ => panic!("white must lose on time"),
    }
    assert_eq!(a.game.status, 8);
    assert_eq!(a.game.result, 0);
}

#[test]
fn fight_timeout_names_the_side_to_move() {
    let mut a = actor(1, 0);
    a.started = true;
    a.game.current_stage = 2;
    a.game.tc.update_stage(2, 0);
    a.game.side_to_move = 1;
    match a.handle_check_clock([true, true], 60_001) {
        ClockTickOutcome::Flagged { close } => {
            let end = close.notify.unwrap();
            assert_eq!(end.status, 8);
            assert_eq!(end.result, 1);
        }
        _ => panic!("black must lose on time"),
    }
    assert_eq!(a.game.tc.clocks[1], 0);
}

#[test]
fn ticker_retunes_only_on_change() {
    let mut a = actor(5, 0);
    a.started = true;
    a.game.current_stage = 2;
    a.game.tc.update_stage(2, 0);
    match a.handle_check_clock([true, true], 0) {
        ClockTickOutcome::Tick { interval } => assert_eq!(interval, Some(10_000)),
        _ => panic!("plenty of time only ticks"),
    }
    match a.handle_check_clock([true, true], 0) {
        ClockTickOutcome::Tick { interval } => assert_eq!(interval, None),
        _ => panic!("unchanged interval is not resent"),
    }
    match a.handle_check_clock([true, true], 295_000) {
        ClockTickOutcome::Tick { interval } => assert_eq!(interval, Some(500)),
        _ => panic!("a dying clock asks for fast ticks"),
    }
}

#[test]
fn confirm_settles_clock_and_detects_both_sides() {
    let mut a = actor(5, 2);
    a.started = true;
    match a.apply_confirm(0, [true, false], 10_000) {
        ConfirmOutcome::Confirmed { msg } => {
            assert_eq!(msg.confirmed, [true, false]);
        }
        _ => panic!("white alone confirmed"),
    }
    match a.apply_confirm(1, [true, true], 12_000) {
        ConfirmOutcome::BothConfirmed { msg } => {
            assert_eq!(msg.confirmed, [true, true]);
        }
        _ => panic!("both confirmed now"),
    }
    match a.apply_confirm(0, [false, false], 0) {
        ConfirmOutcome::NotConfirmed => {}
        _ => panic!("an unconfirmed side cannot announce"),
    }
}

#[test]
fn placement_transition_redirects_and_seeds() {
    let mut a = actor(5, 2);
    a.started = true;
    a.set_hands(String::from("KQN"), String::from("kqn"));
    let seed = a.placement_seed(&String::from("8/8/8/8/8/8/8/8"));
    assert_eq!(seed, "8/8/8/8/8/8/8/8 KQNkqn 1");
    let redirect = a.start_placement(String::from("seeded-sfen"), 777);
    assert!(matches!(redirect.t, MessageType::RedirectToGame));
    assert_eq!(redirect.id, "game1");
    assert_eq!(redirect.last_clock, 777);
    assert_eq!(redirect.sfen, "seeded-sfen");
    assert_eq!(redirect.variant, 2);
    assert_eq!(a.game.current_stage, 1);
    assert_eq!(a.game.side_to_move, 0);
    assert_eq!(a.game.placement_start, "seeded-sfen");
}

#[test]
fn first_move_error_closes_with_nine_and_opposite_color() {
    let mut a = actor(5, 2);
    a.started = true;
    a.game.current_stage = 1;
    a.game.tc.update_stage(1, 0);
    let gate = a.click_gate(&String::from("alice"), 1, 0, true, 100);
    let (index, clocks) = match gate {
        ClickGate::Ready { index, clocks } => (index, clocks),
        _ => panic!("white places with time left"),
    };
    let out = a.apply_place(
        index,
        clocks,
        String::from("K@a1"),
        String::from("after-place"),
        String::from(""),
        String::from(""),
        1,
        true,
        Some(String::from("fight-seed")),
        Some(Outcome::Check { color: 1 }),
        1,
        true,
        100,
    );
    assert!(out.msg.first_move_error);
    assert!(out.msg.next_stage);
    let close = out.close.expect("a first-move error closes at once");
    let end = close.notify.unwrap();
    assert_eq!(end.status, 9);
    assert_eq!(end.result, 0, "the opposite color wins");
    assert_eq!(a.game.status, 9);
    assert_eq!(a.game.game_start, "fight-seed");
}

#[test]
fn clean_placement_move_broadcasts_and_goes_on() {
    let mut a = actor(5, 2);
    a.started = true;
    a.game.current_stage = 1;
    a.game.tc.update_stage(1, 0);
    let gate = a.click_gate(&String::from("alice"), 1, 0, true, 100);
    let (index, clocks) = match gate {
        ClickGate::Ready { index, clocks } => (index, clocks),
        _ => panic!("white places with time left"),
    };
    let out = a.apply_place(
        index,
        clocks,
        String::from("N@c3"),
        String::from("mid-sfen"),
        String::from("Q"),
        String::from("q"),
        1,
        false,
        None,
        None,
        0,
        false,
        100,
    );
    assert!(!out.msg.first_move_error);
    assert!(!out.msg.next_stage);
    assert_eq!(out.msg.sfen, "N@c3");
    assert!(out.close.is_none());
    assert_eq!(a.game.history.1, vec![String::from("N@c3")]);
    assert_eq!(a.game.hands[0], "Q");
    assert_eq!(a.game.sfen, "mid-sfen");
}

#[test]
fn save_state_parks_without_terminal_notice() {
    let mut a = actor(5, 2);
    a.started = true;
    a.game.status = -1;
    let close = a.handle_save_state();
    assert!(close.notify.is_none(), "orderly shutdown broadcasts nothing");
    assert_eq!(a.game.status, -2);
    assert_eq!(a.game.result, 2);
    assert_eq!(close.id, "game1");
}

#[test]
fn ai_challenge_flow_reaches_placement() {
    // the lobby accepts the challenge and spawns against the engine
    let mut lobby = Lobby::new();
    let req = GameRequest {
        minutes: 5,
        incr: 2,
        variant: Variant::Standard,
        sub_variant: None,
        color: 0,
        game_type: TypeOfGame::VsAi(1),
    };
    let friend = match lobby.handle_add_request(String::from("anon"), &req) {
        AddRequestOutcome::Spawn { friend } => friend,
        AddRequestOutcome::Rejected => panic!("a free caller spawns"),
    };
    assert_eq!(friend, "AI");

    // the match is created on the dealt seats; the engine seat joins
    let seats = req.colors_with(&String::from("anon"), &friend, true);
    let game = ShuuroGame::from_request(&req, seats, String::from("g-ai"), 0);
    let mut a = GameActor::new(game, String::from("anon"), friend, false);
    assert!(matches!(
        a.handle_join(String::from("AI"), 1, 100),
        JoinOutcome::Started { .. }
    ));

    // the engine's selection script spends its pocket and confirms
    let script = selection_moves(&String::from("qnn"));
    assert_eq!(script.last().unwrap(), "c");

    // the engine confirms first, the human follows: placement begins
    assert!(matches!(
        a.apply_confirm(1, [false, true], 200),
        ConfirmOutcome::Confirmed { .. }
    ));
    assert!(matches!(
        a.apply_confirm(0, [true, true], 300),
        ConfirmOutcome::BothConfirmed { .. }
    ));
    a.set_hands(String::from("QNN"), String::from("qnn"));
    let redirect = a.start_placement(String::from("seeded"), 400);
    assert_eq!(redirect.variant, 2, "the redirect names the variant");
    assert_eq!(a.game.current_stage, 1);
}

#[test]
fn get_game_blanks_the_private_hands() {
    let mut a = actor(5, 2);
    a.set_hands(String::from("KQ"), String::from("kq"));
    let copy = a.handle_get_game();
    assert_eq!(copy.hands[0], "");
    assert_eq!(copy.hands[1], "");
    assert_eq!(copy._id, "game1");
    assert_eq!(a.game.hands[0], "KQ", "the match itself keeps its hands");
}

#[test]
fn get_hand_is_owed_only_to_participants_in_selection() {
    let mut a = actor(5, 2);
    a.started = true;
    a.set_hands(String::from("KQ"), String::from("kq"));
    let h = a.handle_get_hand(&String::from("bob")).expect("participant in selection");
    assert_eq!(h.hand, "kq");
    assert!(a.handle_get_hand(&String::from("carol")).is_none());
    a.game.current_stage = 1;
    assert!(a.handle_get_hand(&String::from("bob")).is_none());
}
