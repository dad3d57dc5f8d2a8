use lishuuro::game::{archived_history, Outcome, ShuuroGame};
use lishuuro::requests::{GameRequest, TypeOfGame, Variant};

fn base_game() -> ShuuroGame {
    let req = GameRequest {
        minutes: 5,
        incr: 2,
        variant: Variant::Standard,
        sub_variant: None,
        color: 0,
        game_type: TypeOfGame::VsFriend(String::from("bob")),
    };
    ShuuroGame::from_request(
        &req,
        [String::from("alice"), String::from("bob")],
        String::from("g1"),
        1_000,
    )
}

#[test]
fn fresh_match_is_parked_with_full_clocks() {
    let g = base_game();
    assert_eq!(g.status, -2);
    assert_eq!(g.result, 2);
    assert_eq!(g.current_stage, 0);
    assert_eq!(g.side_to_move, 0);
    assert_eq!(g.clocks, [302_000, 302_000]);
    assert_eq!(g.min, 300_000);
    assert_eq!(g.incr, 2_000);
    assert_eq!(g.credits, [800, 800]);
    assert_eq!(g.draws, [false, false]);
    assert_eq!(g.tc.clocks, [302_000, 302_000]);
    assert_eq!(g.tc.last_click, 1_000);
}

#[test]
fn every_outcome_maps_to_its_status_and_result() {
    let cases: Vec<(Outcome, i32, Option<u8>)> = vec![
        (Outcome::MoveOk, -1, None),
        (Outcome::Check { color: 0 }, -1, None),
        (Outcome::MoveNotOk, -2, None),
        (Outcome::Stalemate, 3, Some(2)),
        (Outcome::DrawByRepetition, 4, Some(2)),
        (Outcome::DrawByAgreement, 5, Some(2)),
        (Outcome::DrawByMaterial, 6, Some(2)),
        (Outcome::Checkmate { color: 0 }, 1, Some(0)),
        (Outcome::Checkmate { color: 1 }, 1, Some(1)),
        (Outcome::Resign { color: 1 }, 7, Some(1)),
        (Outcome::LostOnTime { color: 0 }, 8, Some(0)),
        (Outcome::FirstMoveError { color: 1 }, 9, Some(1)),
    ];
    for (outcome, status, result) in cases {
        let mut g = base_game();
        let before = g.result;
        g.update_status(&outcome);
        assert_eq!(g.status, status, "status for {:?}", outcome);
        match result {
            Some(r) => assert_eq!(g.result, r, "result for {:?}", outcome),
            None => assert_eq!(g.result, before, "result untouched for {:?}", outcome),
        }
    }
}

#[test]
fn decisive_status_names_a_winner_drawn_status_names_none() {
    // the executable shadow of the at-most-one-winner law
    for (outcome, decisive) in [
        (Outcome::Checkmate { color: 0 }, true),
        (Outcome::Resign { color: 1 }, true),
        (Outcome::FirstMoveError { color: 0 }, true),
        (Outcome::Stalemate, false),
        (Outcome::DrawByAgreement, false),
        (Outcome::DrawByRepetition, false),
        (Outcome::DrawByMaterial, false),
    ] {
        let mut g = base_game();
        g.update_status(&outcome);
        if decisive {
            assert!(g.result == 0 || g.result == 1, "{:?}", outcome);
        } else {
            assert_eq!(g.result, 2, "{:?}", outcome);
        }
    }
}

#[test]
fn public_copy_blanks_hands_only() {
    let mut g = base_game();
    g.hands = [String::from("KQ"), String::from("kq")];
    g.history.2.push(String::from("a1_a2"));
    let c = g.public_copy();
    assert_eq!(c.hands[0], "");
    assert_eq!(c.hands[1], "");
    assert_eq!(c._id, g._id);
    assert_eq!(c.history.2, g.history.2);
    assert_eq!(c.clocks, g.clocks);
}

#[test]
fn recovery_keeps_unfinished_filled_matches_only() {
    let mut g = base_game();
    assert!(g.recovery_keep(), "status -2 with both seats filled is revived");
    g.status = -1;
    assert!(g.recovery_keep(), "live status is unfinished too");
    g.status = 1;
    assert!(!g.recovery_keep(), "a finished match stays archived");
    g.status = -2;
    g.players[1] = String::new();
    assert!(!g.recovery_keep(), "an empty seat means deletion");
}

#[test]
fn archived_history_carries_only_the_move_count() {
    let h = archived_history(120);
    assert_eq!(h.0, vec![String::from("120")]);
    assert!(h.1.is_empty());
    assert!(h.2.is_empty());
}
