use lishuuro::ticker::clocks;
use lishuuro::time_control::TimeControl;

fn fresh(minutes: u64, incr_s: u64, now: u64) -> TimeControl {
    TimeControl::new(minutes, incr_s, now)
}

#[test]
fn new_clock_holds_main_time_plus_increment() {
    let tc = fresh(5, 2, 1_000);
    assert_eq!(tc.clocks, [302_000, 302_000]);
    assert_eq!(tc.incr, 2_000);
    assert_eq!(tc.stage, 0);
    assert_eq!(tc.last_click, 1_000);
}

#[test]
fn selection_stage_play_consumes_no_clock() {
    let mut tc = fresh(1, 0, 0);
    let clocks = tc.play(0, 30_000).expect("inside budget");
    assert_eq!(clocks, [60_000, 60_000]);
    assert_eq!(tc.last_click, 0);
    assert_eq!(tc.clocks, [60_000, 60_000]);
}

#[test]
fn placement_play_settles_remaining_plus_increment() {
    let mut tc = fresh(1, 2, 0);
    tc.update_stage(1, 10_000);
    let clocks = tc.play(0, 25_000).expect("inside budget");
    // 62s budget - 15s thinking + 2s increment = 49s
    assert_eq!(clocks[0], 49_000);
    assert_eq!(clocks[1], 62_000);
    assert_eq!(tc.last_click, 25_000);
}

#[test]
fn spent_budget_returns_none_and_changes_nothing() {
    let mut tc = fresh(1, 0, 0);
    tc.update_stage(2, 0);
    let before = tc.clocks;
    assert!(tc.play(1, 60_001).is_none());
    assert_eq!(tc.clocks, before);
    assert_eq!(tc.last_click, 0);
}

#[test]
fn clock_monotonicity_over_a_sequence_of_moves() {
    // For each color, a settled move grants at most the increment on
    // top of the clock before it, and never touches the other side.
    let mut tc = fresh(3, 5, 0);
    tc.update_stage(2, 0);
    let mut now = 0u64;
    for mover in [0usize, 1, 0, 1, 0, 1] {
        let before = tc.clocks;
        now += 1_500;
        let after = tc.play(mover, now).expect("inside budget");
        assert!(after[mover] <= before[mover] + tc.incr);
        assert_eq!(after[1 - mover], before[1 - mover]);
    }
}

#[test]
fn select_settles_confirmer_without_restamping() {
    let mut tc = fresh(1, 2, 0);
    let clocks = tc.select(1, 20_000);
    // 62s - 20s + 2s increment
    assert_eq!(clocks[1], 44_000);
    assert_eq!(clocks[0], 62_000);
    assert_eq!(tc.last_click, 0, "confirm must not restart placement timing");
    assert_eq!(tc.stage, 0);
}

#[test]
fn set_to_zero_empties_one_side() {
    let mut tc = fresh(1, 0, 0);
    tc.set_to_zero(0);
    assert_eq!(tc.clocks, [0, 60_000]);
}

#[test]
fn adaptive_tick_interval_thresholds() {
    // As a synthetic 300 s clock runs down, the asked intervals pass
    // 10000, 5000, 2000 and 500 in that order.
    let path = [300_000u64, 299_999, 60_000, 59_999, 10_000, 9_999, 0];
    let expected = [10_000u64, 5_000, 5_000, 2_000, 2_000, 500, 500];
    for (ms, want) in path.iter().zip(expected.iter()) {
        assert_eq!(clocks([*ms, 400_000]), *want, "at {} ms", ms);
    }
    let mut order = Vec::new();
    for ms in [300_000u64, 250_000, 30_000, 5_000] {
        order.push(clocks([ms, 300_000]));
    }
    assert_eq!(order, vec![10_000, 5_000, 2_000, 500]);
}

#[test]
fn lower_clock_governs_interval() {
    assert_eq!(clocks([400_000, 8_000]), 500);
    assert_eq!(clocks([8_000, 400_000]), 500);
}
