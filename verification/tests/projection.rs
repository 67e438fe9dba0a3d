//! Tests of the timer model, the layout projection, and the bingo helpers.

use splitbot::bingo::{bingo_mode, board_message, botw_bingo_board, random_seed, BingoMode,
    BoardTemplates};
use splitbot::layout::Components;
use splitbot::text::{countdown_message, decimal, push_str, str_eq};
use splitbot::timing::{Run, Segment, Timer, TimerColor, TimerPhase};

fn run_with_pb(times: &[(u64, Option<u64>)]) -> Run {
    Run {
        game_name: "Game".to_owned(),
        category_name: "Cat".to_owned(),
        attempt_count: 0,
        segments: times
            .iter()
            .enumerate()
            .map(|(i, &(_, pb))| Segment {
                name: format!("seg{}", i),
                split_time: None,
                pb_time: pb,
            })
            .collect(),
    }
}

#[test]
fn timer_walks_phases() {
    let mut t = Timer::new(run_with_pb(&[(0, None), (0, None)]));
    assert_eq!(t.phase, TimerPhase::NotRunning);
    t.split(5); // no-op while not running
    assert_eq!(t.phase, TimerPhase::NotRunning);
    t.start(100);
    assert_eq!(t.phase, TimerPhase::Running);
    assert_eq!(t.run.attempt_count, 1);
    t.start(150); // no-op while running
    assert_eq!(t.start_ms, 100);
    t.split(1_100);
    assert_eq!(t.current_split_index, 1);
    assert_eq!(t.run.segments[0].split_time, Some(1_000));
    t.split(2_700);
    assert_eq!(t.phase, TimerPhase::Ended);
    assert_eq!(t.run.segments[1].split_time, Some(2_600));
}

#[test]
fn reset_clears_times_and_history() {
    let mut t = Timer::new(run_with_pb(&[(0, Some(10)), (0, None)]));
    t.start(0);
    t.split(500);
    t.reset(true);
    assert_eq!(t.phase, TimerPhase::NotRunning);
    assert_eq!(t.run.attempt_count, 0);
    assert_eq!(t.run.segments[0].split_time, None);
    // The comparison times survive a reset.
    assert_eq!(t.run.segments[0].pb_time, Some(10));
}

#[test]
fn clock_splits_seconds_and_fraction() {
    let t = {
        let mut t = Timer::new(run_with_pb(&[(0, None)]));
        t.start(0);
        t
    };
    let l = Components::new().eval_layout(&t, 61_234);
    assert_eq!(l.timer.seconds, 61);
    assert_eq!(l.timer.fraction_ms, 234);
}

#[test]
fn deltas_and_colors_follow_the_comparison() {
    let mut t = Timer::new(run_with_pb(&[(0, Some(1_000)), (0, Some(2_000)), (0, None)]));
    t.start(0);
    let l = Components::new().eval_layout(&t, 100);
    assert_eq!(l.timer.color, TimerColor::Default);
    t.split(1_500); // 500 behind the comparison
    let l = Components::new().eval_layout(&t, 1_600);
    assert_eq!(l.splits.splits[0].delta, Some(500));
    assert_eq!(l.timer.color, TimerColor::BehindLosingTime);
    assert_eq!(l.previous_segment.delta, Some(500));
    t.split(1_800); // 200 ahead of the comparison
    let l = Components::new().eval_layout(&t, 1_900);
    assert_eq!(l.splits.splits[1].delta, Some(-200));
    assert_eq!(l.timer.color, TimerColor::AheadGainingTime);
    // The current (third) segment has no comparison to save against.
    assert_eq!(l.possible_time_save.time, None);
}

#[test]
fn sum_of_best_needs_every_comparison() {
    let full = Timer::new(run_with_pb(&[(0, Some(300)), (0, Some(700))]));
    let l = Components::new().eval_layout(&full, 0);
    assert_eq!(l.sum_of_best.time, Some(1_000));
    let holed = Timer::new(run_with_pb(&[(0, Some(300)), (0, None)]));
    let l = Components::new().eval_layout(&holed, 0);
    assert_eq!(l.sum_of_best.time, None);
}

#[test]
fn possible_time_save_names_the_current_segment() {
    let mut t = Timer::new(run_with_pb(&[(0, Some(111)), (0, Some(222))]));
    let l = Components::new().eval_layout(&t, 0);
    assert_eq!(l.possible_time_save.time, None); // not running
    t.start(0);
    let l = Components::new().eval_layout(&t, 1);
    assert_eq!(l.possible_time_save.time, Some(111));
    t.split(50);
    let l = Components::new().eval_layout(&t, 60);
    assert_eq!(l.possible_time_save.time, Some(222));
}

#[test]
fn not_running_and_ended_have_their_colors() {
    let mut t = Timer::new(run_with_pb(&[(0, None)]));
    let l = Components::new().eval_layout(&t, 0);
    assert_eq!(l.timer.color, TimerColor::NotRunning);
    t.start(0);
    t.split(400);
    let l = Components::new().eval_layout(&t, 500);
    assert_eq!(l.timer.color, TimerColor::PersonalBest);
    assert_eq!(l.timer.seconds, 0);
    assert_eq!(l.timer.fraction_ms, 400);
}

#[test]
fn rows_keep_run_definition_order() {
    let mut run = run_with_pb(&[(0, None), (0, None), (0, None)]);
    run.segments[0].name = "zulu".to_owned();
    run.segments[1].name = "alpha".to_owned();
    run.segments[2].name = "mike".to_owned();
    let t = Timer::new(run);
    let l = Components::new().eval_layout(&t, 0);
    let names: Vec<&str> = l.splits.splits.iter().map(|r| r.name.as_str()).collect();
    assert_eq!(names, vec!["zulu", "alpha", "mike"]);
}

#[test]
fn text_helpers_do_what_they_say() {
    let mut s = "ab".to_owned();
    push_str(&mut s, "cd");
    assert_eq!(s, "abcd");
    assert_eq!(decimal(0), "0");
    assert_eq!(decimal(1_048_576), "1048576");
    assert!(str_eq("race", "race"));
    assert!(!str_eq("race", "pace"));
    assert_eq!(countdown_message(10), "**10**");
    assert_eq!(countdown_message(1), "**1**");
}

#[test]
fn bingo_mode_follows_the_parameter() {
    assert_eq!(bingo_mode(Some("short")), (BingoMode::Short, "short"));
    assert_eq!(bingo_mode(Some("long")), (BingoMode::Long, "long"));
    assert_eq!(bingo_mode(Some("weird")), (BingoMode::Normal, "normal"));
    assert_eq!(bingo_mode(None), (BingoMode::Normal, "normal"));
}

#[test]
fn seeds_stay_below_one_million() {
    for _ in 0..50 {
        assert!(random_seed() < 1_000_000);
    }
}

#[test]
fn board_message_lists_rows_with_separators() {
    let cells = vec![
        vec!["a".to_owned(), "b".to_owned()],
        vec!["c".to_owned()],
    ];
    let msg = board_message(42, "normal", &cells);
    assert_eq!(
        msg,
        "https://livesplit.herokuapp.com/botw/bingo/index.html?seed=42&mode=normal\n\na | b\nc\n"
    );
}

#[test]
fn botw_bingo_board_serves_known_boards() {
    let templates = BoardTemplates {
        normal: "[1]".to_owned(),
        korok: "[2]".to_owned(),
        shrine: "[3]".to_owned(),
        plateau: "[4]".to_owned(),
    };
    assert_eq!(
        botw_bingo_board("korok", &templates),
        "var bingoList = [2]; $(function () { srl.bingo(bingoList, 5); });"
    );
    assert_eq!(
        botw_bingo_board("normal", &templates),
        "var bingoList = [1]; $(function () { srl.bingo(bingoList, 5); });"
    );
    assert_eq!(botw_bingo_board("other", &templates), "Nope");
}
