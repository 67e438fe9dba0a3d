//! Tests of the shared state: the lazy user registry, the user commands, and
//! the race state machine with its synchronized start.

use splitbot::race::Race;
use splitbot::store::{
    CreateRaceStatus, EnterStatus, GoError, LSState, LoadRaceSplitsError, ReadyStatus,
};
use splitbot::timing::{Run, Segment, TimerPhase};

fn segment(name: &str) -> Segment {
    Segment { name: name.to_owned(), split_time: None, pb_time: None }
}

#[test]
fn get_or_create_builds_one_user() {
    let mut s = LSState::new();
    let first = s.user(7, "alice");
    assert_eq!(first.name, "alice");
    assert_eq!(first.timer.run.game_name, "Wind Waker");
    assert_eq!(first.timer.run.category_name, "Any%");
    assert_eq!(first.timer.run.segments.len(), 4);
    assert_eq!(first.timer.run.segments[0].name, "First");
    assert_eq!(first.timer.run.segments[3].name, "End");
    // A later access under another name observes the user the first call made.
    let second = s.user(7, "impostor");
    assert_eq!(second.name, "alice");
    // A subsequent mutation is seen by every later access.
    s.split_command(7, "impostor", 1_000);
    let third = s.user(7, "whoever");
    assert_eq!(third.name, "alice");
    assert_eq!(third.timer.phase, TimerPhase::Running);
}

#[test]
fn distinct_ids_get_distinct_users() {
    let mut s = LSState::new();
    s.user(1, "alice");
    s.user(2, "bob");
    assert_eq!(s.user(1, "x").name, "alice");
    assert_eq!(s.user(2, "x").name, "bob");
}

#[test]
fn split_starts_then_advances() {
    let mut s = LSState::new();
    // The first split command starts the fresh timer on the first segment.
    s.split_command(3, "alice", 1_000);
    let u = s.user(3, "alice");
    assert_eq!(u.timer.phase, TimerPhase::Running);
    assert_eq!(u.timer.current_split_index, 0);
    // The second advances it to the second segment, recording the first.
    let l = s.split_command(3, "alice", 2_500);
    let u = s.user(3, "alice");
    assert_eq!(u.timer.current_split_index, 1);
    assert_eq!(l.splits.splits[0].time, Some(1_500));
    assert_eq!(l.splits.splits[1].time, None);
}

#[test]
fn run_ends_after_last_segment() {
    let mut s = LSState::new();
    for i in 0..5u64 {
        s.split_command(3, "alice", 1_000 * (i + 1));
    }
    let u = s.user(3, "alice");
    assert_eq!(u.timer.phase, TimerPhase::Ended);
    let l = s.state_command(3, "alice", 99_000);
    // The clock shows the final segment's recorded time once the run ended.
    assert_eq!(l.timer.seconds, 4);
    assert_eq!(l.splits.splits[3].time, Some(4_000));
}

#[test]
fn reset_then_state_shows_cleared_run() {
    let mut s = LSState::new();
    s.split_command(5, "alice", 1_000);
    s.split_command(5, "alice", 2_000);
    let before = s.state_command(5, "alice", 3_000);
    assert_eq!(before.title.attempts, 1);
    assert_eq!(before.splits.splits[0].time, Some(1_000));
    s.reset_command(5, "alice", 3_500);
    let after = s.state_command(5, "alice", 4_000);
    assert_eq!(after.title.attempts, 0);
    for row in &after.splits.splits {
        assert_eq!(row.time, None);
        assert_eq!(row.delta, None);
    }
    assert_eq!(after.timer.seconds, 0);
    assert_eq!(after.timer.fraction_ms, 0);
}

#[test]
fn load_splits_replaces_timer() {
    let mut s = LSState::new();
    let run = Run {
        game_name: "Chrono".to_owned(),
        category_name: "100%".to_owned(),
        attempt_count: 9,
        segments: vec![segment("one"), segment("two")],
    };
    let l = s.load_splits_command(4, "alice", Some(run), 100);
    assert_eq!(l.title.game, "Chrono");
    assert_eq!(l.title.category, "100%");
    assert_eq!(l.title.attempts, 9);
    assert_eq!(l.splits.splits.len(), 2);
}

#[test]
fn load_splits_failure_keeps_timer() {
    let mut s = LSState::new();
    s.user(4, "alice");
    let l = s.load_splits_command(4, "alice", None, 100);
    assert_eq!(l.title.game, "Wind Waker");
    // A parsed run with no segments is unusable and leaves the timer as well.
    let empty = Run {
        game_name: "Empty".to_owned(),
        category_name: "-".to_owned(),
        attempt_count: 0,
        segments: vec![],
    };
    let l = s.load_splits_command(4, "alice", Some(empty), 200);
    assert_eq!(l.title.game, "Wind Waker");
}

#[test]
fn create_race_twice_reports_and_keeps_entrants() {
    let mut s = LSState::new();
    assert_eq!(s.create_race(1, "alice"), CreateRaceStatus::Created);
    let second = s.create_race(2, "bob");
    assert_eq!(second, CreateRaceStatus::RaceAlreadyActive);
    assert_eq!(second.text(), "There already is an active race!");
    match &s.race {
        Race::Setup(e) => assert_eq!(e, &vec![(1u64, false)]),
        _ => panic!("race should stay in setup"),
    }
}

#[test]
fn enter_joins_in_order_and_only_once() {
    let mut s = LSState::new();
    assert_eq!(s.enter(1, "alice"), EnterStatus::NoActiveRace);
    s.create_race(1, "alice");
    assert_eq!(s.enter(2, "bob"), EnterStatus::Entered);
    assert_eq!(s.enter(3, "carol"), EnterStatus::Entered);
    assert_eq!(s.enter(2, "bob"), EnterStatus::AlreadyEntered);
    match &s.race {
        Race::Setup(e) => assert_eq!(e, &vec![(1u64, false), (2u64, false), (3u64, false)]),
        _ => panic!("race should be in setup"),
    }
}

#[test]
fn ready_marks_and_last_flip_triggers() {
    let mut s = LSState::new();
    s.create_race(1, "alice");
    s.enter(2, "bob");
    assert_eq!(s.ready(1), ReadyStatus::NowReady);
    assert_eq!(s.ready(1), ReadyStatus::AlreadyReady);
    // The call that flips the last outstanding flag, and only it, triggers.
    assert_eq!(s.ready(2), ReadyStatus::AllReady);
    assert_eq!(s.ready(2), ReadyStatus::AlreadyReady);
    assert_eq!(s.ready(1), ReadyStatus::AlreadyReady);
}

#[test]
fn ready_without_entering_changes_nothing() {
    let mut s = LSState::new();
    assert_eq!(s.ready(9), ReadyStatus::NoActiveRace);
    s.create_race(1, "alice");
    let st = s.ready(9);
    assert_eq!(st, ReadyStatus::NotEntered);
    assert_eq!(st.text(), "You didn't enter the race!");
    match &s.race {
        Race::Setup(e) => assert_eq!(e, &vec![(1u64, false)]),
        _ => panic!("race should stay in setup"),
    }
}

#[test]
fn all_ready_go_starts_every_entrant_in_join_order() {
    let mut s = LSState::new();
    s.create_race(1, "alice");
    s.enter(2, "bob");
    assert_eq!(s.begin_race(10_000), Err(GoError::NotAllReady));
    s.ready(1);
    assert_eq!(s.ready(2), ReadyStatus::AllReady);
    let started = s.begin_race(10_000);
    assert_eq!(started, Ok(vec![1u64, 2u64]));
    match &s.race {
        Race::InProgress(ids) => assert_eq!(ids, &vec![1u64, 2u64]),
        _ => panic!("race should be in progress"),
    }
    for id in [1u64, 2u64] {
        let u = s.user(id, "x");
        assert_eq!(u.timer.phase, TimerPhase::Running);
        assert_eq!(u.timer.current_split_index, 0);
        assert_eq!(u.timer.start_ms, 10_000);
        assert_eq!(u.timer.run.attempt_count, 1);
    }
    // No second go: the race is already in progress.
    assert_eq!(s.begin_race(11_000), Err(GoError::RaceAlreadyInProgress));
    assert_eq!(s.enter(3, "carol"), EnterStatus::RaceAlreadyInProgress);
    assert_eq!(s.ready(1), ReadyStatus::RaceAlreadyInProgress);
}

#[test]
fn begin_race_without_race_reports() {
    let mut s = LSState::new();
    assert_eq!(s.begin_race(0), Err(GoError::NoActiveRace));
}

#[test]
fn entrants_listing_is_a_pure_read() {
    let mut s = LSState::new();
    assert_eq!(s.entrants(), Ok("There is no race!".to_owned()));
    s.create_race(1, "alice");
    s.enter(2, "bob");
    s.ready(1);
    let expected = "Entrants: alice (Ready), bob (Not Ready)".to_owned();
    let first = s.entrants();
    assert_eq!(first, Ok(expected.clone()));
    // Repeated calls with no mutation between them return the same listing.
    assert_eq!(s.entrants(), Ok(expected.clone()));
    assert_eq!(s.entrants(), Ok(expected));
    s.ready(2);
    s.begin_race(5_000);
    assert_eq!(s.entrants(), Ok("Entrants: alice, bob".to_owned()));
}

#[test]
fn load_race_splits_copies_the_first_entrant() {
    let mut s = LSState::new();
    assert_eq!(
        s.load_race_splits_command(2, "bob", 100).err(),
        Some(LoadRaceSplitsError::NoActiveRace)
    );
    // Give the race master a distinctive run first.
    let run = Run {
        game_name: "Majora".to_owned(),
        category_name: "Any%".to_owned(),
        attempt_count: 3,
        segments: vec![segment("alpha"), segment("beta")],
    };
    s.load_splits_command(1, "alice", Some(run), 50);
    s.create_race(1, "alice");
    let l = s.load_race_splits_command(2, "bob", 100).expect("race is in setup");
    assert_eq!(l.title.game, "Majora");
    assert_eq!(l.splits.splits.len(), 2);
    assert_eq!(s.user(2, "bob").timer.run.game_name, "Majora");
    // Once the race runs, the command is refused.
    s.ready(1);
    s.begin_race(200);
    assert_eq!(
        s.load_race_splits_command(2, "bob", 300).err(),
        Some(LoadRaceSplitsError::RaceAlreadyInProgress)
    );
}

#[test]
fn status_texts_match_the_chat_replies() {
    assert_eq!(CreateRaceStatus::Created.text(), "Created a new race!");
    assert_eq!(EnterStatus::Entered.text(), "You successfully entered the race!");
    assert_eq!(EnterStatus::AlreadyEntered.text(), "You already entered the race!");
    assert_eq!(EnterStatus::NoActiveRace.text(), "There is no race!");
    assert_eq!(EnterStatus::RaceAlreadyInProgress.text(), "The Race is already in Progress!");
    assert_eq!(ReadyStatus::NowReady.text(), "You are now ready for the race!");
    assert_eq!(ReadyStatus::AllReady.text(), "You are now ready for the race!");
    assert_eq!(ReadyStatus::AlreadyReady.text(), "You are already ready!");
}
