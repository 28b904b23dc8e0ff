use fishword::card::{CardState, Rating, ReviewState};
use fishword::clock::{elapsed_days, format_date, format_utc, parse_utc, Timestamp};
use fishword::error::Error;
use fishword::scheduler::{
    apply_review, checked_review, compute_review, next_review_state, review_clock, review_clock_at, scheduled_days,
    ItemState, NextStates, DESIRED_RETENTION_PERCENT,
};

fn new_state(card_id: i64) -> CardState {
    CardState {
        card_id,
        stability_bits: 0.0f64.to_bits(),
        difficulty_bits: 0.0f64.to_bits(),
        due: "2026-06-10 00:00:00".to_string(),
        reps: 0,
        lapses: 0,
        state: ReviewState::New,
    }
}

fn item(i: &fsrs::ItemState) -> ItemState {
    ItemState {
        stability_bits: (i.memory.stability as f64).to_bits(),
        difficulty_bits: (i.memory.difficulty as f64).to_bits(),
        interval_days: i.interval.round() as i64,
    }
}

fn fsrs_states(days: u32) -> NextStates {
    let next = fsrs::FSRS::default()
        .next_states(None, DESIRED_RETENTION_PERCENT as f32 / 100.0, days)
        .unwrap();
    NextStates { again: item(&next.again), hard: item(&next.hard), good: item(&next.good), easy: item(&next.easy) }
}

// 2026-06-10 12:00:00 UTC.
const NOON: Timestamp = Timestamp { secs: 1_781_092_800, nanos: 0 };

#[test]
fn good_review_schedules_new_card_and_logs() {
    let state = new_state(1);
    let clock = review_clock_at(NOON, None).unwrap();
    let review = compute_review(&state, Rating::Good, clock, &fsrs_states(clock.fsrs_days));
    assert!(review.scheduled_days >= 1);
    assert_eq!(review.reviewed_at, "2026-06-10 12:00:00");
    let after = apply_review(&state, &review);
    assert_eq!(after.reps, 1);
    assert!(f64::from_bits(after.stability_bits) > 0.0);
    assert!(f64::from_bits(after.difficulty_bits) > 0.0);
    assert!(matches!(after.state, ReviewState::Review));
    assert_eq!(after.lapses, 0);
}

#[test]
fn again_is_shorter_than_easy() {
    let clock = review_clock_at(NOON, None).unwrap();
    let states = fsrs_states(0);
    let again = compute_review(&new_state(1), Rating::Again, clock, &states);
    let easy = compute_review(&new_state(2), Rating::Easy, clock, &states);
    assert_eq!(again.scheduled_days, 0);
    assert!(easy.scheduled_days > again.scheduled_days);
    assert_eq!(again.due, "2026-06-10 12:00:00");
    assert_eq!(again.state, ReviewState::Learning);
    assert_eq!(apply_review(&new_state(1), &again).lapses, 1);
}

#[test]
fn due_moment_is_whole_days_after_the_review() {
    let clock = review_clock_at(NOON, None).unwrap();
    let fixed = ItemState { stability_bits: 1, difficulty_bits: 2, interval_days: 4 };
    let states = NextStates { again: fixed, hard: fixed, good: fixed, easy: fixed };
    let review = compute_review(&new_state(1), Rating::Good, clock, &states);
    assert_eq!(review.scheduled_days, 4);
    assert_eq!(review.due, "2026-06-14 12:00:00");
    assert_eq!(review.stability_bits, 1);
    let zero = ItemState { interval_days: 0, ..fixed };
    let states = NextStates { again: zero, hard: zero, good: zero, easy: zero };
    let hard = checked_review(&new_state(1), Rating::Hard, clock, &states).unwrap();
    assert_eq!(hard.scheduled_days, 1);
    assert_eq!(hard.due, "2026-06-11 12:00:00");
    let far = ItemState { interval_days: i64::MAX / 2, ..fixed };
    let states = NextStates { again: far, hard: far, good: far, easy: far };
    assert!(checked_review(&new_state(1), Rating::Easy, clock, &states).is_none());
}

#[test]
fn scheduling_rules() {
    assert_eq!(scheduled_days(Rating::Again, 9), 0);
    assert_eq!(scheduled_days(Rating::Hard, 0), 1);
    assert_eq!(scheduled_days(Rating::Easy, 12), 12);
    let mut reviewed = new_state(1);
    reviewed.reps = 3;
    assert_eq!(next_review_state(&reviewed, Rating::Again), ReviewState::Relearning);
    assert_eq!(next_review_state(&reviewed, Rating::Hard), ReviewState::Review);
    assert_eq!(next_review_state(&new_state(1), Rating::Hard), ReviewState::Learning);
    assert_eq!(next_review_state(&new_state(1), Rating::Easy), ReviewState::Review);
}

#[test]
fn review_clock_counts_whole_days_since_the_last_review() {
    let clock = review_clock_at(NOON, Some("2026-06-07 13:00:00")).unwrap();
    assert_eq!(clock.elapsed_days, 2);
    assert_eq!(clock.fsrs_days, 2);
    let rfc = review_clock_at(NOON, Some("2026-06-01T12:00:00Z")).unwrap();
    assert_eq!(rfc.elapsed_days, 9);
    let future = review_clock_at(NOON, Some("2030-01-01 00:00:00")).unwrap();
    assert_eq!(future.elapsed_days, 0);
    match review_clock_at(NOON, Some("yesterday")) {
        Err(Error::InvalidInput(m)) => assert!(m.starts_with("invalid datetime 'yesterday': ")),
        other => panic!("unexpected {other:?}"),
    }
    let now = review_clock(None).unwrap();
    assert_eq!(now.elapsed_days, 0);
}

#[test]
fn clock_texts() {
    assert_eq!(format_utc(NOON).unwrap(), "2026-06-10 12:00:00");
    assert_eq!(format_date(NOON).unwrap(), "2026-06-10");
    let parsed = parse_utc("2026-06-10 12:00:00").unwrap();
    assert_eq!(parsed, NOON);
    assert_eq!(elapsed_days(NOON, Timestamp { secs: NOON.secs - 86_399, nanos: 0 }), 0);
    assert_eq!(elapsed_days(NOON, Timestamp { secs: NOON.secs - 86_400, nanos: 0 }), 1);
}
