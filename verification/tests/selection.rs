use fishword::card::{Card, CardState, CardWithState, ReviewState};
use fishword::clock::Timestamp;
use fishword::selector::{pick_card_at, select_current, select_next, CurrentChoice, SelectionReason};
use fishword::storage::{progress_from_counts, ProgressCounts};

// 2026-06-10 12:00:00 UTC.
const NOW: Timestamp = Timestamp { secs: 1_781_092_800, nanos: 0 };

fn candidate(id: i64, deck_id: i64, word: &str, reps: i32, due: &str) -> CardWithState {
    CardWithState {
        card: Card {
            id,
            deck_id,
            word: word.to_string(),
            language: "en".to_string(),
            meanings: vec![],
            pronunciations: vec![],
            tags: vec![],
            source: None,
            created_at: "2026-06-01 00:00:00".to_string(),
        },
        state: CardState {
            card_id: id,
            stability_bits: if reps > 0 { 3.0f64.to_bits() } else { 0 },
            difficulty_bits: if reps > 0 { 5.0f64.to_bits() } else { 0 },
            due: due.to_string(),
            reps,
            lapses: 0,
            state: if reps > 0 { ReviewState::Review } else { ReviewState::New },
        },
        last_reviewed_at: None,
    }
}

fn progress(new_remaining: i64) -> ProgressCounts {
    ProgressCounts { due_count: 0, new_remaining, new_reviewed_today: 0, reviewed_today: 0 }
}

#[test]
fn next_selects_new_card_without_review_log() {
    let candidates = vec![candidate(1, 1, "cancel", 0, "2026-06-10 00:00:00")];
    let (selected, pointer) = select_next(progress(20), None, &candidates, &vec![0]);
    let selected = selected.unwrap();
    assert_eq!(selected.card.id, 1);
    assert_eq!(selected.reason, SelectionReason::New);
    assert_eq!(pointer, Some(1));
}

#[test]
fn next_skips_current_card_when_possible() {
    let candidates = vec![candidate(1, 1, "first", 0, "2026-06-10 00:00:00"), candidate(2, 1, "second", 0, "2026-06-10 00:00:00")];
    let (selected, pointer) = select_next(progress(20), Some(1), &candidates, &vec![0, 0]);
    assert_eq!(selected.unwrap().card.id, 2);
    assert_eq!(pointer, Some(2));
    let single = vec![candidate(1, 1, "only", 0, "2026-06-10 00:00:00")];
    let (kept, _) = select_next(progress(20), Some(1), &single, &vec![0]);
    assert_eq!(kept.unwrap().card.id, 1);
}

#[test]
fn due_review_card_beats_new_card() {
    let candidates = vec![candidate(1, 1, "due", 1, "2026-06-10 11:00:00"), candidate(2, 1, "new", 0, "2026-06-10 00:00:00")];
    let selected = pick_card_at(&candidates, &vec![0, 0], 20, None, NOW).unwrap();
    assert_eq!(selected.card.id, 1);
    assert_eq!(selected.reason, SelectionReason::Due);
}

#[test]
fn weaker_memories_come_first_among_due_cards() {
    let candidates = vec![
        candidate(1, 1, "strong", 2, "2026-06-09 00:00:00"),
        candidate(2, 1, "weak", 2, "2026-06-10 00:00:00"),
        candidate(3, 1, "tie", 2, "2026-06-08 00:00:00"),
    ];
    let keys = vec![0.8f64.to_bits(), 0.3f64.to_bits(), 0.3f64.to_bits()];
    let selected = pick_card_at(&candidates, &keys, 20, None, NOW).unwrap();
    assert_eq!(selected.card.id, 3);
}

#[test]
fn next_stops_when_no_due_or_new_quota_remains() {
    let candidates = vec![candidate(1, 1, "known", 1, "2999-01-01 00:00:00")];
    let (selected, pointer) = select_next(progress(20), None, &candidates, &vec![0]);
    assert!(selected.is_none());
    assert_eq!(pointer, None);
}

#[test]
fn next_stops_after_daily_new_quota_is_used() {
    let mut candidates: Vec<CardWithState> =
        (0..20).map(|i| candidate(i + 1, 1, &format!("word-{i}"), 1, "2999-01-01 00:00:00")).collect();
    candidates.push(candidate(21, 1, "extra-new", 0, "2026-06-10 00:00:00"));
    let keys = vec![0; candidates.len()];
    let progress = progress_from_counts(0, 1, 20, 20, 20);
    assert_eq!(progress.new_remaining, 0);
    let (selected, pointer) = select_next(progress, None, &candidates, &keys);
    assert!(selected.is_none());
    assert_eq!(pointer, None);
}

#[test]
fn next_only_selects_candidates_from_given_deck() {
    let candidates = vec![candidate(2, 2, "same", 0, "2026-06-10 00:00:00")];
    let (selected, _) = select_next(progress(20), None, &candidates, &vec![0]);
    let selected = selected.unwrap();
    assert_eq!(selected.card.id, 2);
    assert_ne!(selected.card.id, 1);
}

#[test]
fn current_ignores_card_from_other_deck() {
    assert!(matches!(select_current(None), CurrentChoice::SelectNext));
    let kept = candidate(7, 2, "second", 0, "2026-06-10 00:00:00").card;
    match select_current(Some(kept)) {
        CurrentChoice::Keep(s) => {
            assert_eq!(s.card.id, 7);
            assert_eq!(s.reason, SelectionReason::Mature);
        },
        CurrentChoice::SelectNext => panic!("the current card of the deck is kept"),
    }
}

#[test]
fn progress_counts_subtract_new_cards_reviewed_today() {
    let p = progress_from_counts(3, 30, 5, 9, 20);
    assert_eq!(p.due_count, 3);
    assert_eq!(p.new_remaining, 15);
    assert_eq!(p.new_reviewed_today, 5);
    assert_eq!(p.reviewed_today, 9);
    assert_eq!(progress_from_counts(0, 4, 0, 0, 20).new_remaining, 4);
}
