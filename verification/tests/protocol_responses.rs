use fishword::card::{Card, Meaning, Pronunciation, Rating, ReviewState, Source};
use fishword::clock::Timestamp;
use fishword::deck::Deck;
use fishword::protocol::{
    deck_fields, display_phonetic, mask_term, phonetic_fields, protocol_card, render_card, selection_reason,
    CardResponse, DeckListResponse, DeckUseResponse, ErrorResponse, RateResponse, Ratio, StatsResponse,
    StatusResponse, TextFormat,
};
use fishword::scheduler::ScheduledReview;
use fishword::selector::{SelectedCard, SelectionReason};
use fishword::storage::{DailyReviewBucket, DailyReviewStats, ProgressCounts};

fn sample_card() -> Card {
    Card {
        id: 1,
        deck_id: 1,
        word: "cancel".to_string(),
        language: "en".to_string(),
        meanings: vec![Meaning {
            part_of_speech: "".to_string(),
            definition: "取消，撤销；删去".to_string(),
            example: None,
        }],
        pronunciations: vec![
            Pronunciation { notation: "US 'kænsl".to_string(), audio_url: None },
            Pronunciation { notation: "UK 'kænsl".to_string(), audio_url: None },
        ],
        tags: vec!["cet4".to_string()],
        source: Some(Source { name: "qwerty-learner".to_string(), license: Some("GPL-3.0".to_string()) }),
        created_at: "2026-06-10 00:00:00".to_string(),
    }
}

fn sample_deck() -> Deck {
    Deck {
        id: 1,
        name: "cet4".to_string(),
        description: Some("CET-4".to_string()),
        created_at: "2026-06-10 00:00:00".to_string(),
        catalog_id: None,
    }
}

fn progress(due_count: i64, new_remaining: i64, reviewed_today: i64) -> ProgressCounts {
    ProgressCounts { due_count, new_remaining, new_reviewed_today: 0, reviewed_today }
}

#[test]
fn mod_current_response_serializes_stable_fields() {
    let selected = SelectedCard { card: sample_card(), reason: SelectionReason::New };
    let response = CardResponse::current(&selected, &sample_deck(), progress(1, 8, 5));
    assert_eq!(response.schema, "fishword.protocol.current.v1");
    assert_eq!(response.card.id, "cet4:cancel");
    assert_eq!(response.card.db_id, 1);
    assert_eq!(response.card.term, "cancel");
    assert_eq!(response.card.language, "en");
    assert_eq!(response.card.phonetic.us.as_deref(), Some("'kænsl"));
    assert_eq!(response.card.phonetic.uk.as_deref(), Some("'kænsl"));
    assert!(response.card.phonetic.other.is_empty());
    assert_eq!(response.card.meanings, vec!["取消，撤销；删去".to_string()]);
    assert_eq!(response.card.deck.id, "cet4");
    assert_eq!(response.card.deck.name, "CET-4");
    assert_eq!(response.card.deck.db_id, 1);
    assert_eq!(response.card.tags, vec!["cet4".to_string()]);
    let source = response.card.source.as_ref().unwrap();
    assert_eq!(source.name, "qwerty-learner");
    assert_eq!(source.license.as_deref(), Some("GPL-3.0"));
    assert_eq!(response.display.plain, "cancel 'kænsl - 取消，撤销；删去");
    assert_eq!(response.display.compact, "📚 cancel /'kænsl/ 取消，撤销；删去");
    assert_eq!(response.display.status, "📚 cancel /'kænsl/ | CET-4 | 取消，撤销；删去");
    assert_eq!(response.display.masked, "📚 c_____ /'kænsl/");
    assert_eq!(response.progress.due_count, 1);
    assert_eq!(response.progress.new_today_remaining, 8);
    assert_eq!(response.progress.reviewed_today, 5);
    assert_eq!(response.selection.reason, "new");
}

#[test]
fn mod_error_response_serializes() {
    let response = ErrorResponse::new("no_cards", "No cards found. Import a deck first.");
    assert_eq!(response.schema, "fishword.protocol.error.v1");
    assert_eq!(response.error.code, "no_cards");
    assert_eq!(response.error.message, "No cards found. Import a deck first.");
}

#[test]
fn deck_list_response_serializes_stable_fields() {
    let response = DeckListResponse::new(vec![sample_deck()], Some(1));
    assert_eq!(response.schema, "fishword.protocol.decks.v1");
    assert_eq!(response.decks.len(), 1);
    assert_eq!(response.decks[0].id, 1);
    assert_eq!(response.decks[0].name, "cet4");
    assert_eq!(response.decks[0].description.as_deref(), Some("CET-4"));
    assert!(response.decks[0].active);
    let inactive = DeckListResponse::new(vec![sample_deck()], Some(2));
    assert!(!inactive.decks[0].active);
}

#[test]
fn deck_use_response_serializes_stable_fields() {
    let response = DeckUseResponse::new(&sample_deck());
    assert_eq!(response.schema, "fishword.protocol.deck_use.v1");
    assert_eq!(response.name, "cet4");
    assert_eq!(response.description.as_deref(), Some("CET-4"));
    assert_eq!(response.message, "Active deck: CET-4");
}

#[test]
fn rate_response_serializes_stable_fields() {
    let review = ScheduledReview {
        card_id: 1,
        rating: Rating::Good,
        reviewed_at: "2026-06-10 00:00:00".to_string(),
        due: "2026-06-14 00:00:00".to_string(),
        elapsed_days: 0,
        scheduled_days: 4,
        stability_bits: 4.0f64.to_bits(),
        difficulty_bits: 5.0f64.to_bits(),
        state: ReviewState::Learning,
    };
    let response = RateResponse::new(&sample_card(), &sample_deck(), &review, progress(0, 19, 1), None);
    assert_eq!(response.schema, "fishword.protocol.rate.v1");
    assert_eq!(response.card.term, "cancel");
    assert_eq!(response.display.plain, "cancel 'kænsl - 取消，撤销；删去");
    assert_eq!(response.progress.due_count, 0);
    assert_eq!(response.progress.new_today_remaining, 19);
    assert_eq!(response.progress.reviewed_today, 1);
    assert_eq!(response.review.rating, "good");
    assert_eq!(response.review.due, "2026-06-14 00:00:00");
    assert_eq!(response.review.elapsed_days, 0);
    assert_eq!(response.review.scheduled_days, 4);
    assert_eq!(f64::from_bits(response.review.stability_bits), 4.0);
    assert_eq!(f64::from_bits(response.review.difficulty_bits), 5.0);
    assert_eq!(response.review.state, "learning");
    assert!(response.next.is_none());
}

#[test]
fn rate_response_carries_the_next_card() {
    let review = ScheduledReview {
        card_id: 1,
        rating: Rating::Again,
        reviewed_at: "2026-06-10 00:00:00".to_string(),
        due: "2026-06-10 00:00:00".to_string(),
        elapsed_days: 0,
        scheduled_days: 0,
        stability_bits: 1.0f64.to_bits(),
        difficulty_bits: 6.0f64.to_bits(),
        state: ReviewState::Learning,
    };
    let next = SelectedCard { card: sample_card(), reason: SelectionReason::Due };
    let deck = sample_deck();
    let response = RateResponse::new(&sample_card(), &deck, &review, progress(2, 3, 4), Some((&next, &deck)));
    let next = response.next.unwrap();
    assert_eq!(next.schema, "fishword.protocol.next.v1");
    assert_eq!(next.selection.reason, "due");
    assert_eq!(next.progress.due_count, 2);
    assert_eq!(response.review.rating, "again");
}

#[test]
fn status_response_serializes_stable_fields() {
    let response = StatusResponse::new(&sample_deck(), progress(12, 8, 3), 120);
    assert_eq!(response.schema, "fishword.protocol.status.v1");
    assert_eq!(response.deck.id, "cet4");
    assert_eq!(response.deck.name, "CET-4");
    assert_eq!(response.deck.db_id, 1);
    assert_eq!(response.mode, "review");
    assert_eq!(response.today.due, 12);
    assert_eq!(response.today.new_remaining, 8);
    assert_eq!(response.today.reviewed, 3);
    assert_eq!(response.display.plain, "CET-4: 12 due, 8 new, 3 reviewed today");
    assert_eq!(response.display.compact, "12 due · 8 new · 3 done");
    assert_eq!(response.display.statusline, "📚 CET-4 · 12 due · 8 new · 3 done");
    assert_eq!(response.next_action.kind, "review");
    assert_eq!(response.next_action.label, "Continue");
    assert_eq!(response.next_action.command, "fishword current --deck cet4 --json");
}

#[test]
fn status_response_for_a_finished_and_an_empty_deck() {
    let done = StatusResponse::new(&sample_deck(), progress(0, 0, 7), 120);
    assert_eq!(done.mode, "complete");
    assert_eq!(done.display.compact, "all caught up · 7 done");
    assert_eq!(done.display.plain, "CET-4: all caught up, 7 reviewed today");
    assert_eq!(done.next_action.kind, "none");
    assert_eq!(done.next_action.label, "Rest");
    let empty = StatusResponse::new(&sample_deck(), progress(0, 20, 0), 0);
    assert_eq!(empty.mode, "empty");
    assert_eq!(empty.display.compact, "no cards");
    assert_eq!(empty.display.plain, "CET-4: no cards");
}

fn bucket(date: &str, reviews: i64, again: i64, hard: i64, good: i64, easy: i64) -> DailyReviewBucket {
    DailyReviewBucket { date: date.to_string(), stats: DailyReviewStats { reviews, again, hard, good, easy } }
}

#[test]
fn stats_response_serializes_stable_fields() {
    // 2026-06-04 00:00:00 UTC.
    let first = Timestamp { secs: 1_780_531_200, nanos: 0 };
    let buckets = vec![
        bucket("2026-06-05", 1, 1, 0, 0, 0),
        bucket("2026-06-06", 3, 0, 1, 2, 0),
        bucket("2026-06-08", 5, 0, 0, 3, 2),
        bucket("2026-06-09", 4, 1, 1, 1, 1),
        bucket("2026-06-10", 7, 1, 1, 3, 2),
    ];
    let response = StatsResponse::new_for_range(&sample_deck(), 7, first, &buckets).unwrap();
    assert_eq!(response.schema, "fishword.protocol.stats.v1");
    assert_eq!(response.deck.name, "CET-4");
    assert_eq!(response.range.kind, "days");
    assert_eq!(response.range.days, 7);
    assert_eq!(response.summary.reviews, 20);
    assert_eq!(response.summary.reviewed_today, 7);
    assert_eq!(response.summary.good_or_easy_rate, Some(Ratio { numerator: 14, denominator: 20 }));
    let dates: Vec<&str> = response.series.iter().map(|d| d.date.as_str()).collect();
    assert_eq!(
        dates,
        vec!["2026-06-04", "2026-06-05", "2026-06-06", "2026-06-07", "2026-06-08", "2026-06-09", "2026-06-10"]
    );
    assert_eq!(response.series[0].reviews, 0);
    assert_eq!(response.series[0].good_or_easy_rate, None);
    assert_eq!(response.series[2].hard, 1);
    assert_eq!(response.series[2].good_or_easy_rate, Some(Ratio { numerator: 2, denominator: 3 }));
    assert_eq!(response.series[3].reviews, 0);
    assert_eq!(response.series[6].easy, 2);
}

#[test]
fn card_fields_follow_the_card() {
    let card = sample_card();
    let deck = sample_deck();
    let p = protocol_card(&card, &deck);
    assert_eq!(p.id, "cet4:cancel");
    assert_eq!(deck_fields(&deck).name, "CET-4");
    let unnamed = Deck { description: None, ..sample_deck() };
    assert_eq!(deck_fields(&unnamed).name, "cet4");
    let fields = phonetic_fields(&card);
    assert_eq!(fields.us.as_deref(), Some("'kænsl"));
    assert_eq!(display_phonetic(&card), "'kænsl");
    assert_eq!(mask_term("cancel"), "c_____");
    assert_eq!(mask_term("a"), "a");
    assert_eq!(mask_term(""), "");
    assert_eq!(selection_reason(SelectionReason::Mature), "mature");
}

#[test]
fn cards_without_pronunciation_display_without_slashes() {
    let mut card = sample_card();
    card.pronunciations = vec![Pronunciation { notation: "ipa kæn".to_string(), audio_url: None }];
    assert_eq!(display_phonetic(&card), "ipa kæn");
    assert_eq!(phonetic_fields(&card).other, vec!["ipa kæn".to_string()]);
    card.pronunciations.clear();
    let selected = SelectedCard { card, reason: SelectionReason::Due };
    let response = CardResponse::next(&selected, &sample_deck(), progress(0, 0, 0));
    assert_eq!(response.display.plain, "cancel - 取消，撤销；删去");
    assert_eq!(response.display.compact, "📚 cancel 取消，撤销；删去");
    assert_eq!(response.display.status, "📚 cancel | CET-4 | 取消，撤销；删去");
    assert_eq!(response.display.masked, "📚 c_____");
    assert_eq!(render_card(&response, TextFormat::Compact), "📚 cancel 取消，撤销；删去");
}

#[test]
fn text_formats_parse_by_name() {
    assert_eq!(TextFormat::parse("plain"), Ok(TextFormat::Plain));
    assert_eq!(TextFormat::parse("status"), Ok(TextFormat::Status));
    assert_eq!("compact".parse::<TextFormat>(), Ok(TextFormat::Compact));
    assert_eq!(TextFormat::parse("fancy"), Err("unknown format: fancy".to_string()));
}
