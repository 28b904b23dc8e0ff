use fishword::card::{Card, Meaning, Rating, ReviewState, Source};
use fishword::cli::args::{
    CardCmd, CardListArgs, CardOutputArgs, CatalogCmd, Cmd, DeckCmd, ImportArgs, ImportCmd, RateArgs, StatsArgs,
    StatusArgs,
};
use fishword::cli::protocol::CatalogDeckEntry;
use fishword::cli::report::{
    clap_error_code, error_report, error_response, is_display_request, render_outcome, Output, ParseErrorKind,
};
use fishword::cli::run::run;
use fishword::cli::step::{cmd_error, CommandError, FetchFailure, Outcome, Reply, Request, Response, Step};
use fishword::clock::Timestamp;
use fishword::deck::Deck;
use fishword::error::Error;
use fishword::importer::{DuplicateStrategy, ImportSummary};
use fishword::protocol::Ratio;
use fishword::scheduler::ScheduledReview;
use fishword::selector::{SelectedCard, SelectionReason};
use fishword::storage::{DailyReviewBucket, DailyReviewStats, ProgressCounts};

fn deck(id: i64, name: &str, description: Option<&str>) -> Deck {
    Deck {
        id,
        name: name.to_string(),
        description: description.map(|d| d.to_string()),
        created_at: "2026-06-10 00:00:00".to_string(),
        catalog_id: None,
    }
}

fn card(id: i64, deck_id: i64, word: &str) -> Card {
    Card {
        id,
        deck_id,
        word: word.to_string(),
        language: "en".to_string(),
        meanings: vec![Meaning { part_of_speech: "".to_string(), definition: "取消".to_string(), example: None }],
        pronunciations: vec![],
        tags: vec![],
        source: None,
        created_at: "2026-06-10 00:00:00".to_string(),
    }
}

fn summary(deck_id: i64, name: &str, input: usize, inserted: usize) -> ImportSummary {
    ImportSummary {
        deck_id,
        deck_name: name.to_string(),
        input_count: input,
        inserted,
        updated: 0,
        skipped: 0,
        merged: 0,
    }
}

fn progress() -> ProgressCounts {
    ProgressCounts { due_count: 1, new_remaining: 19, new_reviewed_today: 1, reviewed_today: 2 }
}

fn opened() -> Reply {
    Reply::Opened("/tmp/fishword.db".to_string())
}

fn step(cmd: &Cmd, replies: Vec<Reply>) -> Step {
    run(cmd, &replies)
}

fn failure(step: Step) -> CommandError {
    match step {
        Step::Finish(Outcome::Fail(e)) => e,
        other => panic!("expected a failure, got {other:?}"),
    }
}

fn refusal(step: Step) -> (String, String) {
    let response = error_response(&failure(step));
    assert_eq!(response.schema, "fishword.protocol.error.v1");
    (response.error.code, response.error.message)
}

fn lines(step: Step) -> Vec<String> {
    match step {
        Step::Finish(Outcome::Print(lines)) => lines,
        other => panic!("expected printed lines, got {other:?}"),
    }
}

fn request(step: Step) -> Request {
    match step {
        Step::Ask(request) => request,
        other => panic!("expected a request, got {other:?}"),
    }
}

fn rate_args(rating: &str, deck: Option<i64>, json: bool) -> Cmd {
    Cmd::Rate(RateArgs { rating: rating.to_string(), deck, json })
}

fn import_cmd(deck_id: Option<i64>, create_deck: Option<&str>, duplicates: &str, json: bool) -> Cmd {
    Cmd::Import {
        sub: ImportCmd::Jsonl(ImportArgs {
            path: "words.jsonl".to_string(),
            deck_id,
            create_deck: create_deck.map(|s| s.to_string()),
            duplicates: duplicates.to_string(),
            json,
        }),
    }
}

#[test]
fn invalid_rating_with_json_returns_protocol_error() {
    let cmd = rate_args("maybe", None, true);
    assert_eq!(
        refusal(step(&cmd, vec![])),
        ("invalid_rating".to_string(), "invalid rating 'maybe', expected again/hard/good/easy".to_string())
    );
}

#[test]
fn invalid_duplicate_strategy_with_json_returns_protocol_error() {
    let cmd = import_cmd(None, Some("Imported"), "nonsense", true);
    assert!(matches!(request(step(&cmd, vec![])), Request::ReadImportFile(p) if p == "words.jsonl"));
    assert_eq!(
        refusal(step(&cmd, vec![Reply::CardsRead(1)])),
        ("invalid_duplicate_strategy".to_string(), "invalid --duplicates value 'nonsense'".to_string())
    );
}

#[test]
fn deck_not_found_with_json_returns_protocol_error() {
    let cmd = Cmd::Deck { sub: DeckCmd::Use { deck: 999, json: true } };
    assert!(matches!(request(step(&cmd, vec![])), Request::OpenStorage));
    assert!(matches!(request(step(&cmd, vec![opened()])), Request::DeckById(999)));
    assert_eq!(
        refusal(step(&cmd, vec![opened(), Reply::Deck(None)])),
        ("deck_not_found".to_string(), "Deck not found: 999".to_string())
    );
}

#[test]
fn import_target_must_be_create_deck_or_deck_id() {
    for cmd in [import_cmd(None, None, "merge", false), import_cmd(Some(1), Some("Imported"), "merge", false)] {
        let err = failure(step(&cmd, vec![]));
        assert_eq!(err.chain, vec!["pass exactly one of --deck-id or --create-deck".to_string()]);
        assert!(err.protocol.is_none());
        assert_eq!(error_response(&err).error.code, "internal_error");
    }
}

#[test]
fn import_with_create_deck_creates_deck_and_imports_cards() {
    let cmd = import_cmd(None, Some("Imported"), "merge", false);
    let created = deck(1, "Imported", None);
    let mut replies = vec![Reply::CardsRead(1)];
    assert!(matches!(request(step(&cmd, replies_copy(&replies))), Request::OpenStorage));
    replies.push(opened());
    match request(step(&cmd, replies_copy(&replies))) {
        Request::ImportIntoNewDeck { name, description, strategy, catalog_id } => {
            assert_eq!(name, "Imported");
            assert!(description.is_none());
            assert_eq!(strategy, DuplicateStrategy::Merge);
            assert!(catalog_id.is_none());
        },
        other => panic!("unexpected {other:?}"),
    }
    replies.push(Reply::Imported(created, summary(1, "Imported", 1, 1)));
    assert!(matches!(request(step(&cmd, replies_copy(&replies))), Request::ActiveDeckId));
    replies.push(Reply::Id(None));
    assert!(matches!(request(step(&cmd, replies_copy(&replies))), Request::SetActiveDeck(1)));
    replies.push(Reply::Done);
    assert_eq!(
        lines(step(&cmd, replies)),
        vec!["Imported deck=Imported input=1 inserted=1 updated=0 merged=0 skipped=0".to_string()]
    );
}

#[test]
fn import_with_deck_id_still_imports_into_existing_deck() {
    let cmd = import_cmd(Some(1), None, "skip", true);
    let existing = || deck(1, "Existing", None);
    let base = || vec![Reply::CardsRead(1), opened()];
    assert!(matches!(request(step(&cmd, base())), Request::DeckById(1)));
    let mut replies = base();
    replies.push(Reply::Deck(Some(existing())));
    assert!(matches!(
        request(step(&cmd, replies_copy(&replies))),
        Request::ImportInto { deck_id: 1, strategy: DuplicateStrategy::Skip }
    ));
    replies.push(Reply::Summary(summary(1, "Existing", 1, 1)));
    replies.push(Reply::Id(Some(1)));
    match step(&cmd, replies) {
        Step::Finish(Outcome::Json(Response::Import(r))) => {
            assert_eq!(r.schema, "fishword.protocol.import.v1");
            assert_eq!(r.deck_id, 1);
            assert_eq!(r.deck, "Existing");
            assert_eq!((r.input, r.inserted, r.updated, r.merged, r.skipped), (1, 1, 0, 0, 0));
        },
        other => panic!("unexpected {other:?}"),
    }
}

#[test]
fn import_with_create_deck_rejects_existing_deck() {
    let cmd = import_cmd(None, Some("Existing"), "merge", false);
    let replies = vec![Reply::CardsRead(1), opened(), Reply::Failed(Error::AlreadyExists("Existing".to_string()))];
    let err = failure(step(&cmd, replies));
    assert_eq!(
        err.chain,
        vec![
            "Deck already exists: Existing. Use `fishword deck list` to find its id, then import with `--deck-id <id>`."
                .to_string()
        ]
    );
}

#[test]
fn import_into_a_missing_deck_id_fails() {
    let cmd = import_cmd(Some(7), None, "merge", false);
    let err = failure(step(&cmd, vec![Reply::CardsRead(1), opened(), Reply::Deck(None)]));
    assert_eq!(err.chain, vec!["deck not found: 7. Run `fishword deck create <name>` first.".to_string()]);
    let unreadable = failure(step(&cmd, vec![Reply::Failed(Error::Io("no such file".to_string()))]));
    assert_eq!(
        unreadable.chain,
        vec!["failed to parse words.jsonl".to_string(), "io error: no such file".to_string(), "no such file".to_string()]
    );
}

fn replies_copy(replies: &[Reply]) -> Vec<Reply> {
    replies
        .iter()
        .map(|r| match r {
            Reply::Opened(p) => Reply::Opened(p.clone()),
            Reply::CardsRead(n) => Reply::CardsRead(*n),
            Reply::Done => Reply::Done,
            Reply::Id(i) => Reply::Id(*i),
            Reply::Deck(Some(d)) => Reply::Deck(Some(d.copy())),
            Reply::Deck(None) => Reply::Deck(None),
            Reply::Imported(d, s) => Reply::Imported(d.copy(), summary(s.deck_id, &s.deck_name, s.input_count, s.inserted)),
            Reply::Summary(s) => Reply::Summary(summary(s.deck_id, &s.deck_name, s.input_count, s.inserted)),
            Reply::Count(n) => Reply::Count(*n),
            Reply::Progress(p) => Reply::Progress(*p),
            Reply::Now(t) => Reply::Now(*t),
            Reply::Percent(p) => Reply::Percent(*p),
            other => panic!("not copied in tests: {other:?}"),
        })
        .collect()
}

fn review(rating: Rating) -> ScheduledReview {
    ScheduledReview {
        card_id: 5,
        rating,
        reviewed_at: "2026-06-10 00:00:00".to_string(),
        due: "2026-06-14 00:00:00".to_string(),
        elapsed_days: 0,
        scheduled_days: 4,
        stability_bits: 4.0f64.to_bits(),
        difficulty_bits: 5.0f64.to_bits(),
        state: ReviewState::Review,
    }
}

#[test]
fn rate_walks_through_scope_review_and_next_card() {
    let cmd = rate_args("good", None, false);
    assert!(matches!(request(step(&cmd, vec![opened()])), Request::ActiveDeck));
    let scoped = || vec![opened(), Reply::Deck(Some(deck(2, "cet4", Some("CET-4"))))];
    assert!(matches!(request(step(&cmd, scoped())), Request::CurrentCardId));
    let mut replies = scoped();
    replies.push(Reply::Id(Some(5)));
    assert!(matches!(request(step(&cmd, replies_copy(&replies))), Request::CardById(5)));
    let mut replies = scoped();
    replies.push(Reply::Id(Some(5)));
    replies.push(Reply::Card(Some(card(5, 2, "cancel"))));
    assert!(matches!(
        request(step(&cmd, replies_clone_with_card(&replies))),
        Request::Review { card_id: 5, rating: Rating::Good }
    ));
    replies.push(Reply::Reviewed(review(Rating::Good)));
    assert!(matches!(request(step(&cmd, replies_clone_with_card(&replies))), Request::SelectNext(2)));
    replies.push(Reply::Selected(Some(SelectedCard { card: card(6, 2, "absorb"), reason: SelectionReason::New })));
    assert!(matches!(request(step(&cmd, replies_clone_with_card(&replies))), Request::DeckById(2)));
    replies.push(Reply::Deck(Some(deck(2, "cet4", Some("CET-4")))));
    assert_eq!(
        lines(step(&cmd, replies)),
        vec!["Rated cancel as good. due=2026-06-14 00:00:00 scheduled_days=4".to_string(), "Next: absorb".to_string()]
    );
}

fn replies_clone_with_card(replies: &[Reply]) -> Vec<Reply> {
    replies
        .iter()
        .map(|r| match r {
            Reply::Card(Some(c)) => Reply::Card(Some(c.copy())),
            Reply::Reviewed(v) => Reply::Reviewed(review(v.rating)),
            Reply::Selected(Some(s)) => Reply::Selected(Some(SelectedCard { card: s.card.copy(), reason: s.reason })),
            Reply::Selected(None) => Reply::Selected(None),
            other => replies_copy(std::slice::from_ref(other)).pop().unwrap(),
        })
        .collect()
}

#[test]
fn rate_in_json_answers_with_the_rate_response() {
    let cmd = rate_args("again", Some(2), true);
    let replies = vec![
        opened(),
        Reply::Deck(Some(deck(2, "cet4", Some("CET-4")))),
        Reply::Id(Some(5)),
        Reply::Card(Some(card(5, 2, "cancel"))),
        Reply::Reviewed(review(Rating::Again)),
        Reply::Selected(None),
    ];
    assert!(matches!(request(step(&cmd, replies_clone_with_card(&replies))), Request::Progress(2)));
    let mut replies = replies;
    replies.push(Reply::Progress(progress()));
    match step(&cmd, replies) {
        Step::Finish(Outcome::Json(Response::Rate(r))) => {
            assert_eq!(r.schema, "fishword.protocol.rate.v1");
            assert_eq!(r.card.term, "cancel");
            assert_eq!(r.review.rating, "again");
            assert_eq!(r.progress.new_today_remaining, 19);
            assert!(r.next.is_none());
        },
        other => panic!("unexpected {other:?}"),
    }
}

#[test]
fn rate_refuses_without_a_current_card_in_the_deck() {
    let cmd = rate_args("good", None, true);
    assert_eq!(
        refusal(step(&cmd, vec![opened(), Reply::Deck(None)])),
        ("no_active_deck".to_string(), "No active deck. Run `fishword deck use <deck>` first.".to_string())
    );
    let scoped = || vec![opened(), Reply::Deck(Some(deck(2, "cet4", None)))];
    let mut none = scoped();
    none.push(Reply::Id(None));
    assert_eq!(
        refusal(step(&cmd, none)),
        ("no_current_card".to_string(), "No current card. Run `fishword current` first.".to_string())
    );
    let mut other = scoped();
    other.push(Reply::Id(Some(9)));
    other.push(Reply::Card(Some(card(9, 3, "elsewhere"))));
    assert_eq!(
        refusal(step(&cmd, other)),
        ("no_current_card".to_string(), "No current card in this deck. Run `fishword current` first.".to_string())
    );
    let failed = vec![opened(), Reply::Failed(Error::Db("locked".to_string()))];
    assert_eq!(refusal(step(&cmd, failed)), ("storage_error".to_string(), "failed to read active deck".to_string()));
}

fn output_args(json: bool, format: &str) -> Cmd {
    Cmd::Current(CardOutputArgs { json, deck: None, format: format.to_string() })
}

#[test]
fn current_shows_the_selected_card() {
    let cmd = output_args(false, "plain");
    let base = || vec![opened(), Reply::Deck(Some(deck(2, "cet4", Some("CET-4"))))];
    assert!(matches!(request(step(&cmd, base())), Request::SelectCurrent(2)));
    let with_card = || {
        let mut r = base();
        r.push(Reply::Selected(Some(SelectedCard { card: card(5, 2, "cancel"), reason: SelectionReason::Mature })));
        r
    };
    assert!(matches!(request(step(&cmd, with_card())), Request::DeckById(2)));
    let mut replies = with_card();
    replies.push(Reply::Deck(Some(deck(2, "cet4", Some("CET-4")))));
    replies.push(Reply::Progress(progress()));
    assert_eq!(lines(step(&cmd, replies)), vec!["cancel - 取消".to_string()]);

    let bad = output_args(false, "fancy");
    let mut replies = with_card();
    replies.push(Reply::Deck(Some(deck(2, "cet4", Some("CET-4")))));
    replies.push(Reply::Progress(progress()));
    let err = failure(step(&bad, replies));
    assert_eq!(
        error_report(&err),
        "Error: invalid --format 'fancy', expected plain/compact/status\n\nCaused by:\n    unknown format: fancy"
    );
}

#[test]
fn current_without_deck_or_cards() {
    let text = output_args(false, "plain");
    assert_eq!(
        lines(step(&text, vec![opened(), Reply::Deck(None)])),
        vec!["No active deck. Run `fishword deck use <deck>` first.".to_string()]
    );
    let json = output_args(true, "plain");
    assert_eq!(refusal(step(&json, vec![opened(), Reply::Deck(None)])).0, "no_active_deck");
    let empty = || vec![opened(), Reply::Deck(Some(deck(2, "cet4", None))), Reply::Selected(None)];
    assert_eq!(lines(step(&text, empty())), vec!["No cards found. Import a deck first.".to_string()]);
    assert_eq!(
        refusal(step(&json, empty())),
        ("no_cards".to_string(), "No cards found. Import a deck first.".to_string())
    );
}

#[test]
fn status_prints_the_chosen_format() {
    let status = |format: &str| Cmd::Status(StatusArgs { json: false, deck: Some(2), format: format.to_string() });
    let replies = || {
        vec![
            opened(),
            Reply::Deck(Some(deck(2, "cet4", Some("CET-4")))),
            Reply::Progress(ProgressCounts { due_count: 12, new_remaining: 8, new_reviewed_today: 0, reviewed_today: 3 }),
            Reply::Count(120),
        ]
    };
    assert_eq!(lines(step(&status("compact"), replies())), vec!["12 due · 8 new · 3 done".to_string()]);
    assert_eq!(lines(step(&status("statusline"), replies())), vec!["📚 CET-4 · 12 due · 8 new · 3 done".to_string()]);
    assert_eq!(
        lines(step(&status("plain"), replies())),
        vec!["CET-4: 12 due, 8 new, 3 reviewed today".to_string()]
    );
    let err = failure(step(&status("tiny"), replies()));
    assert_eq!(err.chain, vec!["invalid --format 'tiny', expected plain/compact/statusline".to_string()]);
    assert_eq!(
        refusal(step(&status("plain"), vec![opened(), Reply::Deck(None)])),
        ("deck_not_found".to_string(), "Deck not found: 2".to_string())
    );
}

fn stats_bucket(date: &str, reviews: i64, good: i64, easy: i64) -> DailyReviewBucket {
    DailyReviewBucket {
        date: date.to_string(),
        stats: DailyReviewStats { reviews, again: reviews - good - easy, hard: 0, good, easy },
    }
}

#[test]
fn stats_asks_for_the_week_and_prints_a_table() {
    let cmd = Cmd::Stats(StatsArgs { json: false, deck: None, range: "7d".to_string() });
    let base = || vec![opened(), Reply::Deck(Some(deck(2, "cet4", None)))];
    assert!(matches!(request(step(&cmd, base())), Request::Now));
    let mut replies = base();
    // 2026-06-10 12:00:00 UTC.
    replies.push(Reply::Now(Timestamp { secs: 1_781_092_800, nanos: 0 }));
    match request(step(&cmd, replies_copy(&replies))) {
        Request::ReviewDays { deck_id, first, last } => {
            assert_eq!(deck_id, 2);
            assert_eq!(first, "2026-06-04");
            assert_eq!(last, "2026-06-10");
        },
        other => panic!("unexpected {other:?}"),
    }
    replies.push(Reply::Buckets(vec![stats_bucket("2026-06-09", 4, 2, 1), stats_bucket("2026-06-10", 4, 1, 0)]));
    let copy = |rs: &Vec<Reply>| {
        let mut v = replies_copy(&rs[..3]);
        v.push(Reply::Buckets(vec![stats_bucket("2026-06-09", 4, 2, 1), stats_bucket("2026-06-10", 4, 1, 0)]));
        v
    };
    assert!(matches!(
        request(step(&cmd, copy(&replies))),
        Request::Percent(Ratio { numerator: 4, denominator: 8 })
    ));
    let mut done = copy(&replies);
    done.push(Reply::Percent(50));
    let printed = lines(step(&cmd, done));
    assert_eq!(printed[0], "Today: 4 reviews");
    assert_eq!(printed[1], "7 days: 8 reviews, 50% good/easy");
    assert_eq!(printed[2], "DATE         REVIEWS   AGAIN    HARD    GOOD    EASY");
    assert_eq!(printed[3], "2026-06-04         0       0       0       0       0");
    assert_eq!(printed[8], "2026-06-09         4       1       0       2       1");
    assert_eq!(printed.len(), 10);
}

#[test]
fn stats_refuses_other_ranges() {
    let cmd = Cmd::Stats(StatsArgs { json: true, deck: None, range: "30d".to_string() });
    assert_eq!(refusal(step(&cmd, vec![])), ("invalid_range".to_string(), "Invalid range: 30d".to_string()));
}

#[test]
fn card_list_checks_the_page_and_prints_a_table() {
    let list = |page: i64, page_size: i64, json: bool| Cmd::Card {
        sub: CardCmd::List(CardListArgs { deck: 1, page, page_size, json }),
    };
    assert_eq!(
        refusal(step(&list(0, 10, true), vec![])),
        ("invalid_page".to_string(), "Page must be greater than or equal to 1.".to_string())
    );
    assert_eq!(
        refusal(step(&list(1, 0, true), vec![])),
        ("invalid_page_size".to_string(), "Page size must be greater than or equal to 1.".to_string())
    );
    let cmd = list(2, 2, false);
    let base = || vec![opened(), Reply::Deck(Some(deck(1, "Imported", None)))];
    assert!(matches!(request(step(&cmd, base())), Request::CardCount(1)));
    let mut counted = base();
    counted.push(Reply::Count(3));
    assert!(matches!(
        request(step(&cmd, replies_copy(&counted))),
        Request::CardPage { deck_id: 1, limit: 2, offset: 2 }
    ));
    let mut page = replies_copy(&counted);
    let mut c = card(3, 1, "cancel");
    c.meanings.push(Meaning { part_of_speech: "v".to_string(), definition: "撤销".to_string(), example: None });
    page.push(Reply::Cards(vec![c]));
    assert_eq!(
        lines(step(&cmd, page)),
        vec![
            "Deck: Imported (1)  Page 2/2  Total 3".to_string(),
            "ID      WORD                  MEANINGS".to_string(),
            "-".repeat(60),
            "3       cancel                取消; [v] 撤销".to_string(),
        ]
    );
    let mut beyond = replies_copy(&counted);
    beyond.push(Reply::Cards(vec![]));
    assert_eq!(lines(step(&cmd, beyond)), vec!["No cards on page 2 for deck '1' (3 cards, 2 pages).".to_string()]);
    let mut empty = base();
    empty.push(Reply::Count(0));
    empty.push(Reply::Cards(vec![]));
    assert_eq!(lines(step(&cmd, empty)), vec!["No cards in deck '1'.".to_string()]);
}

#[test]
fn deck_list_prints_a_table_with_the_active_mark() {
    let cmd = Cmd::Deck { sub: DeckCmd::List { json: false } };
    let mut catalog_deck = deck(2, "cet6", Some("CET-6"));
    catalog_deck.catalog_id = Some("cet6".to_string());
    let replies = vec![opened(), Reply::Decks(vec![deck(1, "cet4", Some("CET-4")), catalog_deck]), Reply::Id(Some(2))];
    let printed = lines(step(&cmd, replies));
    assert_eq!(printed[0], "ACTIVE  ID      NAME                  CATALOG         DESCRIPTION");
    assert_eq!(printed[1], "-".repeat(72));
    assert_eq!(printed[2], "        1       cet4                  -               CET-4");
    assert_eq!(printed[3], "*       2       cet6                  cet6            CET-6");
    let none = vec![opened(), Reply::Decks(vec![]), Reply::Id(None)];
    assert_eq!(lines(step(&cmd, none)), vec!["No decks found.".to_string()]);
}

#[test]
fn deck_changes_report_conflicts_and_missing_decks() {
    let create = Cmd::Deck { sub: DeckCmd::Create { name: "cet4".to_string(), description: None, json: true } };
    assert_eq!(
        refusal(step(&create, vec![opened(), Reply::Failed(Error::AlreadyExists("cet4".to_string()))])),
        ("deck_already_exists".to_string(), "Deck already exists: cet4".to_string())
    );
    let created = Cmd::Deck { sub: DeckCmd::Create { name: "cet4".to_string(), description: None, json: false } };
    assert_eq!(
        lines(step(&created, vec![opened(), Reply::Deck(Some(deck(4, "cet4", None)))])),
        vec!["Created deck: cet4 (id=4)".to_string()]
    );
    let delete = Cmd::Deck { sub: DeckCmd::Delete { id: 8, json: true } };
    assert_eq!(
        refusal(step(&delete, vec![opened(), Reply::Failed(Error::NotFound("deck 8".to_string()))])),
        ("deck_not_found".to_string(), "Deck not found: 8".to_string())
    );
    let rename = Cmd::Deck { sub: DeckCmd::Rename { id: 3, new_name: "toefl".to_string(), json: false } };
    assert_eq!(
        lines(step(&rename, vec![opened(), Reply::Deck(Some(deck(3, "toefl", None)))])),
        vec!["Renamed deck 3 to: toefl".to_string()]
    );
    let db_failure = failure(step(&rename, vec![opened(), Reply::Failed(Error::Db("disk I/O error".to_string()))]));
    assert_eq!(db_failure.chain, vec!["database error: disk I/O error".to_string(), "disk I/O error".to_string()]);
    assert_eq!(
        error_report(&db_failure),
        "Error: database error: disk I/O error\n\nCaused by:\n    disk I/O error"
    );
}

#[test]
fn deck_use_sets_the_active_deck_then_clears_the_current_card() {
    let cmd = Cmd::Deck { sub: DeckCmd::Use { deck: 2, json: false } };
    let base = || vec![opened(), Reply::Deck(Some(deck(2, "cet4", Some("CET-4"))))];
    assert!(matches!(request(step(&cmd, base())), Request::SetActiveDeck(2)));
    let mut replies = base();
    replies.push(Reply::Done);
    assert!(matches!(request(step(&cmd, replies_copy(&replies))), Request::ClearCurrentCard));
    replies.push(Reply::Done);
    assert_eq!(lines(step(&cmd, replies)), vec!["Active deck: cet4 (2)".to_string()]);
    let current = Cmd::Deck { sub: DeckCmd::Current };
    assert_eq!(
        lines(step(&current, vec![opened(), Reply::Deck(Some(deck(2, "cet4", None)))])),
        vec!["Active deck: cet4 (2) ".to_string()]
    );
}

#[test]
fn init_reports_the_database_path() {
    assert_eq!(lines(step(&Cmd::Init, vec![opened()])), vec!["Initialized: /tmp/fishword.db".to_string()]);
    let err = failure(step(&Cmd::Init, vec![Reply::OpenFailed("/x/db".to_string(), Error::Io("denied".to_string()))]));
    assert_eq!(err.chain[0], "cannot initialize database at /x/db");
}

fn entry(id: &str, name: &str) -> CatalogDeckEntry {
    CatalogDeckEntry {
        id: id.to_string(),
        slug: id.to_string(),
        source_id: "kajweb".to_string(),
        name: name.to_string(),
        description: Some(format!("{name} words")),
        language: "en".to_string(),
        word_count: 4500,
        tags: vec!["exam".to_string(), "china".to_string()],
        source: Some(Source { name: "kajweb".to_string(), license: None }),
        url: format!("https://example.invalid/{id}.jsonl"),
        size_bytes: 1024,
    }
}

#[test]
fn catalog_list_prints_the_entries() {
    let cmd = Cmd::Catalog { sub: CatalogCmd::List { json: false } };
    assert!(matches!(request(step(&cmd, vec![])), Request::FetchCatalog));
    let printed = lines(step(&cmd, vec![Reply::Catalog(vec![entry("cet4", "CET-4")])]));
    assert_eq!(printed[0], "ID               Name          Words  Source             Tags");
    assert_eq!(printed[2], "cet4             CET-4          4500  kajweb             exam china");
    let failed = Reply::FetchFailed {
        url: "https://example.invalid/catalog.json".to_string(),
        failure: FetchFailure::Network("connection refused".to_string()),
    };
    let err = failure(step(&cmd, vec![failed]));
    assert_eq!(
        error_response(&err).error.code,
        "network_error"
    );
    assert_eq!(
        error_report(&err),
        "Error: failed to fetch catalog from https://example.invalid/catalog.json\n\nCaused by:\n    Network request failed: connection refused"
    );
}

#[test]
fn catalog_fetch_imports_into_a_new_deck_tagged_with_the_catalog_id() {
    let cmd = Cmd::Catalog {
        sub: CatalogCmd::Fetch { catalog_id: "cet4".to_string(), duplicates: "merge".to_string(), json: false },
    };
    let catalog = || Reply::Catalog(vec![entry("cet6", "CET-6"), entry("cet4", "CET-4")]);
    assert!(matches!(
        request(step(&cmd, vec![catalog()])),
        Request::FetchDeckFile(u) if u == "https://example.invalid/cet4.jsonl"
    ));
    let base = || vec![catalog(), Reply::CardsRead(2), opened()];
    assert!(matches!(request(step(&cmd, base())), Request::DeckByCatalogId(c) if c == "cet4"));
    let mut fresh = base();
    fresh.push(Reply::Deck(None));
    match request(step(&cmd, fresh)) {
        Request::ImportIntoNewDeck { name, description, strategy, catalog_id } => {
            assert_eq!(name, "CET-4");
            assert_eq!(description.as_deref(), Some("CET-4 words"));
            assert_eq!(strategy, DuplicateStrategy::Merge);
            assert_eq!(catalog_id.as_deref(), Some("cet4"));
        },
        other => panic!("unexpected {other:?}"),
    }
    let mut conflict = base();
    conflict.push(Reply::Deck(None));
    conflict.push(Reply::Failed(Error::AlreadyExists("CET-4".to_string())));
    let (code, message) = refusal(step(&cmd, conflict));
    assert_eq!(code, "deck_name_conflict");
    assert_eq!(
        message,
        "A deck named 'CET-4' already exists but was not created by `fishword catalog fetch cet4`. Refusing to merge into it to avoid mixing unrelated data. Rename or delete that deck, then retry."
    );
    let mut done = base();
    done.push(Reply::Deck(None));
    done.push(Reply::Imported(deck(3, "CET-4", Some("CET-4 words")), summary(3, "CET-4", 2, 2)));
    done.push(Reply::Id(Some(1)));
    assert_eq!(
        lines(step(&cmd, done)),
        vec!["Fetched deck=CET-4 input=2 inserted=2 updated=0 merged=0 skipped=0".to_string()]
    );
    let missing = Cmd::Catalog {
        sub: CatalogCmd::Fetch { catalog_id: "gre".to_string(), duplicates: "merge".to_string(), json: true },
    };
    assert_eq!(
        refusal(step(&missing, vec![catalog()])),
        (
            "deck_not_found".to_string(),
            "Catalog deck 'gre' not found. Run `fishword catalog list` to see available decks.".to_string()
        )
    );
}

#[test]
fn protocol_errors_and_reports() {
    let err = cmd_error(true, "no_cards", "No cards found. Import a deck first.");
    assert_eq!(error_report(&err), "Error: No cards found. Import a deck first.");
    let chained = CommandError {
        chain: vec!["failed to read deck 3".to_string(), "database error: busy".to_string(), "busy".to_string()],
        protocol: None,
    };
    assert_eq!(
        error_report(&chained),
        "Error: failed to read deck 3\n\nCaused by:\n    0: database error: busy\n    1: busy"
    );
    let response = error_response(&chained);
    assert_eq!(response.error.code, "internal_error");
    assert_eq!(response.error.message, "failed to read deck 3");
}

#[test]
fn parse_error_codes() {
    assert_eq!(clap_error_code(ParseErrorKind::UnknownArgument), "unknown_argument");
    assert_eq!(clap_error_code(ParseErrorKind::MissingRequiredArgument), "missing_required_argument");
    assert_eq!(clap_error_code(ParseErrorKind::InvalidValue), "invalid_argument");
    assert_eq!(clap_error_code(ParseErrorKind::WrongNumberOfValues), "wrong_number_of_values");
    assert_eq!(clap_error_code(ParseErrorKind::Other), "cli_parse_error");
    assert!(is_display_request(ParseErrorKind::DisplayVersion));
    assert!(!is_display_request(ParseErrorKind::ArgumentConflict));
}

#[test]
fn catalog_fetch_merges_into_the_deck_fetched_before() {
    let cmd = Cmd::Catalog {
        sub: CatalogCmd::Fetch { catalog_id: "cet4".to_string(), duplicates: "skip".to_string(), json: true },
    };
    let mut earlier = deck(9, "CET-4 (mine)", None);
    earlier.catalog_id = Some("cet4".to_string());
    let base = || {
        let mut earlier = deck(9, "CET-4 (mine)", None);
        earlier.catalog_id = Some("cet4".to_string());
        vec![Reply::Catalog(vec![entry("cet4", "CET-4")]), Reply::CardsRead(2), opened(), Reply::Deck(Some(earlier))]
    };
    assert!(matches!(
        request(step(&cmd, base())),
        Request::ImportInto { deck_id: 9, strategy: DuplicateStrategy::Skip }
    ));
    let mut replies = base();
    replies.push(Reply::Summary(summary(9, "CET-4 (mine)", 2, 0)));
    replies.push(Reply::Id(None));
    replies.push(Reply::Done);
    match step(&cmd, replies) {
        Step::Finish(Outcome::Json(Response::CatalogFetch(r))) => {
            assert_eq!(r.schema, "fishword.protocol.catalog_fetch.v1");
            assert_eq!(r.catalog_id, "cet4");
            assert_eq!(r.slug, "cet4");
            assert_eq!(r.source_id, "kajweb");
            assert_eq!(r.name, earlier.name);
            assert_eq!(r.import.deck_id, 9);
            assert_eq!(r.import.input, 2);
        },
        other => panic!("unexpected {other:?}"),
    }
}

#[test]
fn status_and_stats_ask_only_for_reads() {
    let status = Cmd::Status(StatusArgs { json: true, deck: None, format: "plain".to_string() });
    let replies = vec![
        opened(),
        Reply::Deck(Some(deck(2, "cet4", None))),
        Reply::Progress(progress()),
    ];
    assert!(matches!(request(step(&status, vec![])), Request::OpenStorage));
    assert!(matches!(request(step(&status, vec![opened()])), Request::ActiveDeck));
    assert!(matches!(request(step(&status, replies)), Request::CardCount(2)));
    let current = output_args(true, "plain");
    let asked = request(step(&current, vec![opened(), Reply::Deck(Some(deck(2, "cet4", None)))]));
    assert!(matches!(asked, Request::SelectCurrent(2)));
}

#[test]
fn failures_end_with_status_one_and_one_json_line_in_json_mode() {
    let json = render_outcome(Outcome::Fail(cmd_error(true, "no_cards", "No cards found. Import a deck first.")), true);
    assert_eq!(json.code, 1);
    assert!(json.stderr.is_empty());
    assert_eq!(json.stdout.len(), 1);
    match &json.stdout[0] {
        Output::Error(r) => {
            assert_eq!(r.schema, "fishword.protocol.error.v1");
            assert_eq!(r.error.code, "no_cards");
        },
        other => panic!("unexpected {other:?}"),
    }
    let text = render_outcome(Outcome::Fail(cmd_error(false, "no_cards", "No cards found. Import a deck first.")), false);
    assert_eq!(text.code, 1);
    assert!(text.stdout.is_empty());
    assert_eq!(text.stderr, vec!["Error: No cards found. Import a deck first.".to_string()]);
    let printed = render_outcome(Outcome::Print(vec!["a".to_string(), "b".to_string()]), false);
    assert_eq!(printed.code, 0);
    assert_eq!(printed.stdout.len(), 2);
    assert!(matches!(&printed.stdout[1], Output::Line(l) if l == "b"));
}
