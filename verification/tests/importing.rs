use fishword::card::{Card, Meaning, Pronunciation, Source};
use fishword::deck::Deck;
use fishword::error::Error;
use fishword::text::split_lines;
use fishword::importer::{
    deck_v1_to_import_card, default_language, default_meaning_lang, import_jsonl_lines, jsonl_text_lines, merge_import_card,
    plan_import_card, DeckCardV1, DeckMeaningV1, DeckPronunciationV1, DuplicateStrategy, ImportCard, ImportStep,
    ImportSummary, JsonlLine,
};

fn meaning(lang: &str, text: &str, example: Option<&str>) -> DeckMeaningV1 {
    DeckMeaningV1 { lang: lang.to_string(), text: text.to_string(), example: example.map(|e| e.to_string()) }
}

fn deck_card(term: &str, meanings: Vec<DeckMeaningV1>, tags: &[&str]) -> DeckCardV1 {
    DeckCardV1 {
        word: term.to_string(),
        language: default_language(),
        meanings,
        pronunciation: None,
        tags: tags.iter().map(|t| t.to_string()).collect(),
        source: None,
    }
}

fn one_line(card: DeckCardV1) -> Vec<JsonlLine> {
    vec![JsonlLine::Record(card)]
}

#[test]
fn imports_jsonl() {
    let mut card = deck_card("cancel", vec![meaning("zh-CN", "取消", None)], &[]);
    card.pronunciation =
        Some(DeckPronunciationV1 { us: Some("'kænsl".to_string()), uk: Some("'kænsl".to_string()) });
    let deck = import_jsonl_lines(&vec![JsonlLine::Blank, JsonlLine::Record(card)], "jsonl", None).unwrap();
    assert_eq!(deck.cards[0].word, "cancel");
    assert_eq!(deck.cards[0].pronunciations.len(), 2);
    assert_eq!(deck.cards[0].pronunciations[0].notation, "US 'kænsl");
    assert_eq!(deck.cards[0].pronunciations[1].notation, "UK 'kænsl");
    assert_eq!(deck.deck_id, "jsonl");
    assert!(deck.deck_name.is_none());
}

#[test]
fn importer_preserves_only_explicit_tags() {
    let plain = import_jsonl_lines(&one_line(deck_card("cancel", vec![meaning("zh-CN", "取消", None)], &[])), "jsonl", None)
        .unwrap();
    assert!(plain.cards[0].tags.is_empty());
    let tagged = import_jsonl_lines(
        &one_line(deck_card("cancel", vec![meaning("zh-CN", "取消", None)], &["review", "hard"])),
        "jsonl",
        None,
    )
    .unwrap();
    assert_eq!(tagged.cards[0].tags, vec!["review", "hard"]);
}

#[test]
fn jsonl_example_field_is_parsed() {
    let deck = import_jsonl_lines(
        &one_line(deck_card("absorb", vec![meaning("v", "吸收", Some("Plants absorb nutrients from the soil."))], &[])),
        "test",
        None,
    )
    .unwrap();
    assert_eq!(deck.cards.len(), 1);
    let meaning = &deck.cards[0].meanings[0];
    assert_eq!(meaning.definition, "吸收");
    assert_eq!(meaning.example.as_deref(), Some("Plants absorb nutrients from the soil."));
}

#[test]
fn jsonl_missing_example_is_none() {
    let deck = import_jsonl_lines(&one_line(deck_card("cancel", vec![meaning("zh-CN", "取消", None)], &[])), "test", None)
        .unwrap();
    assert!(deck.cards[0].meanings[0].example.is_none());
}

#[test]
fn jsonl_multiple_meanings_example_per_meaning() {
    let deck = import_jsonl_lines(
        &one_line(deck_card(
            "access",
            vec![meaning("n", "入口", Some("The only access is across the bridge.")), meaning("vt", "访问", None)],
            &[],
        )),
        "test",
        None,
    )
    .unwrap();
    let meanings = &deck.cards[0].meanings;
    assert_eq!(meanings[0].example.as_deref(), Some("The only access is across the bridge."));
    assert!(meanings[1].example.is_none());
    assert_eq!(meanings[0].part_of_speech, "n");
}

#[test]
fn bad_lines_stop_the_import_with_their_line_number() {
    let lines = vec![
        JsonlLine::Record(deck_card("cancel", vec![], &[])),
        JsonlLine::Malformed("expected value at line 1 column 1".to_string()),
    ];
    match import_jsonl_lines(&lines, "test", Some("Test")) {
        Err(Error::InvalidInput(m)) => assert_eq!(m, "JSONL line 2: expected value at line 1 column 1"),
        other => panic!("unexpected {other:?}"),
    }
    let blank_word = vec![JsonlLine::Record(deck_card("   ", vec![], &[]))];
    match import_jsonl_lines(&blank_word, "test", None) {
        Err(Error::InvalidInput(m)) => assert_eq!(m, "deck.v1 card word is empty"),
        other => panic!("unexpected {other:?}"),
    }
    let named = import_jsonl_lines(&vec![], "test", Some("Test")).unwrap();
    assert_eq!(named.deck_name.as_deref(), Some("Test"));
    assert!(named.cards.is_empty());
}

#[test]
fn blank_pronunciations_are_dropped() {
    let mut card = deck_card("cancel", vec![], &[]);
    card.pronunciation = Some(DeckPronunciationV1 { us: Some("  ".to_string()), uk: Some("'kænsl".to_string()) });
    card.source = Some(Source { name: "kajweb".to_string(), license: None });
    let imported = deck_v1_to_import_card(&card).unwrap();
    assert_eq!(imported.pronunciations.len(), 1);
    assert_eq!(imported.pronunciations[0].notation, "UK 'kænsl");
    assert_eq!(imported.source.unwrap().name, "kajweb");
    assert_eq!(default_meaning_lang(), "zh-CN");
}

#[test]
fn duplicate_strategies_parse_by_name() {
    assert_eq!(DuplicateStrategy::parse("merge").unwrap(), DuplicateStrategy::Merge);
    assert_eq!(DuplicateStrategy::parse("keep").unwrap(), DuplicateStrategy::Keep);
    assert_eq!("overwrite".parse::<DuplicateStrategy>().unwrap(), DuplicateStrategy::Overwrite);
    assert_eq!(DuplicateStrategy::default(), DuplicateStrategy::Merge);
    match DuplicateStrategy::parse("nonsense") {
        Err(Error::InvalidInput(m)) => assert_eq!(m, "unknown duplicate strategy 'nonsense'"),
        other => panic!("unexpected {other:?}"),
    }
}

fn stored(id: i64, word: &str, definition: &str, tags: &[&str]) -> Card {
    Card {
        id,
        deck_id: 1,
        word: word.to_string(),
        language: "en".to_string(),
        meanings: vec![Meaning { part_of_speech: "zh-CN".to_string(), definition: definition.to_string(), example: None }],
        pronunciations: vec![Pronunciation { notation: "US 'kænsl".to_string(), audio_url: None }],
        tags: tags.iter().map(|t| t.to_string()).collect(),
        source: None,
        created_at: "2026-06-10 00:00:00".to_string(),
    }
}

fn incoming(definition: &str, tags: &[&str]) -> ImportCard {
    deck_v1_to_import_card(&deck_card("cancel", vec![meaning("zh-CN", definition, None)], tags)).unwrap()
}

#[test]
fn duplicate_skip_and_merge_plans() {
    let existing = stored(4, "cancel", "取消", &[]);
    let duplicate = incoming("撤销", &["review"]);
    assert!(matches!(plan_import_card(Some(&existing), &duplicate, DuplicateStrategy::Skip), ImportStep::Skip));
    match plan_import_card(Some(&existing), &duplicate, DuplicateStrategy::Merge) {
        ImportStep::Merge { card_id, card } => {
            assert_eq!(card_id, 4);
            assert_eq!(card.meanings.len(), 2);
            assert_eq!(card.meanings[1].definition, "撤销");
            assert!(card.tags.iter().any(|t| t == "review"));
        },
        other => panic!("unexpected {other:?}"),
    }
    assert!(matches!(plan_import_card(None, &duplicate, DuplicateStrategy::Skip), ImportStep::Insert(_)));
}

#[test]
fn duplicate_overwrite_and_keep_plans() {
    let existing = stored(4, "cancel", "取消", &[]);
    let replacement = incoming("撤销", &[]);
    match plan_import_card(Some(&existing), &replacement, DuplicateStrategy::Overwrite) {
        ImportStep::Overwrite { card_id, card } => {
            assert_eq!(card_id, 4);
            assert_eq!(card.meanings[0].definition, "撤销");
        },
        other => panic!("unexpected {other:?}"),
    }
    assert!(matches!(plan_import_card(Some(&existing), &replacement, DuplicateStrategy::Keep), ImportStep::Insert(_)));
}

#[test]
fn merging_keeps_existing_content_and_adds_only_new_items() {
    let existing = stored(4, "cancel", "取消", &["cet4"]);
    let mut card = deck_card("Cancel", vec![meaning("zh-CN", "取消", None), meaning("v", "删去", None)], &["cet4", "exam"]);
    card.pronunciation = Some(DeckPronunciationV1 { us: Some("'kænsl".to_string()), uk: Some("'kænsəl".to_string()) });
    card.source = Some(Source { name: "kajweb".to_string(), license: None });
    let merged = merge_import_card(&existing, &deck_v1_to_import_card(&card).unwrap());
    assert_eq!(merged.word, "cancel");
    let definitions: Vec<&str> = merged.meanings.iter().map(|m| m.definition.as_str()).collect();
    assert_eq!(definitions, vec!["取消", "删去"]);
    let notations: Vec<&str> = merged.pronunciations.iter().map(|p| p.notation.as_str()).collect();
    assert_eq!(notations, vec!["US 'kænsl", "UK 'kænsəl"]);
    assert_eq!(merged.tags, vec!["cet4", "exam"]);
    assert_eq!(merged.source.unwrap().name, "kajweb");
}

#[test]
fn the_summary_counts_each_step() {
    let deck = Deck {
        id: 3,
        name: "cet4".to_string(),
        description: None,
        created_at: "2026-06-10 00:00:00".to_string(),
        catalog_id: None,
    };
    let mut summary = ImportSummary::start(&deck, 4);
    let card = incoming("取消", &[]);
    summary.record(&ImportStep::Insert(card.copy()));
    summary.record(&ImportStep::Skip);
    summary.record(&ImportStep::Merge { card_id: 1, card: card.copy() });
    summary.record(&ImportStep::Overwrite { card_id: 2, card });
    assert_eq!(summary.deck_id, 3);
    assert_eq!(summary.deck_name, "cet4");
    assert_eq!(
        (summary.input_count, summary.inserted, summary.skipped, summary.merged, summary.updated),
        (4, 1, 1, 1, 1)
    );
}

#[test]
fn a_batch_counts_earlier_cards_of_the_same_word_as_duplicates() {
    let deck = Deck {
        id: 1,
        name: "cet4".to_string(),
        description: None,
        created_at: "2026-06-10 00:00:00".to_string(),
        catalog_id: None,
    };
    let first = incoming("取消", &[]);
    let second = incoming("撤销", &["review"]);
    let mut summary = ImportSummary::start(&deck, 2);
    let step = plan_import_card(None, &first, DuplicateStrategy::Merge);
    assert!(matches!(step, ImportStep::Insert(_)));
    summary.record(&step);
    let stored_first = stored(1, "cancel", "取消", &[]);
    let step = plan_import_card(Some(&stored_first), &second, DuplicateStrategy::Merge);
    assert!(matches!(step, ImportStep::Merge { card_id: 1, .. }));
    summary.record(&step);
    assert_eq!((summary.inserted, summary.updated, summary.skipped, summary.merged), (1, 0, 0, 1));
}

#[test]
fn a_whole_batch_is_summarised_from_its_steps() {
    let deck = Deck {
        id: 7,
        name: "toefl".to_string(),
        description: None,
        created_at: "2026-06-10 00:00:00".to_string(),
        catalog_id: None,
    };
    let card = incoming("取消", &[]);
    let steps = vec![
        ImportStep::Insert(card.copy()),
        ImportStep::Skip,
        ImportStep::Skip,
        ImportStep::Merge { card_id: 1, card: card.copy() },
        ImportStep::Insert(card.copy()),
        ImportStep::Overwrite { card_id: 2, card },
    ];
    let summary = ImportSummary::from_steps(&deck, &steps);
    assert_eq!(summary.deck_id, 7);
    assert_eq!(summary.deck_name, "toefl");
    assert_eq!(
        (summary.input_count, summary.inserted, summary.updated, summary.skipped, summary.merged),
        (6, 2, 1, 2, 1)
    );
    let empty = ImportSummary::from_steps(&deck, &Vec::new());
    assert_eq!((empty.input_count, empty.inserted, empty.updated, empty.skipped, empty.merged), (0, 0, 0, 0, 0));
}

#[test]
fn text_splits_into_lines_as_str_lines_does() {
    let text = "a\r\nb\n\n  \nc\r";
    let expected: Vec<String> = text.lines().map(str::to_string).collect();
    assert_eq!(split_lines(text), expected);
    assert_eq!(split_lines(text), vec!["a", "b", "", "  ", "c\r"]);
    assert_eq!(split_lines("one\ntwo\n"), vec!["one", "two"]);
    assert!(split_lines("").is_empty());
    assert_eq!(split_lines("\n"), vec![""]);
    assert_eq!(split_lines("x\r\r\ny"), vec!["x\r", "y"]);
}

#[test]
fn jsonl_text_marks_blank_lines() {
    let lines = jsonl_text_lines("{\"term\":\"a\"}\r\n\n \t\n{\"term\":\"b\"}");
    assert_eq!(
        lines,
        vec![Some("{\"term\":\"a\"}".to_string()), None, None, Some("{\"term\":\"b\"}".to_string())]
    );
}
