//! The `fishword.deck.v1` card format and the rules for bringing cards into a
//! deck.

use vstd::prelude::*;
use crate::card::{copy_meanings, copy_pronunciations, copy_source, Card, Meaning, Pronunciation, Source};
use crate::deck::Deck;
use crate::error::Error;
use crate::text::{cat, copy_opt, copy_strings, is_blank, is_blank_seq, lines_of, same, split_lines, usize_text, nat_text};

verus! {

/// What to do with an incoming card whose word the deck already has.
#[derive(Debug, Clone, Copy, PartialEq, Eq, Structural)]
pub enum DuplicateStrategy {
    /// Combine the incoming card into the existing one.
    Merge,
    /// Leave the existing card alone.
    Skip,
    /// Replace the existing card's content.
    Overwrite,
    /// Add the incoming card beside the existing one.
    Keep,
}

/// Reading a duplicate strategy from its name.
pub open spec fn parse_duplicate_strategy(s: Seq<char>) -> Result<DuplicateStrategy, Seq<char>> {
    if s == "merge"@ {
        Ok(DuplicateStrategy::Merge)
    } else if s == "skip"@ {
        Ok(DuplicateStrategy::Skip)
    } else if s == "overwrite"@ {
        Ok(DuplicateStrategy::Overwrite)
    } else if s == "keep"@ {
        Ok(DuplicateStrategy::Keep)
    } else {
        Err("unknown duplicate strategy '"@ + s + "'"@)
    }
}

impl DuplicateStrategy {
    /// Parses `merge`, `skip`, `overwrite` or `keep`.
    pub fn parse(value: &str) -> (r: Result<DuplicateStrategy, Error>)
        ensures
            match r {
                Ok(d) => parse_duplicate_strategy(value@) == Ok::<DuplicateStrategy, Seq<char>>(d),
                Err(Error::InvalidInput(m)) => parse_duplicate_strategy(value@) == Err::<DuplicateStrategy, Seq<char>>(m@),
                Err(_) => false,
            },
    {
        if same(value, "merge") {
            Ok(DuplicateStrategy::Merge)
        } else if same(value, "skip") {
            Ok(DuplicateStrategy::Skip)
        } else if same(value, "overwrite") {
            Ok(DuplicateStrategy::Overwrite)
        } else if same(value, "keep") {
            Ok(DuplicateStrategy::Keep)
        } else {
            let mut m = cat("unknown duplicate strategy '", value);
            m.append("'");
            Err(Error::InvalidInput(m))
        }
    }
}

impl Default for DuplicateStrategy {
    fn default() -> (r: DuplicateStrategy)
        ensures
            r == DuplicateStrategy::Merge,
    {
        DuplicateStrategy::Merge
    }
}

impl std::str::FromStr for DuplicateStrategy {
    type Err = Error;

    fn from_str(value: &str) -> (r: Result<Self, Self::Err>)
        ensures
            match r {
                Ok(d) => parse_duplicate_strategy(value@) == Ok::<DuplicateStrategy, Seq<char>>(d),
                Err(Error::InvalidInput(m)) => parse_duplicate_strategy(value@) == Err::<DuplicateStrategy, Seq<char>>(m@),
                Err(_) => false,
            },
    {
        DuplicateStrategy::parse(value)
    }
}

/// A card ready to be stored.
#[derive(Debug)]
pub struct ImportCard {
    pub word: String,
    pub language: String,
    pub meanings: Vec<Meaning>,
    pub pronunciations: Vec<Pronunciation>,
    pub tags: Vec<String>,
    pub source: Option<Source>,
}

/// What an import card holds, with its lists as sequences.
pub struct ImportCardView {
    pub word: String,
    pub language: String,
    pub meanings: Seq<Meaning>,
    pub pronunciations: Seq<Pronunciation>,
    pub tags: Seq<String>,
    pub source: Option<Source>,
}

impl View for ImportCard {
    type V = ImportCardView;

    open spec fn view(&self) -> ImportCardView {
        ImportCardView {
            word: self.word,
            language: self.language,
            meanings: self.meanings@,
            pronunciations: self.pronunciations@,
            tags: self.tags@,
            source: self.source,
        }
    }
}

impl ImportCard {
    pub fn copy(&self) -> (r: ImportCard)
        ensures
            r@ == self@,
    {
        ImportCard {
            word: self.word.clone(),
            language: self.language.clone(),
            meanings: copy_meanings(&self.meanings),
            pronunciations: copy_pronunciations(&self.pronunciations),
            tags: copy_strings(&self.tags),
            source: copy_source(&self.source),
        }
    }
}

/// Cards read for one deck.
#[derive(Debug)]
pub struct ImportDeck {
    pub deck_id: String,
    pub deck_name: Option<String>,
    pub cards: Vec<ImportCard>,
}

/// What an import did.
#[derive(Debug, PartialEq, Eq)]
pub struct ImportSummary {
    pub deck_id: i64,
    pub deck_name: String,
    pub input_count: usize,
    pub inserted: usize,
    pub updated: usize,
    pub skipped: usize,
    pub merged: usize,
}

/// One meaning of a deck.v1 card.
#[derive(Debug)]
pub struct DeckMeaningV1 {
    pub lang: String,
    pub text: String,
    pub example: Option<String>,
}

/// The pronunciations of a deck.v1 card.
#[derive(Debug)]
pub struct DeckPronunciationV1 {
    pub us: Option<String>,
    pub uk: Option<String>,
}

/// One line of a `fishword.deck.v1` JSONL file, as read.
#[derive(Debug)]
pub struct DeckCardV1 {
    /// `word`, or `term`.
    pub word: String,
    pub language: String,
    pub meanings: Vec<DeckMeaningV1>,
    pub pronunciation: Option<DeckPronunciationV1>,
    pub tags: Vec<String>,
    pub source: Option<Source>,
}

/// The language a deck.v1 card has when its line names none.
pub fn default_language() -> (s: String)
    ensures
        s@ == "en"@,
{
    String::from_str("en")
}

/// The language of a deck.v1 meaning whose line names none.
pub fn default_meaning_lang() -> (s: String)
    ensures
        s@ == "zh-CN"@,
{
    String::from_str("zh-CN")
}

/// The stored meaning of a deck.v1 meaning: its language becomes the part of
/// speech, its text the definition.
pub open spec fn meaning_of(m: DeckMeaningV1) -> Meaning {
    Meaning { part_of_speech: m.lang, definition: m.text, example: m.example }
}

/// The stored pronunciations of a deck.v1 card: `US <us>` then `UK <uk>`, each
/// only when present and not blank.
pub open spec fn pronunciation_notations(p: Option<DeckPronunciationV1>) -> Seq<Seq<char>> {
    match p {
        None => Seq::empty(),
        Some(p) => {
            let us = match p.us {
                Some(v) => if is_blank_seq(v@) { Seq::empty() } else { seq!["US "@ + v@] },
                None => Seq::empty(),
            };
            let uk = match p.uk {
                Some(v) => if is_blank_seq(v@) { Seq::empty() } else { seq!["UK "@ + v@] },
                None => Seq::empty(),
            };
            us + uk
        },
    }
}

/// The import card a deck.v1 card becomes; a blank word is refused.
pub open spec fn import_card_spec(card: DeckCardV1, r: ImportCard) -> bool {
    &&& r.word == card.word
    &&& r.language == card.language
    &&& r.meanings@.len() == card.meanings@.len()
    &&& forall|i: int| 0 <= i < card.meanings@.len() ==> r.meanings@[i] == meaning_of(#[trigger] card.meanings@[i])
    &&& r.pronunciations@.len() == pronunciation_notations(card.pronunciation).len()
    &&& forall|i: int| 0 <= i < r.pronunciations@.len() ==> (#[trigger] r.pronunciations@[i]).notation@
        == pronunciation_notations(card.pronunciation)[i] && r.pronunciations@[i].audio_url is None
    &&& r.tags@ == card.tags@
    &&& r.source == card.source
}

/// The message for a deck.v1 card with a blank word.
pub open spec fn empty_word_message() -> Seq<char> {
    "deck.v1 card word is empty"@
}

/// Turns a deck.v1 card into a card to store.
pub fn deck_v1_to_import_card(card: &DeckCardV1) -> (r: Result<ImportCard, Error>)
    ensures
        match r {
            Ok(c) => !is_blank_seq(card.word@) && import_card_spec(*card, c),
            Err(Error::InvalidInput(m)) => is_blank_seq(card.word@) && m@ == empty_word_message(),
            Err(_) => false,
        },
{
    if is_blank(card.word.as_str()) {
        return Err(Error::InvalidInput(String::from_str("deck.v1 card word is empty")));
    }
    let ghost given = *card;
    let source_meanings = &card.meanings;
    let pronunciation = &card.pronunciation;
    let mut meanings: Vec<Meaning> = Vec::new();
    let mut i: usize = 0;
    while i < source_meanings.len()
        invariant
            source_meanings@ == given.meanings@,
            i <= source_meanings.len(),
            meanings@.len() == i,
            forall|j: int| 0 <= j < i ==> meanings@[j] == meaning_of(#[trigger] source_meanings@[j]),
        decreases source_meanings.len() - i,
    {
        let m = &source_meanings[i];
        meanings.push(Meaning {
            part_of_speech: m.lang.clone(),
            definition: m.text.clone(),
            example: copy_opt(&m.example),
        });
        i = i + 1;
    }
    let mut pronunciations: Vec<Pronunciation> = Vec::new();
    match pronunciation {
        Some(p) => {
            match &p.us {
                Some(us) => {
                    if !is_blank(us.as_str()) {
                        pronunciations.push(Pronunciation { notation: cat("US ", us.as_str()), audio_url: None });
                    }
                },
                None => {},
            }
            let ghost after_us = pronunciations@;
            match &p.uk {
                Some(uk) => {
                    if !is_blank(uk.as_str()) {
                        pronunciations.push(Pronunciation { notation: cat("UK ", uk.as_str()), audio_url: None });
                    }
                },
                None => {},
            }
        },
        None => {},
    }
    let r = ImportCard {
        word: card.word.clone(),
        language: card.language.clone(),
        meanings,
        pronunciations,
        tags: copy_strings(&card.tags),
        source: copy_source(&card.source),
    };
    proof {
        let notes = pronunciation_notations(given.pronunciation);
        assert(r.pronunciations@.len() == notes.len());
        assert forall|i: int| 0 <= i < r.pronunciations@.len() implies (#[trigger] r.pronunciations@[i]).notation@
            == notes[i] && r.pronunciations@[i].audio_url is None by {
        }
    }
    Ok(r)
}


/// One line of a JSONL file after reading it as JSON.
#[derive(Debug)]
pub enum JsonlLine {
    /// Empty or whitespace only; ignored.
    Blank,
    /// A deck.v1 card.
    Record(DeckCardV1),
    /// Not a deck.v1 card; the JSON reader's complaint.
    Malformed(String),
}

/// The deck.v1 cards among the lines, in order.
pub open spec fn records(lines: Seq<JsonlLine>) -> Seq<DeckCardV1>
    decreases lines.len(),
{
    if lines.len() == 0 {
        Seq::empty()
    } else {
        match lines.last() {
            JsonlLine::Record(c) => records(lines.drop_last()).push(c),
            _ => records(lines.drop_last()),
        }
    }
}

/// Line `i` can be imported.
pub open spec fn line_ok(line: JsonlLine) -> bool {
    match line {
        JsonlLine::Blank => true,
        JsonlLine::Record(c) => !is_blank_seq(c.word@),
        JsonlLine::Malformed(_) => false,
    }
}

/// Why line `i` (counted from zero) cannot be imported.
pub open spec fn line_error(line: JsonlLine, i: int) -> Seq<char> {
    match line {
        JsonlLine::Malformed(m) => "JSONL line "@ + nat_text((i + 1) as nat) + ": "@ + m@,
        _ => empty_word_message(),
    }
}

/// The lines of a JSONL text, in order: `None` for a blank line, which the
/// import skips, and the line itself for any other, which is read as JSON.
pub fn jsonl_text_lines(text: &str) -> (r: Vec<Option<String>>)
    ensures
        r@.len() == lines_of(text@).len(),
        forall|i: int| 0 <= i < r@.len() ==> match #[trigger] r@[i] {
            None => is_blank_seq(lines_of(text@)[i]),
            Some(line) => !is_blank_seq(lines_of(text@)[i]) && line@ == lines_of(text@)[i],
        },
{
    let lines = split_lines(text);
    let mut r: Vec<Option<String>> = Vec::new();
    let mut i: usize = 0;
    while i < lines.len()
        invariant
            i <= lines.len(),
            lines@.len() == lines_of(text@).len(),
            forall|k: int| 0 <= k < lines@.len() ==> (#[trigger] lines@[k])@ == lines_of(text@)[k],
            r@.len() == i,
            forall|k: int| 0 <= k < i ==> match #[trigger] r@[k] {
                None => is_blank_seq(lines_of(text@)[k]),
                Some(line) => !is_blank_seq(lines_of(text@)[k]) && line@ == lines_of(text@)[k],
            },
        decreases lines.len() - i,
    {
        let line = &lines[i];
        if is_blank(line.as_str()) {
            r.push(None);
        } else {
            r.push(Some(line.clone()));
        }
        i = i + 1;
    }
    r
}

/// The cards of a JSONL file, line by line: blank lines are skipped, the
/// first line that is not a card with a word stops the import with its error.
pub fn import_jsonl_lines(lines: &Vec<JsonlLine>, deck_id: &str, deck_name: Option<&str>) -> (r: Result<ImportDeck, Error>)
    ensures
        match r {
            Ok(d) => {
                &&& forall|i: int| 0 <= i < lines@.len() ==> line_ok(#[trigger] lines@[i])
                &&& d.deck_id@ == deck_id@
                &&& match deck_name { Some(n) => d.deck_name matches Some(x) && x@ == n@, None => d.deck_name is None }
                &&& d.cards@.len() == records(lines@).len()
                &&& forall|j: int| 0 <= j < d.cards@.len() ==> import_card_spec(records(lines@)[j], #[trigger] d.cards@[j])
            },
            Err(Error::InvalidInput(m)) => exists|k: int| {
                &&& 0 <= k < lines@.len()
                &&& !line_ok(#[trigger] lines@[k])
                &&& forall|i: int| 0 <= i < k ==> line_ok(#[trigger] lines@[i])
                &&& m@ == line_error(lines@[k], k)
            },
            Err(_) => false,
        },
{
    let mut cards: Vec<ImportCard> = Vec::new();
    let mut i: usize = 0;
    while i < lines.len()
        invariant
            i <= lines.len(),
            forall|k: int| 0 <= k < i ==> line_ok(#[trigger] lines@[k]),
            cards@.len() == records(lines@.subrange(0, i as int)).len(),
            forall|j: int| 0 <= j < cards@.len() ==> import_card_spec(records(lines@.subrange(0, i as int))[j], #[trigger] cards@[j]),
        decreases lines.len() - i,
    {
        let ghost prev = lines@.subrange(0, i as int);
        let ghost next = lines@.subrange(0, i + 1);
        assert(next.drop_last() =~= prev);
        match &lines[i] {
            JsonlLine::Blank => {},
            JsonlLine::Record(c) => {
                match deck_v1_to_import_card(c) {
                    Ok(card) => {
                        cards.push(card);
                    },
                    Err(e) => {
                        assert(!line_ok(lines@[i as int]));
                        return Err(e);
                    },
                }
            },
            JsonlLine::Malformed(m) => {
                let mut msg = String::from_str("JSONL line ");
                let number = usize_text(i + 1);
                msg.append(number.as_str());
                msg.append(": ");
                msg.append(m.as_str());
                assert(!line_ok(lines@[i as int]));
                return Err(Error::InvalidInput(msg));
            },
        }
        i = i + 1;
    }
    assert(lines@.subrange(0, lines.len() as int) =~= lines@);
    let name = match deck_name {
        Some(n) => Some(String::from_str(n)),
        None => None,
    };
    Ok(ImportDeck { deck_id: String::from_str(deck_id), deck_name: name, cards })
}


/// `x` has a meaning with the same part of speech and definition in `m`.
pub open spec fn has_meaning(m: Seq<Meaning>, x: Meaning) -> bool {
    exists|i: int| 0 <= i < m.len() && (#[trigger] m[i]).part_of_speech@ == x.part_of_speech@
        && m[i].definition@ == x.definition@
}

/// `x` has a pronunciation with the same notation in `m`.
pub open spec fn has_notation(m: Seq<Pronunciation>, x: Pronunciation) -> bool {
    exists|i: int| 0 <= i < m.len() && (#[trigger] m[i]).notation@ == x.notation@
}

/// `x` is a tag of `m`.
pub open spec fn has_tag(m: Seq<String>, x: String) -> bool {
    exists|i: int| 0 <= i < m.len() && (#[trigger] m[i])@ == x@
}

/// `acc`, then each meaning of `inc` not already there.
pub open spec fn merged_meanings(acc: Seq<Meaning>, inc: Seq<Meaning>) -> Seq<Meaning>
    decreases inc.len(),
{
    if inc.len() == 0 {
        acc
    } else {
        let m = merged_meanings(acc, inc.drop_last());
        if has_meaning(m, inc.last()) { m } else { m.push(inc.last()) }
    }
}

/// `acc`, then each pronunciation of `inc` whose notation is new.
pub open spec fn merged_pronunciations(acc: Seq<Pronunciation>, inc: Seq<Pronunciation>) -> Seq<Pronunciation>
    decreases inc.len(),
{
    if inc.len() == 0 {
        acc
    } else {
        let m = merged_pronunciations(acc, inc.drop_last());
        if has_notation(m, inc.last()) { m } else { m.push(inc.last()) }
    }
}

/// `acc`, then each tag of `inc` not already there.
pub open spec fn merged_tags(acc: Seq<String>, inc: Seq<String>) -> Seq<String>
    decreases inc.len(),
{
    if inc.len() == 0 {
        acc
    } else {
        let m = merged_tags(acc, inc.drop_last());
        if has_tag(m, inc.last()) { m } else { m.push(inc.last()) }
    }
}

fn find_meaning(m: &Vec<Meaning>, x: &Meaning) -> (r: bool)
    ensures
        r == has_meaning(m@, *x),
{
    let mut i: usize = 0;
    while i < m.len()
        invariant
            i <= m.len(),
            forall|j: int| 0 <= j < i ==> !((#[trigger] m@[j]).part_of_speech@ == x.part_of_speech@
                && m@[j].definition@ == x.definition@),
        decreases m.len() - i,
    {
        if same(m[i].part_of_speech.as_str(), x.part_of_speech.as_str())
            && same(m[i].definition.as_str(), x.definition.as_str()) {
            return true;
        }
        i = i + 1;
    }
    false
}

fn find_notation(m: &Vec<Pronunciation>, x: &Pronunciation) -> (r: bool)
    ensures
        r == has_notation(m@, *x),
{
    let mut i: usize = 0;
    while i < m.len()
        invariant
            i <= m.len(),
            forall|j: int| 0 <= j < i ==> (#[trigger] m@[j]).notation@ != x.notation@,
        decreases m.len() - i,
    {
        if same(m[i].notation.as_str(), x.notation.as_str()) {
            return true;
        }
        i = i + 1;
    }
    false
}

fn find_tag(m: &Vec<String>, x: &String) -> (r: bool)
    ensures
        r == has_tag(m@, *x),
{
    let mut i: usize = 0;
    while i < m.len()
        invariant
            i <= m.len(),
            forall|j: int| 0 <= j < i ==> (#[trigger] m@[j])@ != x@,
        decreases m.len() - i,
    {
        if same(m[i].as_str(), x.as_str()) {
            return true;
        }
        i = i + 1;
    }
    false
}

/// The card an incoming duplicate merges into: the existing word, language and
/// lists, with the incoming meanings, pronunciations and tags the card lacks
/// appended in order, and the existing source unless it has none.
pub open spec fn merge_spec(existing: Card, incoming: ImportCard, r: ImportCard) -> bool {
    &&& r.word == existing.word
    &&& r.language == existing.language
    &&& r.meanings@ == merged_meanings(existing.meanings@, incoming.meanings@)
    &&& r.pronunciations@ == merged_pronunciations(existing.pronunciations@, incoming.pronunciations@)
    &&& r.tags@ == merged_tags(existing.tags@, incoming.tags@)
    &&& r.source == (if existing.source is Some { existing.source } else { incoming.source })
}

/// Merges an incoming card into the existing card with the same word.
pub fn merge_import_card(existing: &Card, incoming: &ImportCard) -> (r: ImportCard)
    ensures
        merge_spec(*existing, *incoming, r),
{
    let mut meanings = copy_meanings(&existing.meanings);
    let mut i: usize = 0;
    while i < incoming.meanings.len()
        invariant
            i <= incoming.meanings.len(),
            meanings@ == merged_meanings(existing.meanings@, incoming.meanings@.subrange(0, i as int)),
        decreases incoming.meanings.len() - i,
    {
        let ghost next = incoming.meanings@.subrange(0, i + 1);
        assert(next.drop_last() =~= incoming.meanings@.subrange(0, i as int));
        if !find_meaning(&meanings, &incoming.meanings[i]) {
            meanings.push(incoming.meanings[i].copy());
        }
        i = i + 1;
    }
    assert(incoming.meanings@.subrange(0, incoming.meanings.len() as int) =~= incoming.meanings@);
    let mut pronunciations = copy_pronunciations(&existing.pronunciations);
    let mut k: usize = 0;
    while k < incoming.pronunciations.len()
        invariant
            k <= incoming.pronunciations.len(),
            pronunciations@ == merged_pronunciations(existing.pronunciations@, incoming.pronunciations@.subrange(0, k as int)),
        decreases incoming.pronunciations.len() - k,
    {
        let ghost next = incoming.pronunciations@.subrange(0, k + 1);
        assert(next.drop_last() =~= incoming.pronunciations@.subrange(0, k as int));
        if !find_notation(&pronunciations, &incoming.pronunciations[k]) {
            pronunciations.push(incoming.pronunciations[k].copy());
        }
        k = k + 1;
    }
    assert(incoming.pronunciations@.subrange(0, incoming.pronunciations.len() as int) =~= incoming.pronunciations@);
    let mut tags = copy_strings(&existing.tags);
    let mut t: usize = 0;
    while t < incoming.tags.len()
        invariant
            t <= incoming.tags.len(),
            tags@ == merged_tags(existing.tags@, incoming.tags@.subrange(0, t as int)),
        decreases incoming.tags.len() - t,
    {
        let ghost next = incoming.tags@.subrange(0, t + 1);
        assert(next.drop_last() =~= incoming.tags@.subrange(0, t as int));
        if !find_tag(&tags, &incoming.tags[t]) {
            tags.push(incoming.tags[t].clone());
        }
        t = t + 1;
    }
    assert(incoming.tags@.subrange(0, incoming.tags.len() as int) =~= incoming.tags@);
    let source = if existing.source.is_some() { copy_source(&existing.source) } else { copy_source(&incoming.source) };
    ImportCard {
        word: existing.word.clone(),
        language: existing.language.clone(),
        meanings,
        pronunciations,
        tags,
        source,
    }
}

/// The kind of step a card gets: inserted when it is no duplicate or under
/// `Keep`; otherwise skipped, overwritten or merged as the strategy says.
pub open spec fn planned_kind(step: ImportStep, duplicate: bool, strategy: DuplicateStrategy) -> bool {
    if !duplicate || strategy == DuplicateStrategy::Keep {
        step is Insert
    } else {
        match strategy {
            DuplicateStrategy::Skip => step is Skip,
            DuplicateStrategy::Overwrite => step is Overwrite,
            DuplicateStrategy::Merge => step is Merge,
            DuplicateStrategy::Keep => step is Insert,
        }
    }
}

/// What happens to one incoming card.
#[derive(Debug)]
pub enum ImportStep {
    /// Store it as a new card.
    Insert(ImportCard),
    /// Leave the deck as it is.
    Skip,
    /// Replace the content of card `card_id` with `card`.
    Overwrite { card_id: i64, card: ImportCard },
    /// Replace the content of card `card_id` with the merged `card`.
    Merge { card_id: i64, card: ImportCard },
}

/// The step for an incoming card, given the deck's first card with the same
/// word (if any) and the duplicate strategy.
pub fn plan_import_card(existing: Option<&Card>, incoming: &ImportCard, strategy: DuplicateStrategy) -> (r: ImportStep)
    ensures
        planned_kind(r, existing is Some, strategy),
        match existing {
            None => r matches ImportStep::Insert(c) && c@ == incoming@,
            Some(e) => match strategy {
                DuplicateStrategy::Keep => r matches ImportStep::Insert(c) && c@ == incoming@,
                DuplicateStrategy::Skip => r is Skip,
                DuplicateStrategy::Overwrite => r matches ImportStep::Overwrite { card_id, card }
                    && card_id == e.id && card@ == incoming@,
                DuplicateStrategy::Merge => r matches ImportStep::Merge { card_id, card }
                    && card_id == e.id && merge_spec(*e, *incoming, card),
            },
        },
{
    match existing {
        None => ImportStep::Insert(incoming.copy()),
        Some(e) => match strategy {
            DuplicateStrategy::Keep => ImportStep::Insert(incoming.copy()),
            DuplicateStrategy::Skip => ImportStep::Skip,
            DuplicateStrategy::Overwrite => ImportStep::Overwrite { card_id: e.id, card: incoming.copy() },
            DuplicateStrategy::Merge => ImportStep::Merge { card_id: e.id, card: merge_import_card(e, incoming) },
        },
    }
}

/// Steps recorded so far: inserted, updated, skipped, merged.
pub open spec fn tally(steps: Seq<ImportStep>) -> (nat, nat, nat, nat)
    decreases steps.len(),
{
    if steps.len() == 0 {
        (0, 0, 0, 0)
    } else {
        let (a, b, c, d) = tally(steps.drop_last());
        match steps.last() {
            ImportStep::Insert(_) => ((a + 1) as nat, b, c, d),
            ImportStep::Overwrite { .. } => (a, (b + 1) as nat, c, d),
            ImportStep::Skip => (a, b, (c + 1) as nat, d),
            ImportStep::Merge { .. } => (a, b, c, (d + 1) as nat),
        }
    }
}

/// Every recorded step is counted exactly once.
pub proof fn lemma_tally_counts_every_step(steps: Seq<ImportStep>)
    ensures
        tally(steps).0 + tally(steps).1 + tally(steps).2 + tally(steps).3 == steps.len(),
    decreases steps.len(),
{
    if steps.len() > 0 {
        lemma_tally_counts_every_step(steps.drop_last());
    }
}

/// Card `i` of a batch is a duplicate: the deck held its word before the
/// batch, or an earlier card of the batch has the same word.
pub open spec fn batch_duplicate(deck_words: Set<Seq<char>>, words: Seq<Seq<char>>, i: int) -> bool {
    deck_words.contains(words[i]) || exists|j: int| 0 <= j < i && words[j] == words[i]
}

/// The duplicates among the first `k` cards of a batch.
pub open spec fn duplicates_before(deck_words: Set<Seq<char>>, words: Seq<Seq<char>>, k: int) -> nat
    decreases k,
{
    if k <= 0 {
        0
    } else {
        duplicates_before(deck_words, words, k - 1) + if batch_duplicate(deck_words, words, k - 1) { 1nat } else { 0nat }
    }
}

/// The counts (inserted, updated, skipped, merged) of a batch of `n` cards
/// with `d` duplicates.
pub open spec fn batch_tally(strategy: DuplicateStrategy, n: nat, d: nat) -> (nat, nat, nat, nat) {
    match strategy {
        DuplicateStrategy::Keep => (n, 0, 0, 0),
        DuplicateStrategy::Skip => ((n - d) as nat, 0, d, 0),
        DuplicateStrategy::Overwrite => ((n - d) as nat, d, 0, 0),
        DuplicateStrategy::Merge => ((n - d) as nat, 0, 0, d),
    }
}

proof fn lemma_batch_tally_prefix(
    deck_words: Set<Seq<char>>,
    words: Seq<Seq<char>>,
    strategy: DuplicateStrategy,
    steps: Seq<ImportStep>,
    k: int,
)
    requires
        0 <= k <= steps.len(),
        steps.len() == words.len(),
        forall|i: int| 0 <= i < steps.len() ==> planned_kind(#[trigger] steps[i], batch_duplicate(deck_words, words, i), strategy),
    ensures
        duplicates_before(deck_words, words, k) <= k,
        tally(steps.subrange(0, k)) == batch_tally(strategy, k as nat, duplicates_before(deck_words, words, k)),
    decreases k,
{
    if k == 0 {
        assert(steps.subrange(0, 0) =~= Seq::<ImportStep>::empty());
    } else {
        lemma_batch_tally_prefix(deck_words, words, strategy, steps, k - 1);
        assert(steps.subrange(0, k).drop_last() =~= steps.subrange(0, k - 1));
        assert(steps.subrange(0, k).last() == steps[k - 1]);
        assert(planned_kind(steps[k - 1], batch_duplicate(deck_words, words, k - 1), strategy));
    }
}

/// Importing a batch counts each card once: under `Keep` every card is
/// inserted; otherwise the cards whose word the deck already held, or an
/// earlier card of the batch had, are skipped, updated or merged as the
/// strategy says, and the others inserted.
pub proof fn lemma_batch_tally(
    deck_words: Set<Seq<char>>,
    words: Seq<Seq<char>>,
    strategy: DuplicateStrategy,
    steps: Seq<ImportStep>,
)
    requires
        steps.len() == words.len(),
        forall|i: int| 0 <= i < steps.len() ==> planned_kind(#[trigger] steps[i], batch_duplicate(deck_words, words, i), strategy),
    ensures
        duplicates_before(deck_words, words, steps.len() as int) <= steps.len(),
        tally(steps) == batch_tally(strategy, steps.len(), duplicates_before(deck_words, words, steps.len() as int)),
{
    lemma_batch_tally_prefix(deck_words, words, strategy, steps, steps.len() as int);
    assert(steps.subrange(0, steps.len() as int) =~= steps);
}

impl ImportSummary {
    /// The counters: inserted, updated, skipped, merged.
    pub open spec fn counts(&self) -> (nat, nat, nat, nat) {
        (self.inserted as nat, self.updated as nat, self.skipped as nat, self.merged as nat)
    }

    /// Cards accounted for so far.
    pub open spec fn recorded(&self) -> int {
        self.inserted + self.updated + self.skipped + self.merged
    }

    /// The summary of an import of `input_count` cards into `deck`, before any
    /// card is processed.
    pub fn start(deck: &Deck, input_count: usize) -> (r: ImportSummary)
        ensures
            r.deck_id == deck.id,
            r.deck_name == deck.name,
            r.input_count == input_count,
            r.counts() == tally(Seq::empty()),
    {
        ImportSummary {
            deck_id: deck.id,
            deck_name: deck.name.clone(),
            input_count,
            inserted: 0,
            updated: 0,
            skipped: 0,
            merged: 0,
        }
    }

    /// Counts one processed card.
    pub fn record(&mut self, step: &ImportStep)
        requires
            old(self).recorded() < old(self).input_count,
        ensures
            final(self).deck_id == old(self).deck_id,
            final(self).deck_name == old(self).deck_name,
            final(self).input_count == old(self).input_count,
            final(self).recorded() == old(self).recorded() + 1,
            forall|steps: Seq<ImportStep>|
                old(self).counts() == tally(steps)
                ==> final(self).counts()
                    == #[trigger] tally(steps.push(*step)),
    {
        match step {
            ImportStep::Insert(_) => self.inserted = self.inserted + 1,
            ImportStep::Overwrite { .. } => self.updated = self.updated + 1,
            ImportStep::Skip => self.skipped = self.skipped + 1,
            ImportStep::Merge { .. } => self.merged = self.merged + 1,
        }
        proof {
            assert forall|steps: Seq<ImportStep>|
                old(self).counts() == tally(steps)
                implies self.counts() == #[trigger] tally(steps.push(*step)) by {
                assert(steps.push(*step).drop_last() =~= steps);
            }
        }
    }

    /// The summary of importing a whole batch into `deck`, one planned step
    /// per incoming card: every card is counted once, by the kind of its
    /// step; so when each step was planned against the deck's words and the
    /// batch's earlier words, the counts are those of `batch_tally`.
    pub fn from_steps(deck: &Deck, steps: &Vec<ImportStep>) -> (r: ImportSummary)
        ensures
            r.deck_id == deck.id,
            r.deck_name == deck.name,
            r.input_count == steps.len(),
            r.counts() == tally(steps@),
            r.inserted + r.updated + r.skipped + r.merged == r.input_count,
            forall|deck_words: Set<Seq<char>>, words: Seq<Seq<char>>, strategy: DuplicateStrategy|
                words.len() == steps@.len()
                && (forall|i: int| 0 <= i < steps@.len()
                    ==> planned_kind(#[trigger] steps@[i], batch_duplicate(deck_words, words, i), strategy))
                ==> r.counts() == #[trigger] batch_tally(strategy, steps@.len(), duplicates_before(deck_words, words, words.len() as int)),
    {
        let mut summary = ImportSummary::start(deck, steps.len());
        let mut i: usize = 0;
        while i < steps.len()
            invariant
                i <= steps.len(),
                summary.deck_id == deck.id,
                summary.deck_name == deck.name,
                summary.input_count == steps.len(),
                summary.recorded() == i,
                summary.counts() == tally(steps@.subrange(0, i as int)),
            decreases steps.len() - i,
        {
            proof {
                assert(steps@.subrange(0, i + 1) =~= steps@.subrange(0, i as int).push(steps@[i as int]));
            }
            summary.record(&steps[i]);
            i = i + 1;
        }
        proof {
            assert(steps@.subrange(0, steps.len() as int) =~= steps@);
            lemma_tally_counts_every_step(steps@);
            assert forall|deck_words: Set<Seq<char>>, words: Seq<Seq<char>>, strategy: DuplicateStrategy|
                words.len() == steps@.len()
                && (forall|i: int| 0 <= i < steps@.len()
                    ==> planned_kind(#[trigger] steps@[i], batch_duplicate(deck_words, words, i), strategy))
                implies summary.counts() == #[trigger] batch_tally(strategy, steps@.len(), duplicates_before(deck_words, words, words.len() as int)) by {
                lemma_batch_tally(deck_words, words, strategy, steps@);
            }
        }
        summary
    }
}

} // verus!
