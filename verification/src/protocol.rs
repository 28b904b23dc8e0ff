//! The JSON protocol responses front ends read, and the human-readable lines
//! derived from the same data.

use vstd::prelude::*;
use crate::card::{Card, Pronunciation, Source};
use crate::deck::Deck;
use crate::scheduler::ScheduledReview;
use crate::selector::{SelectedCard, SelectionReason};
use crate::storage::{DailyReviewBucket, DailyReviewStats, ProgressCounts};
use crate::clock::{chrono_text, date_pattern, format_date, utc_now, Timestamp};
use crate::card::{rating_text, review_state_text};
use crate::text::{cat, join, join_seq, lemma_join_places_parts, part_offset, i64_text, int_text, copy_opt, copy_strings, push_repeat, repeat_seq, same, strip_prefix, strip_prefix_seq, views};

verus! {

pub const CURRENT_SCHEMA: &'static str = "fishword.protocol.current.v1";
pub const NEXT_SCHEMA: &'static str = "fishword.protocol.next.v1";
pub const RATE_SCHEMA: &'static str = "fishword.protocol.rate.v1";
pub const ERROR_SCHEMA: &'static str = "fishword.protocol.error.v1";
pub const DECKS_SCHEMA: &'static str = "fishword.protocol.decks.v1";
pub const DECK_USE_SCHEMA: &'static str = "fishword.protocol.deck_use.v1";
pub const STATUS_SCHEMA: &'static str = "fishword.protocol.status.v1";
pub const STATS_SCHEMA: &'static str = "fishword.protocol.stats.v1";

/// Human-readable rendering of a card.
#[derive(Debug, Clone, Copy, PartialEq, Eq, Structural)]
pub enum TextFormat {
    Plain,
    Compact,
    Status,
}

/// Reading a text format from its name.
pub open spec fn parse_text_format(s: Seq<char>) -> Result<TextFormat, Seq<char>> {
    if s == "plain"@ {
        Ok(TextFormat::Plain)
    } else if s == "compact"@ {
        Ok(TextFormat::Compact)
    } else if s == "status"@ {
        Ok(TextFormat::Status)
    } else {
        Err("unknown format: "@ + s)
    }
}

impl TextFormat {
    /// Parses `plain`, `compact` or `status`.
    pub fn parse(value: &str) -> (r: Result<TextFormat, String>)
        ensures
            match r {
                Ok(f) => parse_text_format(value@) == Ok::<TextFormat, Seq<char>>(f),
                Err(e) => parse_text_format(value@) == Err::<TextFormat, Seq<char>>(e@),
            },
    {
        if same(value, "plain") {
            Ok(TextFormat::Plain)
        } else if same(value, "compact") {
            Ok(TextFormat::Compact)
        } else if same(value, "status") {
            Ok(TextFormat::Status)
        } else {
            Err(cat("unknown format: ", value))
        }
    }
}

impl std::str::FromStr for TextFormat {
    type Err = String;

    fn from_str(value: &str) -> (r: Result<Self, Self::Err>)
        ensures
            match r {
                Ok(f) => parse_text_format(value@) == Ok::<TextFormat, Seq<char>>(f),
                Err(e) => parse_text_format(value@) == Err::<TextFormat, Seq<char>>(e@),
            },
    {
        TextFormat::parse(value)
    }
}

#[derive(Debug)]
pub struct PhoneticFields {
    pub us: Option<String>,
    pub uk: Option<String>,
    pub other: Vec<String>,
}

#[derive(Debug)]
pub struct DeckFields {
    /// The deck's name.
    pub id: String,
    /// The deck's description, or its name when it has none.
    pub name: String,
    pub db_id: i64,
}

#[derive(Debug)]
pub struct SourceFields {
    pub name: String,
    pub license: Option<String>,
}

#[derive(Debug)]
pub struct ProtocolCard {
    /// `<deck name>:<word>`.
    pub id: String,
    pub db_id: i64,
    pub term: String,
    pub language: String,
    pub phonetic: PhoneticFields,
    pub meanings: Vec<String>,
    pub deck: DeckFields,
    pub tags: Vec<String>,
    pub source: Option<SourceFields>,
}

#[derive(Debug)]
pub struct DisplayFields {
    pub plain: String,
    pub compact: String,
    pub status: String,
    pub masked: String,
}

#[derive(Debug, Clone, Copy, PartialEq, Eq, Structural)]
pub struct ProgressFields {
    pub due_count: i64,
    pub new_today_remaining: i64,
    pub reviewed_today: i64,
}

#[derive(Debug)]
pub struct SelectionFields {
    pub reason: String,
}

#[derive(Debug)]
pub struct CardResponse {
    pub schema: &'static str,
    pub card: ProtocolCard,
    pub display: DisplayFields,
    pub progress: ProgressFields,
    pub selection: SelectionFields,
}

#[derive(Debug)]
pub struct ReviewFields {
    pub rating: String,
    pub due: String,
    pub elapsed_days: i64,
    pub scheduled_days: i64,
    /// Bit pattern of the new stability, as `f64`.
    pub stability_bits: u64,
    /// Bit pattern of the new difficulty, as `f64`.
    pub difficulty_bits: u64,
    pub state: String,
}

#[derive(Debug)]
pub struct RateResponse {
    pub schema: &'static str,
    pub card: ProtocolCard,
    pub display: DisplayFields,
    pub progress: ProgressFields,
    pub review: ReviewFields,
    /// The card shown next after rating; `None` when nothing is left today.
    pub next: Option<CardResponse>,
}

#[derive(Debug)]
pub struct DeckItem {
    pub id: i64,
    pub name: String,
    pub description: Option<String>,
    pub active: bool,
}

#[derive(Debug)]
pub struct DeckListResponse {
    pub schema: &'static str,
    pub decks: Vec<DeckItem>,
}

#[derive(Debug)]
pub struct DeckUseResponse {
    pub schema: &'static str,
    pub name: String,
    pub description: Option<String>,
    pub message: String,
}

#[derive(Debug, Clone, Copy, PartialEq, Eq, Structural)]
pub struct TodayStatusFields {
    pub due: i64,
    pub new_remaining: i64,
    pub reviewed: i64,
}

#[derive(Debug)]
pub struct StatusDisplayFields {
    pub plain: String,
    pub compact: String,
    pub statusline: String,
}

#[derive(Debug)]
pub struct NextActionFields {
    pub kind: String,
    pub label: String,
    pub command: String,
}

#[derive(Debug)]
pub struct StatusResponse {
    pub schema: &'static str,
    pub deck: DeckFields,
    pub mode: String,
    pub today: TodayStatusFields,
    pub display: StatusDisplayFields,
    pub next_action: NextActionFields,
}

/// A share: `numerator / denominator`, with a positive denominator. Front
/// ends show it as a fraction between 0 and 1.
#[derive(Debug, Clone, Copy, PartialEq, Eq, Structural)]
pub struct Ratio {
    pub numerator: i128,
    pub denominator: i64,
}

#[derive(Debug)]
pub struct StatsRangeFields {
    pub kind: String,
    pub days: i64,
}

#[derive(Debug)]
pub struct StatsSummaryFields {
    pub reviews: i64,
    pub reviewed_today: i64,
    /// Share of `good` and `easy` ratings; `None` without reviews.
    pub good_or_easy_rate: Option<Ratio>,
}

#[derive(Debug)]
pub struct DailyStatsFields {
    pub date: String,
    pub reviews: i64,
    pub again: i64,
    pub hard: i64,
    pub good: i64,
    pub easy: i64,
    /// Share of `good` and `easy` ratings; `None` without reviews.
    pub good_or_easy_rate: Option<Ratio>,
}

#[derive(Debug)]
pub struct StatsResponse {
    pub schema: &'static str,
    pub deck: DeckFields,
    pub range: StatsRangeFields,
    pub summary: StatsSummaryFields,
    pub series: Vec<DailyStatsFields>,
}

#[derive(Debug)]
pub struct ErrorFields {
    pub code: String,
    pub message: String,
}

#[derive(Debug)]
pub struct ErrorResponse {
    pub schema: &'static str,
    pub error: ErrorFields,
}

/// The text a selection reason is shown as.
pub open spec fn reason_text(r: SelectionReason) -> Seq<char> {
    match r {
        SelectionReason::Due => "due"@,
        SelectionReason::New => "new"@,
        SelectionReason::Mature => "mature"@,
    }
}

/// The text of a selection reason.
pub fn selection_reason(reason: SelectionReason) -> (s: &'static str)
    ensures
        s@ == reason_text(reason),
{
    match reason {
        SelectionReason::Due => "due",
        SelectionReason::New => "new",
        SelectionReason::Mature => "mature",
    }
}

/// The progress block of a response.
pub fn progress_fields(progress: ProgressCounts) -> (p: ProgressFields)
    ensures
        p.due_count == progress.due_count,
        p.new_today_remaining == progress.new_remaining,
        p.reviewed_today == progress.reviewed_today,
{
    ProgressFields {
        due_count: progress.due_count,
        new_today_remaining: progress.new_remaining,
        reviewed_today: progress.reviewed_today,
    }
}

/// The name a deck is shown by: its description, or its name without one.
pub open spec fn shown_name(deck: Deck) -> Seq<char> {
    match deck.description {
        Some(d) => d@,
        None => deck.name@,
    }
}

/// The deck block of a response.
pub fn deck_fields(deck: &Deck) -> (f: DeckFields)
    ensures
        f.id@ == deck.name@,
        f.name@ == shown_name(*deck),
        f.db_id == deck.id,
{
    let name = match &deck.description {
        Some(d) => d.clone(),
        None => deck.name.clone(),
    };
    DeckFields { id: deck.name.clone(), name, db_id: deck.id }
}

/// A word with every character but the first replaced by `_`.
pub open spec fn mask_spec(term: Seq<char>) -> Seq<char> {
    if term.len() == 0 { Seq::empty() } else { seq![term[0]] + repeat_seq('_', (term.len() - 1) as nat) }
}

/// Hides a word but its first character.
pub fn mask_term(term: &str) -> (s: String)
    ensures
        s@ == mask_spec(term@),
{
    let n = term.unicode_len();
    let mut s = String::new();
    if n == 0 {
        return s;
    }
    s.push(term.get_char(0));
    push_repeat(&mut s, '_', n - 1);
    assert(s@ =~= mask_spec(term@));
    s
}

/// US, UK and other notations of the pronunciations: a `US ` or `UK ` prefix
/// files the rest under that accent (a later one replaces an earlier one);
/// other notations are kept whole, in order.
pub open spec fn phonetic_spec(ps: Seq<Pronunciation>) -> (Option<Seq<char>>, Option<Seq<char>>, Seq<Seq<char>>)
    decreases ps.len(),
{
    if ps.len() == 0 {
        (None, None, Seq::empty())
    } else {
        let (us, uk, other) = phonetic_spec(ps.drop_last());
        let n = ps.last().notation@;
        match strip_prefix_seq(n, "US "@) {
            Some(rest) => (Some(rest), uk, other),
            None => match strip_prefix_seq(n, "UK "@) {
                Some(rest) => (us, Some(rest), other),
                None => (us, uk, other.push(n)),
            },
        }
    }
}

/// The views of an optional string.
pub open spec fn opt_view(o: Option<String>) -> Option<Seq<char>> {
    match o {
        Some(s) => Some(s@),
        None => None,
    }
}

/// The phonetic block of a card.
pub fn phonetic_fields(card: &Card) -> (p: PhoneticFields)
    ensures
        (opt_view(p.us), opt_view(p.uk), views(p.other@)) == phonetic_spec(card.pronunciations@),
{
    let mut us: Option<String> = None;
    let mut uk: Option<String> = None;
    let mut other: Vec<String> = Vec::new();
    let mut i: usize = 0;
    while i < card.pronunciations.len()
        invariant
            i <= card.pronunciations.len(),
            (opt_view(us), opt_view(uk), views(other@)) == phonetic_spec(card.pronunciations@.subrange(0, i as int)),
        decreases card.pronunciations.len() - i,
    {
        let ghost next = card.pronunciations@.subrange(0, i + 1);
        assert(next.drop_last() =~= card.pronunciations@.subrange(0, i as int));
        let notation = card.pronunciations[i].notation.as_str();
        match strip_prefix(notation, "US ") {
            Some(rest) => {
                us = Some(rest);
            },
            None => match strip_prefix(notation, "UK ") {
                Some(rest) => {
                    uk = Some(rest);
                },
                None => {
                    let ghost before = other@;
                    other.push(String::from_str(notation));
                    assert(views(other@) =~= views(before).push(notation@));
                },
            },
        }
        i = i + 1;
    }
    assert(card.pronunciations@.subrange(0, card.pronunciations.len() as int) =~= card.pronunciations@);
    PhoneticFields { us, uk, other }
}

/// The notation shown beside a word: the US one, else the UK one, else the
/// first other one, else nothing.
pub open spec fn shown_phonetic(ps: Seq<Pronunciation>) -> Seq<char> {
    let (us, uk, other) = phonetic_spec(ps);
    match us {
        Some(u) => u,
        None => match uk {
            Some(k) => k,
            None => if other.len() > 0 { other[0] } else { Seq::empty() },
        },
    }
}

/// The notation shown beside a card's word.
pub fn display_phonetic(card: &Card) -> (s: String)
    ensures
        s@ == shown_phonetic(card.pronunciations@),
{
    let fields = phonetic_fields(card);
    match fields.us {
        Some(u) => u,
        None => match fields.uk {
            Some(k) => k,
            None => if fields.other.len() > 0 {
                fields.other[0].clone()
            } else {
                String::new()
            },
        },
    }
}

/// The definitions of a card's meanings.
pub open spec fn definitions(card: Card) -> Seq<Seq<char>> {
    card.meanings@.map_values(|m: crate::card::Meaning| m.definition@)
}

/// The definitions of a card's meanings, in order.
pub fn definition_list(card: &Card) -> (v: Vec<String>)
    ensures
        views(v@) == definitions(*card),
{
    let mut v: Vec<String> = Vec::new();
    let mut i: usize = 0;
    while i < card.meanings.len()
        invariant
            i <= card.meanings.len(),
            views(v@) == definitions(*card).subrange(0, i as int),
        decreases card.meanings.len() - i,
    {
        let ghost before = v@;
        v.push(card.meanings[i].definition.clone());
        assert(views(v@) =~= definitions(*card).subrange(0, i + 1)) by {
            assert(views(v@) =~= views(before).push(card.meanings@[i as int].definition@));
        }
        i = i + 1;
    }
    assert(definitions(*card).subrange(0, card.meanings.len() as int) =~= definitions(*card));
    v
}


/// The four renderings of a card: plain, compact, status line and masked.
pub open spec fn display_spec(card: Card, deck: Deck) -> (Seq<char>, Seq<char>, Seq<char>, Seq<char>) {
    let meanings = join_seq(definitions(card), "; "@);
    let ph = shown_phonetic(card.pronunciations@);
    let word = card.word@;
    let dn = shown_name(deck);
    if ph.len() == 0 {
        (
            word + " - "@ + meanings,
            "📚 "@ + word + " "@ + meanings,
            "📚 "@ + word + " | "@ + dn + " | "@ + meanings,
            "📚 "@ + mask_spec(word),
        )
    } else {
        (
            word + " "@ + ph + " - "@ + meanings,
            "📚 "@ + word + " /"@ + ph + "/ "@ + meanings,
            "📚 "@ + word + " /"@ + ph + "/ | "@ + dn + " | "@ + meanings,
            "📚 "@ + mask_spec(word) + " /"@ + ph + "/"@,
        )
    }
}

/// `s` ends with `t`.
pub open spec fn ends_with(s: Seq<char>, t: Seq<char>) -> bool {
    t.len() <= s.len() && s.subrange(s.len() - t.len(), s.len() as int) == t
}

/// A card's plain rendering starts with its word, and its plain, compact and
/// status renderings all end with every definition of the card, in the card's
/// order, joined by `"; "`: definition `i` stands whole at `part_offset` in
/// that joined text, after the definitions before it.
pub proof fn lemma_display_shows_every_definition(card: Card, deck: Deck, i: int)
    requires
        0 <= i < card.meanings@.len(),
    ensures
        definitions(card)[i] == card.meanings@[i].definition@,
        definitions(card).len() == card.meanings@.len(),
        display_spec(card, deck).0.len() >= card.word@.len(),
        display_spec(card, deck).0.subrange(0, card.word@.len() as int) == card.word@,
        ends_with(display_spec(card, deck).0, join_seq(definitions(card), "; "@)),
        ends_with(display_spec(card, deck).1, join_seq(definitions(card), "; "@)),
        ends_with(display_spec(card, deck).2, join_seq(definitions(card), "; "@)),
        join_seq(definitions(card), "; "@).subrange(
            part_offset(definitions(card), "; "@, i),
            part_offset(definitions(card), "; "@, i) + card.meanings@[i].definition@.len(),
        ) == card.meanings@[i].definition@,
{
    let j = join_seq(definitions(card), "; "@);
    lemma_join_places_parts(definitions(card), "; "@, i);
    let (p, c, st, _) = display_spec(card, deck);
    assert(p.subrange(0, card.word@.len() as int) =~= card.word@);
    assert(p.subrange(p.len() - j.len(), p.len() as int) =~= j);
    assert(c.subrange(c.len() - j.len(), c.len() as int) =~= j);
    assert(st.subrange(st.len() - j.len(), st.len() as int) =~= j);
}

/// The display block of a card.
pub fn display_fields(card: &Card, deck: &Deck) -> (d: DisplayFields)
    ensures
        (d.plain@, d.compact@, d.status@, d.masked@) == display_spec(*card, *deck),
{
    let defs = definition_list(card);
    let meanings = join(&defs, "; ");
    let phonetic = display_phonetic(card);
    let word = card.word.as_str();
    let deck_name = match &deck.description {
        Some(d) => d.as_str(),
        None => deck.name.as_str(),
    };
    let masked_word = mask_term(word);
    if phonetic.unicode_len() == 0 {
        let mut plain = String::from_str(word);
        plain.append(" - ");
        plain.append(meanings.as_str());
        let mut compact = String::from_str("📚 ");
        compact.append(word);
        compact.append(" ");
        compact.append(meanings.as_str());
        let mut status = String::from_str("📚 ");
        status.append(word);
        status.append(" | ");
        status.append(deck_name);
        status.append(" | ");
        status.append(meanings.as_str());
        let mut masked = String::from_str("📚 ");
        masked.append(masked_word.as_str());
        DisplayFields { plain, compact, status, masked }
    } else {
        let ph = phonetic.as_str();
        let mut plain = String::from_str(word);
        plain.append(" ");
        plain.append(ph);
        plain.append(" - ");
        plain.append(meanings.as_str());
        let mut compact = String::from_str("📚 ");
        compact.append(word);
        compact.append(" /");
        compact.append(ph);
        compact.append("/ ");
        compact.append(meanings.as_str());
        let mut status = String::from_str("📚 ");
        status.append(word);
        status.append(" /");
        status.append(ph);
        status.append("/ | ");
        status.append(deck_name);
        status.append(" | ");
        status.append(meanings.as_str());
        let mut masked = String::from_str("📚 ");
        masked.append(masked_word.as_str());
        masked.append(" /");
        masked.append(ph);
        masked.append("/");
        DisplayFields { plain, compact, status, masked }
    }
}

/// The protocol view of a card in a deck.
pub open spec fn protocol_card_spec(card: Card, deck: Deck, p: ProtocolCard) -> bool {
    let (us, uk, other) = phonetic_spec(card.pronunciations@);
    &&& p.id@ == deck.name@ + ":"@ + card.word@
    &&& p.db_id == card.id
    &&& p.term@ == card.word@
    &&& p.language@ == card.language@
    &&& opt_view(p.phonetic.us) == us
    &&& opt_view(p.phonetic.uk) == uk
    &&& views(p.phonetic.other@) == other
    &&& views(p.meanings@) == definitions(card)
    &&& p.deck.id@ == deck.name@
    &&& p.deck.name@ == shown_name(deck)
    &&& p.deck.db_id == deck.id
    &&& views(p.tags@) == views(card.tags@)
    &&& match (p.source, card.source) {
        (Some(ps), Some(cs)) => ps.name@ == cs.name@ && opt_view(ps.license) == opt_view(cs.license),
        (None, None) => true,
        _ => false,
    }
}

/// The protocol view of a card in a deck.
pub fn protocol_card(card: &Card, deck: &Deck) -> (p: ProtocolCard)
    ensures
        protocol_card_spec(*card, *deck, p),
{
    let phonetic = phonetic_fields(card);
    let mut id = String::from_str(deck.name.as_str());
    id.append(":");
    id.append(card.word.as_str());
    let source = match &card.source {
        Some(s) => Some(SourceFields { name: s.name.clone(), license: copy_opt(&s.license) }),
        None => None,
    };
    let tags = copy_strings(&card.tags);
    ProtocolCard {
        id,
        db_id: card.id,
        term: card.word.clone(),
        language: card.language.clone(),
        phonetic,
        meanings: definition_list(card),
        deck: deck_fields(deck),
        tags,
        source,
    }
}

/// A card response for `selected` in `deck` under `schema`.
pub open spec fn card_response_spec(
    schema: Seq<char>,
    selected: SelectedCard,
    deck: Deck,
    progress: ProgressCounts,
    r: CardResponse,
) -> bool {
    &&& r.schema@ == schema
    &&& protocol_card_spec(selected.card, deck, r.card)
    &&& (r.display.plain@, r.display.compact@, r.display.status@, r.display.masked@)
        == display_spec(selected.card, deck)
    &&& r.progress == (ProgressFields {
        due_count: progress.due_count,
        new_today_remaining: progress.new_remaining,
        reviewed_today: progress.reviewed_today,
    })
    &&& r.selection.reason@ == reason_text(selected.reason)
}

impl CardResponse {
    /// The response of `current`.
    pub fn current(selected: &SelectedCard, deck: &Deck, progress: ProgressCounts) -> (r: CardResponse)
        ensures
            card_response_spec(CURRENT_SCHEMA@, *selected, *deck, progress, r),
    {
        Self::from_selected(CURRENT_SCHEMA, selected, deck, progress)
    }

    /// The response for the card shown next.
    pub fn next(selected: &SelectedCard, deck: &Deck, progress: ProgressCounts) -> (r: CardResponse)
        ensures
            card_response_spec(NEXT_SCHEMA@, *selected, *deck, progress, r),
    {
        Self::from_selected(NEXT_SCHEMA, selected, deck, progress)
    }

    fn from_selected(schema: &'static str, selected: &SelectedCard, deck: &Deck, progress: ProgressCounts) -> (r: CardResponse)
        ensures
            card_response_spec(schema@, *selected, *deck, progress, r),
    {
        CardResponse {
            schema,
            card: protocol_card(&selected.card, deck),
            display: display_fields(&selected.card, deck),
            progress: progress_fields(progress),
            selection: SelectionFields { reason: String::from_str(selection_reason(selected.reason)) },
        }
    }
}

/// The human-readable rendering of a card response.
pub fn render_card(response: &CardResponse, format: TextFormat) -> (s: &str)
    ensures
        s@ == match format {
            TextFormat::Plain => response.display.plain@,
            TextFormat::Compact => response.display.compact@,
            TextFormat::Status => response.display.status@,
        },
{
    match format {
        TextFormat::Plain => response.display.plain.as_str(),
        TextFormat::Compact => response.display.compact.as_str(),
        TextFormat::Status => response.display.status.as_str(),
    }
}

/// The response of `rate` for `card` of `deck`, with the card selected next
/// and its deck, if any.
pub open spec fn rate_response_spec(
    card: Card,
    deck: Deck,
    review: ScheduledReview,
    progress: ProgressCounts,
    next: Option<(SelectedCard, Deck)>,
    r: RateResponse,
) -> bool {
    &&& r.schema@ == RATE_SCHEMA@
    &&& protocol_card_spec(card, deck, r.card)
    &&& (r.display.plain@, r.display.compact@, r.display.status@, r.display.masked@) == display_spec(card, deck)
    &&& r.progress == (ProgressFields {
        due_count: progress.due_count,
        new_today_remaining: progress.new_remaining,
        reviewed_today: progress.reviewed_today,
    })
    &&& r.review.rating@ == rating_text(review.rating)
    &&& r.review.due@ == review.due@
    &&& r.review.elapsed_days == review.elapsed_days
    &&& r.review.scheduled_days == review.scheduled_days
    &&& r.review.stability_bits == review.stability_bits
    &&& r.review.difficulty_bits == review.difficulty_bits
    &&& r.review.state@ == review_state_text(review.state)
    &&& match (next, r.next) {
        (Some((s, d)), Some(n)) => card_response_spec(NEXT_SCHEMA@, s, d, progress, n),
        (None, None) => true,
        _ => false,
    }
}

impl RateResponse {
    /// The response of `rate`: the rated card, the review, and the card
    /// selected next with its deck, if any.
    pub fn new(
        card: &Card,
        deck: &Deck,
        review: &ScheduledReview,
        progress: ProgressCounts,
        next: Option<(&SelectedCard, &Deck)>,
    ) -> (r: RateResponse)
        ensures
            rate_response_spec(
                *card,
                *deck,
                *review,
                progress,
                match next { Some((s, d)) => Some((*s, *d)), None => None },
                r,
            ),
    {
        let next_response = match next {
            Some((selected, next_deck)) => Some(CardResponse::next(selected, next_deck, progress)),
            None => None,
        };
        RateResponse {
            schema: RATE_SCHEMA,
            card: protocol_card(card, deck),
            display: display_fields(card, deck),
            progress: progress_fields(progress),
            review: ReviewFields {
                rating: review.rating.to_text(),
                due: review.due.clone(),
                elapsed_days: review.elapsed_days,
                scheduled_days: review.scheduled_days,
                stability_bits: review.stability_bits,
                difficulty_bits: review.difficulty_bits,
                state: review.state.to_text(),
            },
            next: next_response,
        }
    }
}

impl ErrorResponse {
    /// The response reporting an error with a stable code.
    pub fn new(code: &str, message: &str) -> (r: ErrorResponse)
        ensures
            r.schema@ == ERROR_SCHEMA@,
            r.error.code@ == code@,
            r.error.message@ == message@,
    {
        ErrorResponse {
            schema: ERROR_SCHEMA,
            error: ErrorFields { code: String::from_str(code), message: String::from_str(message) },
        }
    }
}

/// The response of `deck use` for `deck`.
pub open spec fn deck_use_spec(deck: Deck, r: DeckUseResponse) -> bool {
    &&& r.schema@ == DECK_USE_SCHEMA@
    &&& r.name@ == deck.name@
    &&& opt_view(r.description) == opt_view(deck.description)
    &&& r.message@ == "Active deck: "@ + shown_name(deck)
}

impl DeckUseResponse {
    /// The response of `deck use`.
    pub fn new(deck: &Deck) -> (r: DeckUseResponse)
        ensures
            deck_use_spec(*deck, r),
    {
        let display = match &deck.description {
            Some(d) => d.as_str(),
            None => deck.name.as_str(),
        };
        DeckUseResponse {
            schema: DECK_USE_SCHEMA,
            name: deck.name.clone(),
            description: copy_opt(&deck.description),
            message: cat("Active deck: ", display),
        }
    }
}

/// The response of `deck list`: every deck, the active one marked.
pub open spec fn deck_list_spec(decks: Seq<Deck>, active_id: Option<i64>, r: DeckListResponse) -> bool {
    &&& r.schema@ == DECKS_SCHEMA@
    &&& r.decks@.len() == decks.len()
    &&& forall|i: int| 0 <= i < decks.len() ==> {
        let item = #[trigger] r.decks@[i];
        &&& item.id == decks[i].id
        &&& item.name@ == decks[i].name@
        &&& opt_view(item.description) == opt_view(decks[i].description)
        &&& item.active == (active_id == Some(decks[i].id))
    }
}

impl DeckListResponse {
    /// The response of `deck list`: every deck, the active one marked.
    pub fn new(decks: Vec<Deck>, active_id: Option<i64>) -> (r: DeckListResponse)
        ensures
            deck_list_spec(decks@, active_id, r),
    {
        let mut items: Vec<DeckItem> = Vec::new();
        let mut i: usize = 0;
        while i < decks.len()
            invariant
                i <= decks.len(),
                items@.len() == i,
                forall|j: int| 0 <= j < i ==> {
                    let item = #[trigger] items@[j];
                    &&& item.id == decks@[j].id
                    &&& item.name@ == decks@[j].name@
                    &&& opt_view(item.description) == opt_view(decks@[j].description)
                    &&& item.active == (active_id == Some(decks@[j].id))
                },
            decreases decks.len() - i,
        {
            let d = &decks[i];
            let active = match active_id {
                Some(a) => a == d.id,
                None => false,
            };
            items.push(DeckItem { id: d.id, name: d.name.clone(), description: copy_opt(&d.description), active });
            i = i + 1;
        }
        DeckListResponse { schema: DECKS_SCHEMA, decks: items }
    }
}


/// The state of a deck's day: no cards, cards to review, or all caught up.
pub open spec fn status_mode(progress: ProgressCounts, card_count: i64) -> Seq<char> {
    if card_count == 0 {
        "empty"@
    } else if progress.due_count > 0 || progress.new_remaining > 0 {
        "review"@
    } else {
        "complete"@
    }
}

/// The short status text.
pub open spec fn status_compact(progress: ProgressCounts, card_count: i64) -> Seq<char> {
    if card_count == 0 {
        "no cards"@
    } else if progress.due_count > 0 || progress.new_remaining > 0 {
        int_text(progress.due_count as int) + " due · "@ + int_text(progress.new_remaining as int) + " new · "@
            + int_text(progress.reviewed_today as int) + " done"@
    } else {
        "all caught up · "@ + int_text(progress.reviewed_today as int) + " done"@
    }
}

/// The plain status text, led by the deck's shown name.
pub open spec fn status_plain(name: Seq<char>, progress: ProgressCounts, card_count: i64) -> Seq<char> {
    if card_count == 0 {
        name + ": no cards"@
    } else if progress.due_count > 0 || progress.new_remaining > 0 {
        name + ": "@ + int_text(progress.due_count as int) + " due, "@ + int_text(progress.new_remaining as int)
            + " new, "@ + int_text(progress.reviewed_today as int) + " reviewed today"@
    } else {
        name + ": all caught up, "@ + int_text(progress.reviewed_today as int) + " reviewed today"@
    }
}

/// The status response of a deck.
pub open spec fn status_spec(deck: Deck, progress: ProgressCounts, card_count: i64, r: StatusResponse) -> bool {
    let reviewing = card_count != 0 && (progress.due_count > 0 || progress.new_remaining > 0);
    &&& r.schema@ == STATUS_SCHEMA@
    &&& r.deck.id@ == deck.name@
    &&& r.deck.name@ == shown_name(deck)
    &&& r.deck.db_id == deck.id
    &&& r.mode@ == status_mode(progress, card_count)
    &&& r.today == (TodayStatusFields {
        due: progress.due_count,
        new_remaining: progress.new_remaining,
        reviewed: progress.reviewed_today,
    })
    &&& r.display.compact@ == status_compact(progress, card_count)
    &&& r.display.plain@ == status_plain(shown_name(deck), progress, card_count)
    &&& r.display.statusline@ == "📚 "@ + shown_name(deck) + " · "@ + status_compact(progress, card_count)
    &&& r.next_action.kind@ == (if reviewing { "review"@ } else { "none"@ })
    &&& r.next_action.label@ == (if reviewing { "Continue"@ } else { "Rest"@ })
    &&& r.next_action.command@ == "fishword current --deck "@ + deck.name@ + " --json"@
}

impl StatusResponse {
    /// Today's status of a deck with `card_count` cards.
    pub fn new(deck: &Deck, progress: ProgressCounts, card_count: i64) -> (r: StatusResponse)
        ensures
            status_spec(*deck, progress, card_count, r),
    {
        let fields = deck_fields(deck);
        let due = i64_text(progress.due_count);
        let fresh = i64_text(progress.new_remaining);
        let done = i64_text(progress.reviewed_today);
        let name = fields.name.as_str();
        let (mode, compact, plain, reviewing) = if card_count == 0 {
            ("empty", String::from_str("no cards"), cat(name, ": no cards"), false)
        } else if progress.due_count > 0 || progress.new_remaining > 0 {
            let mut compact = String::from_str(due.as_str());
            compact.append(" due · ");
            compact.append(fresh.as_str());
            compact.append(" new · ");
            compact.append(done.as_str());
            compact.append(" done");
            let mut plain = String::from_str(name);
            plain.append(": ");
            plain.append(due.as_str());
            plain.append(" due, ");
            plain.append(fresh.as_str());
            plain.append(" new, ");
            plain.append(done.as_str());
            plain.append(" reviewed today");
            ("review", compact, plain, true)
        } else {
            let mut compact = String::from_str("all caught up · ");
            compact.append(done.as_str());
            compact.append(" done");
            let mut plain = String::from_str(name);
            plain.append(": all caught up, ");
            plain.append(done.as_str());
            plain.append(" reviewed today");
            ("complete", compact, plain, false)
        };
        let mut statusline = String::from_str("📚 ");
        statusline.append(name);
        statusline.append(" · ");
        statusline.append(compact.as_str());
        let mut command = String::from_str("fishword current --deck ");
        command.append(deck.name.as_str());
        command.append(" --json");
        StatusResponse {
            schema: STATUS_SCHEMA,
            deck: fields,
            mode: String::from_str(mode),
            today: TodayStatusFields {
                due: progress.due_count,
                new_remaining: progress.new_remaining,
                reviewed: progress.reviewed_today,
            },
            display: StatusDisplayFields { plain, compact, statusline },
            next_action: NextActionFields {
                kind: String::from_str(if reviewing { "review" } else { "none" }),
                label: String::from_str(if reviewing { "Continue" } else { "Rest" }),
                command,
            },
        }
    }
}

/// A deck without cards is empty with nothing to do. A deck with cards is in
/// review mode exactly when some card is due or new cards remain for today,
/// and all caught up only when neither holds; the
/// next action is to continue exactly in review mode, and the texts then give
/// the due, new and reviewed counts.
pub proof fn lemma_status_reviews_while_work_remains(
    deck: Deck,
    progress: ProgressCounts,
    card_count: i64,
    r: StatusResponse,
)
    requires
        status_spec(deck, progress, card_count, r),
    ensures
        card_count == 0 ==> r.mode@ == "empty"@ && r.next_action.kind@ == "none"@,
        card_count != 0 ==> ((r.mode@ == "review"@) <==> (progress.due_count > 0 || progress.new_remaining > 0)),
        card_count != 0 ==> ((r.mode@ == "complete"@) <==> (progress.due_count <= 0 && progress.new_remaining <= 0)),
        card_count != 0 ==> ((r.next_action.kind@ == "review"@) <==> (progress.due_count > 0 || progress.new_remaining > 0)),
        card_count != 0 ==> ((r.next_action.label@ == "Continue"@) <==> (progress.due_count > 0 || progress.new_remaining > 0)),
        card_count != 0 && (progress.due_count > 0 || progress.new_remaining > 0) ==> r.display.compact@
            == int_text(progress.due_count as int) + " due · "@ + int_text(progress.new_remaining as int)
            + " new · "@ + int_text(progress.reviewed_today as int) + " done"@,
        card_count != 0 && (progress.due_count > 0 || progress.new_remaining > 0) ==> r.display.plain@
            == shown_name(deck) + ": "@ + int_text(progress.due_count as int) + " due, "@
            + int_text(progress.new_remaining as int) + " new, "@ + int_text(progress.reviewed_today as int)
            + " reviewed today"@,
        r.today.due == progress.due_count && r.today.new_remaining == progress.new_remaining
            && r.today.reviewed == progress.reviewed_today,
{
    reveal_strlit("review");
    reveal_strlit("complete");
    reveal_strlit("none");
    reveal_strlit("Continue");
    reveal_strlit("Rest");
    assert("review"@ != "complete"@) by { assert("review"@[0] != "complete"@[0]); }
    assert("review"@ != "none"@) by { assert("review"@[0] != "none"@[0]); }
    assert("Continue"@ != "Rest"@) by { assert("Continue"@[0] != "Rest"@[0]); }
}

/// The share of `good` and `easy` among `reviews` ratings, when there are any.
pub open spec fn rate_spec(good: int, easy: int, reviews: int) -> Option<Ratio> {
    if reviews > 0 {
        Some(Ratio { numerator: (good + easy) as i128, denominator: reviews as i64 })
    } else {
        None
    }
}

/// The share of `good` and `easy` ratings.
pub fn good_or_easy_rate(good: i64, easy: i64, reviews: i64) -> (r: Option<Ratio>)
    ensures
        r == rate_spec(good as int, easy as int, reviews as int),
{
    if reviews > 0 {
        Some(Ratio { numerator: good as i128 + easy as i128, denominator: reviews })
    } else {
        None
    }
}


/// The UNIX second of day `k` of a range starting on the day of `first`.
pub open spec fn day_secs(first: Timestamp, k: int) -> int {
    first.secs + 86_400 * k
}

/// The `YYYY-MM-DD` text of day `k` of the range, when chrono can write it.
pub open spec fn day_label(first: Timestamp, k: int) -> Option<Seq<char>> {
    if i64::MIN <= day_secs(first, k) <= i64::MAX {
        chrono_text(day_secs(first, k) as i64, 0, date_pattern())
    } else {
        None
    }
}

/// No ratings.
pub open spec fn no_reviews() -> DailyReviewStats {
    DailyReviewStats { reviews: 0, again: 0, hard: 0, good: 0, easy: 0 }
}

/// The ratings of the first bucket dated `label`, or none.
pub open spec fn bucket_for(buckets: Seq<DailyReviewBucket>, label: Seq<char>) -> DailyReviewStats
    decreases buckets.len(),
{
    if buckets.len() == 0 {
        no_reviews()
    } else if buckets[0].date@ == label {
        buckets[0].stats
    } else {
        bucket_for(buckets.drop_first(), label)
    }
}

/// The ratings of each day of the range.
pub open spec fn range_stats(buckets: Seq<DailyReviewBucket>, first: Timestamp, days: int) -> Seq<DailyReviewStats> {
    Seq::new(if days > 0 { days as nat } else { 0 }, |k: int| bucket_for(buckets, day_label(first, k)->Some_0))
}

/// Sums of reviews, good and easy ratings.
pub open spec fn sums(s: Seq<DailyReviewStats>) -> (int, int, int)
    decreases s.len(),
{
    if s.len() == 0 {
        (0, 0, 0)
    } else {
        let (r, g, e) = sums(s.drop_last());
        (r + s.last().reviews, g + s.last().good, e + s.last().easy)
    }
}

/// Every day of the range has a label and the totals fit an `i64`.
pub open spec fn stats_range_ok(buckets: Seq<DailyReviewBucket>, first: Timestamp, days: int) -> bool {
    let (r, g, e) = sums(range_stats(buckets, first, days));
    &&& forall|k: int| 0 <= k < days ==> (#[trigger] day_label(first, k)) is Some
    &&& i64::MIN <= r <= i64::MAX
    &&& i64::MIN <= g <= i64::MAX
    &&& i64::MIN <= e <= i64::MAX
}

fn find_bucket(buckets: &Vec<DailyReviewBucket>, label: &str) -> (s: DailyReviewStats)
    ensures
        s == bucket_for(buckets@, label@),
{
    let mut i: usize = 0;
    assert(buckets@.subrange(0, buckets@.len() as int) =~= buckets@);
    while i < buckets.len()
        invariant
            i <= buckets.len(),
            bucket_for(buckets@, label@) == bucket_for(buckets@.subrange(i as int, buckets@.len() as int), label@),
        decreases buckets.len() - i,
    {
        let ghost rest = buckets@.subrange(i as int, buckets@.len() as int);
        if same(buckets[i].date.as_str(), label) {
            return buckets[i].stats;
        }
        assert(rest.drop_first() =~= buckets@.subrange(i + 1, buckets@.len() as int));
        i = i + 1;
    }
    assert(buckets@.subrange(i as int, buckets@.len() as int) =~= Seq::<DailyReviewBucket>::empty());
    DailyReviewStats { reviews: 0, again: 0, hard: 0, good: 0, easy: 0 }
}

/// The statistics response of `deck` over `days` days from the day of
/// `first_day`, the ratings read from `buckets`.
pub open spec fn stats_response_spec(deck: Deck, days: i64, first_day: Timestamp, buckets: Seq<DailyReviewBucket>, resp: StatsResponse) -> bool {
    let stats = range_stats(buckets, first_day, days as int);
    let (reviews, good, easy) = sums(stats);
    &&& resp.schema@ == STATS_SCHEMA@
    &&& resp.deck.id@ == deck.name@
    &&& resp.deck.name@ == shown_name(deck)
    &&& resp.deck.db_id == deck.id
    &&& resp.range.kind@ == "days"@
    &&& resp.range.days == days
    &&& resp.series@.len() == stats.len()
    &&& forall|k: int| 0 <= k < stats.len() ==> {
        let d = #[trigger] resp.series@[k];
        &&& Some(d.date@) == day_label(first_day, k)
        &&& d.reviews == stats[k].reviews
        &&& d.again == stats[k].again
        &&& d.hard == stats[k].hard
        &&& d.good == stats[k].good
        &&& d.easy == stats[k].easy
        &&& d.good_or_easy_rate == rate_spec(stats[k].good as int, stats[k].easy as int, stats[k].reviews as int)
    }
    &&& resp.summary.reviews == reviews
    &&& resp.summary.reviewed_today == (if stats.len() > 0 { stats.last().reviews as int } else { 0 })
    &&& resp.summary.good_or_easy_rate == rate_spec(good, easy, reviews)
}

/// The first second of a range of `days` days ending on the day of `now`.
pub open spec fn range_start(now: Timestamp, days: i64) -> int {
    now.secs - 86_400 * (if days == i64::MIN { days as int } else { days - 1 })
}

/// The statistics read at `now`: a response over the range ending today
/// when that range can be written and its totals fit, `None` otherwise.
pub open spec fn stats_at_spec(deck: Deck, days: i64, buckets: Seq<DailyReviewBucket>, now: Timestamp, r: Option<StatsResponse>) -> bool {
    let start = range_start(now, days);
    let first = Timestamp { secs: start as i64, nanos: 0 };
    &&& now.secs >= 0
    &&& match r {
        Some(resp) => i64::MIN <= start <= i64::MAX && stats_range_ok(buckets, first, days as int)
            && stats_response_spec(deck, days, first, buckets, resp),
        None => !(i64::MIN <= start <= i64::MAX) || !stats_range_ok(buckets, first, days as int),
    }
}

impl StatsResponse {
    /// Review statistics of `deck` over `days` days starting on the day of
    /// `first_day`: for each day the ratings of the first bucket with its
    /// date (none when no bucket has it), the totals, and today's reviews (the
    /// last day's). `None` when chrono cannot write a day of the range or a
    /// total does not fit an `i64`.
    pub fn new_for_range(deck: &Deck, days: i64, first_day: Timestamp, buckets: &Vec<DailyReviewBucket>) -> (r: Option<StatsResponse>)
        ensures
            match r {
                Some(resp) => stats_range_ok(buckets@, first_day, days as int)
                    && stats_response_spec(*deck, days, first_day, buckets@, resp),
                None => !stats_range_ok(buckets@, first_day, days as int),
            },
    {
        let ghost stats = range_stats(buckets@, first_day, days as int);
        let mut series: Vec<DailyStatsFields> = Vec::new();
        let mut reviews: i128 = 0;
        let mut good: i128 = 0;
        let mut easy: i128 = 0;
        let mut k: i64 = 0;
        while k < days
            invariant
                0 <= k,
                k <= days || days < 0,
                days > 0 ==> k <= days,
                days <= 0 ==> k == 0,
                stats == range_stats(buckets@, first_day, days as int),
                series@.len() == k,
                forall|j: int| 0 <= j < k ==> (#[trigger] day_label(first_day, j)) is Some,
                forall|j: int| 0 <= j < k ==> {
                    let d = #[trigger] series@[j];
                    &&& Some(d.date@) == day_label(first_day, j)
                    &&& d.reviews == stats[j].reviews
                    &&& d.again == stats[j].again
                    &&& d.hard == stats[j].hard
                    &&& d.good == stats[j].good
                    &&& d.easy == stats[j].easy
                    &&& d.good_or_easy_rate == rate_spec(stats[j].good as int, stats[j].easy as int, stats[j].reviews as int)
                },
                (reviews as int, good as int, easy as int) == sums(stats.subrange(0, k as int)),
                -0x8000_0000_0000_0000 * k <= reviews <= 0x7fff_ffff_ffff_ffff * k,
                -0x8000_0000_0000_0000 * k <= good <= 0x7fff_ffff_ffff_ffff * k,
                -0x8000_0000_0000_0000 * k <= easy <= 0x7fff_ffff_ffff_ffff * k,
            decreases days - k,
        {
            let secs: i128 = first_day.secs as i128 + 86_400i128 * k as i128;
            if secs < i64::MIN as i128 || secs > i64::MAX as i128 {
                assert(day_label(first_day, k as int) is None);
                return None;
            }
            let label = match format_date(Timestamp { secs: secs as i64, nanos: 0 }) {
                Some(l) => l,
                None => {
                    assert(day_label(first_day, k as int) is None);
                    return None;
                },
            };
            let day = find_bucket(buckets, label.as_str());
            assert(stats[k as int] == day);
            let rate = good_or_easy_rate(day.good, day.easy, day.reviews);
            series.push(DailyStatsFields {
                date: label,
                reviews: day.reviews,
                again: day.again,
                hard: day.hard,
                good: day.good,
                easy: day.easy,
                good_or_easy_rate: rate,
            });
            assert(stats.subrange(0, k + 1).drop_last() =~= stats.subrange(0, k as int));
            reviews = reviews + day.reviews as i128;
            good = good + day.good as i128;
            easy = easy + day.easy as i128;
            k = k + 1;
        }
        assert(stats.subrange(0, k as int) =~= stats);
        if reviews < i64::MIN as i128 || reviews > i64::MAX as i128
            || good < i64::MIN as i128 || good > i64::MAX as i128
            || easy < i64::MIN as i128 || easy > i64::MAX as i128 {
            return None;
        }
        let reviewed_today = if series.len() > 0 { series[series.len() - 1].reviews } else { 0 };
        let rate = good_or_easy_rate(good as i64, easy as i64, reviews as i64);
        Some(StatsResponse {
            schema: STATS_SCHEMA,
            deck: deck_fields(deck),
            range: StatsRangeFields { kind: String::from_str("days"), days },
            summary: StatsSummaryFields { reviews: reviews as i64, reviewed_today, good_or_easy_rate: rate },
            series,
        })
    }

    /// Review statistics of `deck` over the last `days` days, today
    /// included. Whatever the clock says, a response covers `days` days.
    pub fn new(deck: &Deck, days: i64, buckets: &Vec<DailyReviewBucket>) -> (r: Option<StatsResponse>)
        ensures
            match r {
                Some(resp) => resp.range.days == days && resp.series@.len() == (if days > 0 { days as int } else { 0 }),
                None => true,
            },
            exists|now: Timestamp| #[trigger] stats_at_spec(*deck, days, buckets@, now, r),
    {
        let now = utc_now();
        let back: i128 = if days == i64::MIN { days as i128 } else { days as i128 - 1 };
        let first: i128 = now.secs as i128 - 86_400i128 * back;
        assert(first == range_start(now, days));
        if first < i64::MIN as i128 || first > i64::MAX as i128 {
            assert(stats_at_spec(*deck, days, buckets@, now, None));
            return None;
        }
        let r = Self::new_for_range(deck, days, Timestamp { secs: first as i64, nanos: 0 }, buckets);
        assert(stats_at_spec(*deck, days, buckets@, now, r));
        r
    }
}

} // verus!
