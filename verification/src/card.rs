//! Cards, their scheduling state and review ratings.

use vstd::prelude::*;
use crate::text::{cat, copy_opt, copy_strings, same};

verus! {

#[derive(Debug)]
pub struct Meaning {
    pub part_of_speech: String,
    pub definition: String,
    pub example: Option<String>,
}

#[derive(Debug)]
pub struct Pronunciation {
    pub notation: String,
    pub audio_url: Option<String>,
}

#[derive(Debug, PartialEq, Eq)]
pub struct Source {
    pub name: String,
    pub license: Option<String>,
}

#[derive(Debug)]
pub struct Card {
    pub id: i64,
    pub deck_id: i64,
    pub word: String,
    pub language: String,
    pub meanings: Vec<Meaning>,
    pub pronunciations: Vec<Pronunciation>,
    pub tags: Vec<String>,
    pub source: Option<Source>,
    pub created_at: String,
}

/// Learning phase of a card.
#[derive(Debug, Clone, Copy, PartialEq, Eq, Structural)]
pub enum ReviewState {
    New,
    Learning,
    Review,
    Relearning,
}

/// Scheduling state of one card. Memory stability and difficulty are kept as
/// the IEEE-754 bit patterns of the scheduler's `f64` values; the library
/// carries them unchanged.
#[derive(Debug)]
pub struct CardState {
    /// The card this scheduling state belongs to.
    pub card_id: i64,
    /// Bit pattern of the memory stability (`0.0` for a new card).
    pub stability_bits: u64,
    /// Bit pattern of the memory difficulty (`0.0` for a new card).
    pub difficulty_bits: u64,
    /// UTC date-time text of the next due moment.
    pub due: String,
    /// Completed reviews; `0` means the card is still new.
    pub reps: i32,
    /// Reviews rated `Again`.
    pub lapses: i32,
    /// Current learning phase.
    pub state: ReviewState,
}

#[derive(Debug)]
pub struct CardWithState {
    pub card: Card,
    pub state: CardState,
    pub last_reviewed_at: Option<String>,
}

/// A review rating.
#[derive(Debug, Clone, Copy, PartialEq, Eq, Structural)]
pub enum Rating {
    Again,
    Hard,
    Good,
    Easy,
}

/// One row of the review history.
#[derive(Debug)]
pub struct ReviewLog {
    pub id: i64,
    pub card_id: i64,
    pub rating: Rating,
    pub reviewed_at: String,
    pub elapsed_days: i64,
    pub scheduled_days: i64,
}

impl Meaning {
    pub fn copy(&self) -> (r: Meaning)
        ensures
            r == *self,
    {
        Meaning {
            part_of_speech: self.part_of_speech.clone(),
            definition: self.definition.clone(),
            example: copy_opt(&self.example),
        }
    }
}

impl Pronunciation {
    pub fn copy(&self) -> (r: Pronunciation)
        ensures
            r == *self,
    {
        Pronunciation { notation: self.notation.clone(), audio_url: copy_opt(&self.audio_url) }
    }
}

impl Source {
    pub fn copy(&self) -> (r: Source)
        ensures
            r == *self,
    {
        Source { name: self.name.clone(), license: copy_opt(&self.license) }
    }
}

/// A copy of an optional source.
pub fn copy_source(s: &Option<Source>) -> (r: Option<Source>)
    ensures
        r == *s,
{
    match s {
        Some(x) => Some(x.copy()),
        None => None,
    }
}

/// A copy of a list of meanings.
pub fn copy_meanings(v: &Vec<Meaning>) -> (r: Vec<Meaning>)
    ensures
        r@ == v@,
{
    let mut r: Vec<Meaning> = Vec::new();
    let mut i: usize = 0;
    while i < v.len()
        invariant
            i <= v.len(),
            r@ == v@.subrange(0, i as int),
        decreases v.len() - i,
    {
        r.push(v[i].copy());
        i = i + 1;
    }
    assert(r@ =~= v@);
    r
}

/// A copy of a list of pronunciations.
pub fn copy_pronunciations(v: &Vec<Pronunciation>) -> (r: Vec<Pronunciation>)
    ensures
        r@ == v@,
{
    let mut r: Vec<Pronunciation> = Vec::new();
    let mut i: usize = 0;
    while i < v.len()
        invariant
            i <= v.len(),
            r@ == v@.subrange(0, i as int),
        decreases v.len() - i,
    {
        r.push(v[i].copy());
        i = i + 1;
    }
    assert(r@ =~= v@);
    r
}

/// What a card holds, with its lists as sequences.
pub struct CardView {
    pub id: i64,
    pub deck_id: i64,
    pub word: String,
    pub language: String,
    pub meanings: Seq<Meaning>,
    pub pronunciations: Seq<Pronunciation>,
    pub tags: Seq<String>,
    pub source: Option<Source>,
    pub created_at: String,
}

impl View for Card {
    type V = CardView;

    open spec fn view(&self) -> CardView {
        CardView {
            id: self.id,
            deck_id: self.deck_id,
            word: self.word,
            language: self.language,
            meanings: self.meanings@,
            pronunciations: self.pronunciations@,
            tags: self.tags@,
            source: self.source,
            created_at: self.created_at,
        }
    }
}

impl Card {
    pub fn copy(&self) -> (r: Card)
        ensures
            r@ == self@,
    {
        let r = Card {
            id: self.id,
            deck_id: self.deck_id,
            word: self.word.clone(),
            language: self.language.clone(),
            meanings: copy_meanings(&self.meanings),
            pronunciations: copy_pronunciations(&self.pronunciations),
            tags: copy_strings(&self.tags),
            source: copy_source(&self.source),
            created_at: self.created_at.clone(),
        };
        r
    }
}

/// The text of a learning phase.
pub open spec fn review_state_text(s: ReviewState) -> Seq<char> {
    match s {
        ReviewState::New => "new"@,
        ReviewState::Learning => "learning"@,
        ReviewState::Review => "review"@,
        ReviewState::Relearning => "relearning"@,
    }
}

/// Reading a learning phase back from its text.
pub open spec fn parse_review_state(s: Seq<char>) -> Result<ReviewState, Seq<char>> {
    if s == "new"@ {
        Ok(ReviewState::New)
    } else if s == "learning"@ {
        Ok(ReviewState::Learning)
    } else if s == "review"@ {
        Ok(ReviewState::Review)
    } else if s == "relearning"@ {
        Ok(ReviewState::Relearning)
    } else {
        Err("unknown state: "@ + s)
    }
}

impl ReviewState {
    /// The text this phase displays as.
    pub fn to_text(&self) -> (r: String)
        ensures
            r@ == review_state_text(*self),
    {
        match self {
            ReviewState::New => String::from_str("new"),
            ReviewState::Learning => String::from_str("learning"),
            ReviewState::Review => String::from_str("review"),
            ReviewState::Relearning => String::from_str("relearning"),
        }
    }

    /// Parses the text of a phase.
    pub fn parse(s: &str) -> (r: Result<ReviewState, String>)
        ensures
            match r {
                Ok(v) => parse_review_state(s@) == Ok::<ReviewState, Seq<char>>(v),
                Err(e) => parse_review_state(s@) == Err::<ReviewState, Seq<char>>(e@),
            },
    {
        if same(s, "new") {
            Ok(ReviewState::New)
        } else if same(s, "learning") {
            Ok(ReviewState::Learning)
        } else if same(s, "review") {
            Ok(ReviewState::Review)
        } else if same(s, "relearning") {
            Ok(ReviewState::Relearning)
        } else {
            Err(cat("unknown state: ", s))
        }
    }
}

/// The number a rating is stored as.
pub open spec fn rating_number(r: Rating) -> i64 {
    match r {
        Rating::Again => 1,
        Rating::Hard => 2,
        Rating::Good => 3,
        Rating::Easy => 4,
    }
}

/// The rating stored as a number.
pub open spec fn rating_from_number(v: i64) -> Result<Rating, i64> {
    if v == 1 {
        Ok(Rating::Again)
    } else if v == 2 {
        Ok(Rating::Hard)
    } else if v == 3 {
        Ok(Rating::Good)
    } else if v == 4 {
        Ok(Rating::Easy)
    } else {
        Err(v)
    }
}

/// The text of a rating.
pub open spec fn rating_text(r: Rating) -> Seq<char> {
    match r {
        Rating::Again => "again"@,
        Rating::Hard => "hard"@,
        Rating::Good => "good"@,
        Rating::Easy => "easy"@,
    }
}

/// Reading a rating back from its text.
pub open spec fn parse_rating(s: Seq<char>) -> Result<Rating, Seq<char>> {
    if s == "again"@ {
        Ok(Rating::Again)
    } else if s == "hard"@ {
        Ok(Rating::Hard)
    } else if s == "good"@ {
        Ok(Rating::Good)
    } else if s == "easy"@ {
        Ok(Rating::Easy)
    } else {
        Err("unknown rating: "@ + s)
    }
}

impl Rating {
    /// The number this rating is stored as: again 1, hard 2, good 3, easy 4.
    pub fn as_i64(self) -> (r: i64)
        ensures
            r == rating_number(self),
    {
        match self {
            Rating::Again => 1,
            Rating::Hard => 2,
            Rating::Good => 3,
            Rating::Easy => 4,
        }
    }

    /// The rating a stored number stands for; other numbers come back as the error.
    pub fn from_i64(v: i64) -> (r: Result<Rating, i64>)
        ensures
            r == rating_from_number(v),
    {
        if v == 1 {
            Ok(Rating::Again)
        } else if v == 2 {
            Ok(Rating::Hard)
        } else if v == 3 {
            Ok(Rating::Good)
        } else if v == 4 {
            Ok(Rating::Easy)
        } else {
            Err(v)
        }
    }

    /// The text this rating displays as.
    pub fn to_text(&self) -> (r: String)
        ensures
            r@ == rating_text(*self),
    {
        match self {
            Rating::Again => String::from_str("again"),
            Rating::Hard => String::from_str("hard"),
            Rating::Good => String::from_str("good"),
            Rating::Easy => String::from_str("easy"),
        }
    }

    /// Parses a rating: `again`, `hard`, `good` or `easy`.
    pub fn parse(s: &str) -> (r: Result<Rating, String>)
        ensures
            match r {
                Ok(v) => parse_rating(s@) == Ok::<Rating, Seq<char>>(v),
                Err(e) => parse_rating(s@) == Err::<Rating, Seq<char>>(e@),
            },
    {
        if same(s, "again") {
            Ok(Rating::Again)
        } else if same(s, "hard") {
            Ok(Rating::Hard)
        } else if same(s, "good") {
            Ok(Rating::Good)
        } else if same(s, "easy") {
            Ok(Rating::Easy)
        } else {
            Err(cat("unknown rating: ", s))
        }
    }
}

/// A rating's number reads back as the same rating.
pub proof fn lemma_rating_number_round_trip(r: Rating)
    ensures
        rating_from_number(rating_number(r)) == Ok::<Rating, i64>(r),
{
}

/// Different ratings are stored as different numbers, and every stored
/// number is between 1 and 4.
pub proof fn lemma_rating_number_injective(a: Rating, b: Rating)
    ensures
        rating_number(a) == rating_number(b) ==> a == b,
        1 <= rating_number(a) <= 4,
{
}

/// A rating's text parses back as the same rating.
pub proof fn lemma_rating_text_round_trip(r: Rating)
    ensures
        parse_rating(rating_text(r)) == Ok::<Rating, Seq<char>>(r),
{
    reveal_strlit("again");
    reveal_strlit("hard");
    reveal_strlit("good");
    reveal_strlit("easy");
    assert("hard"@ != "again"@) by { assert("hard"@.len() != "again"@.len()); }
    assert("good"@ != "again"@) by { assert("good"@.len() != "again"@.len()); }
    assert("easy"@ != "again"@) by { assert("easy"@.len() != "again"@.len()); }
    assert("good"@ != "hard"@) by { assert("good"@[0] != "hard"@[0]); }
    assert("easy"@ != "hard"@) by { assert("easy"@[0] != "hard"@[0]); }
    assert("easy"@ != "good"@) by { assert("easy"@[0] != "good"@[0]); }
}

/// A learning phase's text parses back as the same phase.
pub proof fn lemma_review_state_text_round_trip(s: ReviewState)
    ensures
        parse_review_state(review_state_text(s)) == Ok::<ReviewState, Seq<char>>(s),
{
    reveal_strlit("new");
    reveal_strlit("learning");
    reveal_strlit("review");
    reveal_strlit("relearning");
    assert("learning"@ != "new"@) by { assert("learning"@.len() != "new"@.len()); }
    assert("review"@ != "new"@) by { assert("review"@.len() != "new"@.len()); }
    assert("relearning"@ != "new"@) by { assert("relearning"@.len() != "new"@.len()); }
    assert("review"@ != "learning"@) by { assert("review"@.len() != "learning"@.len()); }
    assert("relearning"@ != "learning"@) by { assert("relearning"@.len() != "learning"@.len()); }
    assert("relearning"@ != "review"@) by { assert("relearning"@.len() != "review"@.len()); }
}


impl TryFrom<i64> for Rating {
    type Error = i64;

    fn try_from(v: i64) -> Result<Self, Self::Error> {
        Rating::from_i64(v)
    }
}

impl vstd::std_specs::convert::TryFromSpecImpl<i64> for Rating {
    open spec fn obeys_try_from_spec() -> bool {
        true
    }

    open spec fn try_from_spec(v: i64) -> Result<Rating, i64> {
        rating_from_number(v)
    }
}

impl std::str::FromStr for Rating {
    type Err = String;

    fn from_str(value: &str) -> (r: Result<Self, Self::Err>)
        ensures
            match r {
                Ok(v) => parse_rating(value@) == Ok::<Rating, Seq<char>>(v),
                Err(e) => parse_rating(value@) == Err::<Rating, Seq<char>>(e@),
            },
    {
        Rating::parse(value)
    }
}

} // verus!
