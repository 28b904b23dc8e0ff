//! Review scheduling bookkeeping around the FSRS memory model: elapsed days,
//! due moments, learning phases and the state a review leaves behind.
//! The memory model itself computes in floating point and is run by the
//! caller; its outcome reaches this module as bit patterns and rounded
//! intervals.

use vstd::prelude::*;
use crate::card::{CardState, Rating, ReviewState};
use crate::clock::{
    chrono_text, datetime_pattern, elapsed_days, elapsed_days_spec, format_utc, parse_utc,
    parse_utc_spec, utc_now, Timestamp,
};
use crate::error::Error;

verus! {

/// Retention the scheduler aims for, in percent.
pub const DESIRED_RETENTION_PERCENT: u32 = 90;

/// The memory state FSRS proposes for one rating.
#[derive(Debug, Clone, Copy, PartialEq, Eq, Structural)]
pub struct ItemState {
    /// Bit pattern of the proposed stability, as `f64`.
    pub stability_bits: u64,
    /// Bit pattern of the proposed difficulty, as `f64`.
    pub difficulty_bits: u64,
    /// The proposed interval in days, rounded to the nearest integer
    /// (`f32::round`, then cast to `i64`).
    pub interval_days: i64,
}

/// FSRS proposals for each of the four ratings.
#[derive(Debug, Clone, Copy, PartialEq, Eq, Structural)]
pub struct NextStates {
    pub again: ItemState,
    pub hard: ItemState,
    pub good: ItemState,
    pub easy: ItemState,
}

/// The moment of a review and the days since the previous one.
#[derive(Debug, Clone, Copy, PartialEq, Eq, Structural)]
pub struct ReviewClock {
    pub now: Timestamp,
    /// Whole days since the last review (`0` for a first review).
    pub elapsed_days: i64,
    /// `elapsed_days` as FSRS takes it: a `u32`, saturating.
    pub fsrs_days: u32,
}

/// The outcome of one review, ready to be recorded.
#[derive(Debug)]
pub struct ScheduledReview {
    pub card_id: i64,
    pub rating: Rating,
    pub reviewed_at: String,
    pub due: String,
    pub elapsed_days: i64,
    pub scheduled_days: i64,
    /// Bit pattern of the new stability, as `f64`.
    pub stability_bits: u64,
    /// Bit pattern of the new difficulty, as `f64`.
    pub difficulty_bits: u64,
    pub state: ReviewState,
}

/// The proposal FSRS made for `rating`.
pub open spec fn chosen(next: NextStates, rating: Rating) -> ItemState {
    match rating {
        Rating::Again => next.again,
        Rating::Hard => next.hard,
        Rating::Good => next.good,
        Rating::Easy => next.easy,
    }
}

/// Days until the next review: none after `Again`, else the rounded interval
/// and at least one.
pub open spec fn scheduled_days_spec(rating: Rating, interval_days: int) -> int {
    if rating == Rating::Again {
        0
    } else if interval_days < 1 {
        1
    } else {
        interval_days
    }
}

/// The learning phase after a review: a first `Again` or `Hard` starts
/// learning, a later `Again` relearning; everything else is review.
pub open spec fn next_review_state_spec(reps: int, rating: Rating) -> ReviewState {
    match rating {
        Rating::Again => if reps == 0 { ReviewState::Learning } else { ReviewState::Relearning },
        Rating::Hard => if reps == 0 { ReviewState::Learning } else { ReviewState::Review },
        _ => ReviewState::Review,
    }
}

/// The due moment in seconds: now after `Again`, otherwise the scheduled days later.
pub open spec fn due_secs_spec(now: Timestamp, rating: Rating, scheduled_days: int) -> int {
    if rating == Rating::Again {
        now.secs as int
    } else {
        now.secs + 86_400 * scheduled_days
    }
}

/// Days to wait after a rating, given FSRS's rounded interval.
pub fn scheduled_days(rating: Rating, interval_days: i64) -> (d: i64)
    ensures
        d == scheduled_days_spec(rating, interval_days as int),
{
    if rating == Rating::Again {
        0
    } else if interval_days < 1 {
        1
    } else {
        interval_days
    }
}

/// The learning phase a review leads to.
pub fn next_review_state(card_state: &CardState, rating: Rating) -> (s: ReviewState)
    ensures
        s == next_review_state_spec(card_state.reps as int, rating),
{
    match rating {
        Rating::Again => if card_state.reps == 0 { ReviewState::Learning } else { ReviewState::Relearning },
        Rating::Hard => if card_state.reps == 0 { ReviewState::Learning } else { ReviewState::Review },
        _ => ReviewState::Review,
    }
}

/// The clock of a review taken at `now`: the previous review is read from its
/// stored text (a first review counts as taken now).
pub open spec fn review_clock_spec(now: Timestamp, last_reviewed_at: Option<Seq<char>>) -> Result<ReviewClock, Seq<char>> {
    match last_reviewed_at {
        None => Ok(ReviewClock { now, elapsed_days: 0, fsrs_days: 0 }),
        Some(text) => match parse_utc_spec(text) {
            Err(m) => Err(m),
            Ok((s, n)) => {
                let d = elapsed_days_spec(now, Timestamp { secs: s, nanos: n });
                Ok(ReviewClock {
                    now,
                    elapsed_days: d as i64,
                    fsrs_days: if d > u32::MAX { u32::MAX } else { d as u32 },
                })
            },
        },
    }
}

/// The clock of a review taken at `now`.
pub fn review_clock_at(now: Timestamp, last_reviewed_at: Option<&str>) -> (r: Result<ReviewClock, Error>)
    ensures
        match r {
            Ok(c) => review_clock_spec(now, match last_reviewed_at { Some(t) => Some(t@), None => None })
                == Ok::<ReviewClock, Seq<char>>(c),
            Err(Error::InvalidInput(m)) => review_clock_spec(now, match last_reviewed_at { Some(t) => Some(t@), None => None })
                == Err::<ReviewClock, Seq<char>>(m@),
            Err(_) => false,
        },
{
    match last_reviewed_at {
        None => {
            assert(elapsed_days_spec(now, now) == 0);
            Ok(ReviewClock { now, elapsed_days: 0, fsrs_days: 0 })
        },
        Some(text) => {
            let last = parse_utc(text)?;
            let d = elapsed_days(now, last);
            let fsrs_days: u32 = if d > u32::MAX as i64 { u32::MAX } else { d as u32 };
            Ok(ReviewClock { now, elapsed_days: d, fsrs_days })
        },
    }
}

/// The characters of an optional text.
pub open spec fn str_opt(o: Option<&str>) -> Option<Seq<char>> {
    match o {
        Some(t) => Some(t@),
        None => None,
    }
}

/// The clock of a review taken now. Whatever the clock reads, the elapsed
/// days are not negative and FSRS gets them saturated to `u32`.
pub fn review_clock(last_reviewed_at: Option<&str>) -> (r: Result<ReviewClock, Error>)
    ensures
        match r {
            Ok(c) => c.elapsed_days >= 0 && c.fsrs_days as int == (if c.elapsed_days > u32::MAX { u32::MAX as int } else { c.elapsed_days as int })
                && (last_reviewed_at is None ==> c.elapsed_days == 0)
                && exists|now: Timestamp| #[trigger] review_clock_spec(now, str_opt(last_reviewed_at))
                    == Ok::<ReviewClock, Seq<char>>(c),
            Err(Error::InvalidInput(m)) => last_reviewed_at matches Some(t) && parse_utc_spec(t@) == Err::<(i64, u32), Seq<char>>(m@),
            Err(_) => false,
        },
{
    let now = utc_now();
    review_clock_at(now, last_reviewed_at)
}

/// The instant a review's due moment falls on.
pub open spec fn due_moment(clock: ReviewClock, rating: Rating, next: NextStates) -> int {
    due_secs_spec(clock.now, rating, scheduled_days_spec(rating, chosen(next, rating).interval_days as int))
}

/// chrono can write both the review moment and the due moment.
pub open spec fn review_in_range(clock: ReviewClock, rating: Rating, next: NextStates) -> bool {
    &&& i64::MIN <= due_moment(clock, rating, next) <= i64::MAX
    &&& chrono_text(clock.now.secs, clock.now.nanos, datetime_pattern()) is Some
    &&& chrono_text(due_moment(clock, rating, next) as i64, clock.now.nanos, datetime_pattern()) is Some
}

/// The review of the card with `card_state`, rated `rating` at `clock`, given
/// FSRS's proposals for each rating.
pub open spec fn review_spec(
    card_state: CardState,
    rating: Rating,
    clock: ReviewClock,
    next: NextStates,
    r: ScheduledReview,
) -> bool {
    let item = chosen(next, rating);
    let days = scheduled_days_spec(rating, item.interval_days as int);
    &&& r.card_id == card_state.card_id
    &&& r.rating == rating
    &&& Some(r.reviewed_at@) == chrono_text(clock.now.secs, clock.now.nanos, datetime_pattern())
    &&& Some(r.due@) == chrono_text(due_moment(clock, rating, next) as i64, clock.now.nanos, datetime_pattern())
    &&& r.elapsed_days == clock.elapsed_days
    &&& r.scheduled_days == days
    &&& r.stability_bits == item.stability_bits
    &&& r.difficulty_bits == item.difficulty_bits
    &&& r.state == next_review_state_spec(card_state.reps as int, rating)
}

/// The review of a card rated `rating` at `clock`.
pub fn compute_review(card_state: &CardState, rating: Rating, clock: ReviewClock, next: &NextStates) -> (r: ScheduledReview)
    requires
        review_in_range(clock, rating, *next),
    ensures
        review_spec(*card_state, rating, clock, *next, r),
{
    let item = match rating {
        Rating::Again => next.again,
        Rating::Hard => next.hard,
        Rating::Good => next.good,
        Rating::Easy => next.easy,
    };
    let days = scheduled_days(rating, item.interval_days);
    let due_secs: i64 = if rating == Rating::Again {
        clock.now.secs
    } else {
        (clock.now.secs as i128 + 86_400i128 * days as i128) as i64
    };
    let due_at = Timestamp { secs: due_secs, nanos: clock.now.nanos };
    let reviewed_at = match format_utc(clock.now) {
        Some(s) => s,
        None => String::new(),
    };
    let due = match format_utc(due_at) {
        Some(s) => s,
        None => String::new(),
    };
    ScheduledReview {
        card_id: card_state.card_id,
        rating,
        reviewed_at,
        due,
        elapsed_days: clock.elapsed_days,
        scheduled_days: days,
        stability_bits: item.stability_bits,
        difficulty_bits: item.difficulty_bits,
        state: next_review_state(card_state, rating),
    }
}

/// The review of a card rated `rating` at `clock`, or `None` when the due
/// moment lies outside what chrono can represent (where the date arithmetic
/// would fail).
pub fn checked_review(card_state: &CardState, rating: Rating, clock: ReviewClock, next: &NextStates) -> (r: Option<ScheduledReview>)
    ensures
        match r {
            Some(rev) => review_in_range(clock, rating, *next) && review_spec(*card_state, rating, clock, *next, rev),
            None => !review_in_range(clock, rating, *next),
        },
{
    let item = match rating {
        Rating::Again => next.again,
        Rating::Hard => next.hard,
        Rating::Good => next.good,
        Rating::Easy => next.easy,
    };
    let days = scheduled_days(rating, item.interval_days);
    let due_wide: i128 = if rating == Rating::Again {
        clock.now.secs as i128
    } else {
        clock.now.secs as i128 + 86_400i128 * days as i128
    };
    if due_wide < i64::MIN as i128 || due_wide > i64::MAX as i128 {
        return None;
    }
    if format_utc(clock.now).is_none() {
        return None;
    }
    if format_utc(Timestamp { secs: due_wide as i64, nanos: clock.now.nanos }).is_none() {
        return None;
    }
    Some(compute_review(card_state, rating, clock, next))
}

/// The scheduling state a recorded review leaves: one more repetition, one
/// more lapse after `Again`, and the review's memory, due moment and phase.
pub open spec fn applied_state(old: CardState, review: ScheduledReview) -> CardState {
    CardState {
        card_id: old.card_id,
        stability_bits: review.stability_bits,
        difficulty_bits: review.difficulty_bits,
        due: review.due,
        reps: (old.reps + 1) as i32,
        lapses: (old.lapses + if review.rating == Rating::Again { 1int } else { 0int }) as i32,
        state: review.state,
    }
}

/// The scheduling state after recording `review` on a card in `old` state.
pub fn apply_review(old: &CardState, review: &ScheduledReview) -> (r: CardState)
    requires
        old.reps < i32::MAX,
        old.lapses < i32::MAX,
    ensures
        r == applied_state(*old, *review),
        r.stability_bits == review.stability_bits,
        r.difficulty_bits == review.difficulty_bits,
        r.due == review.due,
        r.state == review.state,
        r.card_id == old.card_id,
{
    CardState {
        card_id: old.card_id,
        stability_bits: review.stability_bits,
        difficulty_bits: review.difficulty_bits,
        due: review.due.clone(),
        reps: old.reps + 1,
        lapses: if review.rating == Rating::Again { old.lapses + 1 } else { old.lapses },
        state: review.state,
    }
}

/// `Again` schedules no days; every other rating at least one, so an `Again`
/// review is always due sooner than any other.
pub proof fn lemma_again_is_soonest(rating: Rating, interval_days: int)
    ensures
        scheduled_days_spec(Rating::Again, interval_days) == 0,
        rating != Rating::Again ==> scheduled_days_spec(rating, interval_days) >= 1,
        rating != Rating::Again ==> scheduled_days_spec(rating, interval_days) > scheduled_days_spec(Rating::Again, interval_days),
{
}

/// A review never leaves a card new: a first `Again` or `Hard` starts
/// learning, a later `Again` relearning, and any other review puts the card
/// in review.
pub proof fn lemma_review_leaves_new(reps: int, rating: Rating)
    ensures
        next_review_state_spec(reps, rating) != ReviewState::New,
        reps != 0 && rating != Rating::Again ==> next_review_state_spec(reps, rating) == ReviewState::Review,
        reps != 0 && rating == Rating::Again ==> next_review_state_spec(reps, rating) == ReviewState::Relearning,
        reps == 0 && (rating == Rating::Again || rating == Rating::Hard) ==> next_review_state_spec(reps, rating) == ReviewState::Learning,
        rating == Rating::Good || rating == Rating::Easy ==> next_review_state_spec(reps, rating) == ReviewState::Review,
{
}

/// Recording a review adds exactly one repetition, adds a lapse exactly when
/// the rating is `Again`, and keeps the card the state belongs to.
pub proof fn lemma_review_counts(old: CardState, review: ScheduledReview)
    requires
        old.reps < i32::MAX,
        old.lapses < i32::MAX,
    ensures
        applied_state(old, review).reps == old.reps + 1,
        applied_state(old, review).lapses == old.lapses + (if review.rating == Rating::Again { 1int } else { 0int }),
        applied_state(old, review).card_id == old.card_id,
        applied_state(old, review).due == review.due,
{
}

/// Recording a review stores the memory state the review carries: its
/// stability as the card's stability and its difficulty as the card's
/// difficulty, with the review's due moment and learning phase.
pub proof fn lemma_review_records_memory_state(old: CardState, review: ScheduledReview)
    ensures
        applied_state(old, review).stability_bits == review.stability_bits,
        applied_state(old, review).difficulty_bits == review.difficulty_bits,
        applied_state(old, review).state == review.state,
        applied_state(old, review).due == review.due,
{
}

/// A review carries FSRS's proposal for the rating given: the stability and
/// difficulty proposed for that rating, never those of another rating. After
/// `Again` it is due at once; after any other rating it is due the proposed
/// interval later, whole days and at least one.
pub proof fn lemma_review_takes_rated_proposal(
    card_state: CardState,
    rating: Rating,
    clock: ReviewClock,
    next: NextStates,
    r: ScheduledReview,
)
    requires
        review_spec(card_state, rating, clock, next, r),
    ensures
        rating == Rating::Again ==> r.stability_bits == next.again.stability_bits && r.difficulty_bits == next.again.difficulty_bits,
        rating == Rating::Hard ==> r.stability_bits == next.hard.stability_bits && r.difficulty_bits == next.hard.difficulty_bits,
        rating == Rating::Good ==> r.stability_bits == next.good.stability_bits && r.difficulty_bits == next.good.difficulty_bits,
        rating == Rating::Easy ==> r.stability_bits == next.easy.stability_bits && r.difficulty_bits == next.easy.difficulty_bits,
        r.card_id == card_state.card_id,
        r.rating == rating,
        r.elapsed_days == clock.elapsed_days,
        rating == Rating::Again ==> r.scheduled_days == 0 && due_moment(clock, rating, next) == clock.now.secs,
        rating != Rating::Again ==> r.scheduled_days >= 1
            && (chosen(next, rating).interval_days >= 1 ==> r.scheduled_days == chosen(next, rating).interval_days)
            && due_moment(clock, rating, next) == clock.now.secs + 86_400 * r.scheduled_days,
        Some(r.due@) == chrono_text(due_moment(clock, rating, next) as i64, clock.now.nanos, datetime_pattern()),
        Some(r.reviewed_at@) == chrono_text(clock.now.secs, clock.now.nanos, datetime_pattern()),
{
}

} // verus!
