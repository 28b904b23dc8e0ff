//! Deck-scoped card selection: which card to show next.

use vstd::prelude::*;
use crate::card::{Card, CardWithState};
use crate::clock::{parse_utc, parse_utc_spec, ts_le, not_after, utc_now, Timestamp};
use crate::storage::ProgressCounts;
use crate::text::{seq_lt, str_lt, lemma_seq_lt_irreflexive, lemma_seq_lt_transitive, lemma_seq_lt_total};

verus! {

/// Why a card was chosen.
#[derive(Debug, Clone, Copy, PartialEq, Eq, Structural)]
pub enum SelectionReason {
    /// A reviewed card whose due moment has come.
    Due,
    /// A card never reviewed, within today's new-card allowance.
    New,
    /// The card already being studied.
    Mature,
}

#[derive(Debug)]
pub struct SelectedCard {
    pub card: Card,
    pub reason: SelectionReason,
}

/// New cards a deck may introduce per day.
pub const DEFAULT_DAILY_NEW_LIMIT: i64 = 20;

/// Every candidate is the card to skip.
pub open spec fn all_skipped(c: Seq<CardWithState>, skip: Option<i64>) -> bool {
    forall|j: int| 0 <= j < c.len() ==> Some(#[trigger] c[j].card.id) == skip
}

/// Candidate `i` takes part in the choice: the card to skip is left out
/// unless it is the only kind of card there is.
pub open spec fn in_pool(c: Seq<CardWithState>, skip: Option<i64>, i: int) -> bool {
    0 <= i < c.len() && (all_skipped(c, skip) || Some(c[i].card.id) != skip)
}

/// Candidate `i` has been reviewed and its due moment is not after `now`.
pub open spec fn is_due(c: Seq<CardWithState>, now: Timestamp, i: int) -> bool {
    &&& c[i].state.reps > 0
    &&& parse_utc_spec(c[i].state.due@) is Ok
    &&& ts_le(
        Timestamp {
            secs: parse_utc_spec(c[i].state.due@)->Ok_0.0,
            nanos: parse_utc_spec(c[i].state.due@)->Ok_0.1,
        },
        now,
    )
}

/// Due candidate `i` goes before `j`: weaker recall first (smaller key), then
/// the earlier due text, then the smaller card id.
pub open spec fn key_lt(c: Seq<CardWithState>, keys: Seq<u64>, i: int, j: int) -> bool {
    ||| keys[i] < keys[j]
    ||| keys[i] == keys[j] && seq_lt(c[i].state.due@, c[j].state.due@)
    ||| keys[i] == keys[j] && c[i].state.due@ == c[j].state.due@ && c[i].card.id < c[j].card.id
}

/// `b` is the due candidate a stable sort by `key_lt` puts first.
pub open spec fn is_due_pick(
    c: Seq<CardWithState>,
    keys: Seq<u64>,
    skip: Option<i64>,
    now: Timestamp,
    b: int,
) -> bool {
    &&& in_pool(c, skip, b)
    &&& is_due(c, now, b)
    &&& forall|j: int| in_pool(c, skip, j) && is_due(c, now, j) ==> !key_lt(c, keys, j, b)
    &&& forall|j: int| 0 <= j < b && in_pool(c, skip, j) && is_due(c, now, j) ==> key_lt(c, keys, b, j)
}

/// Some candidate in the pool is due.
pub open spec fn some_due(c: Seq<CardWithState>, skip: Option<i64>, now: Timestamp) -> bool {
    exists|j: int| in_pool(c, skip, j) && is_due(c, now, j)
}

/// `b` is the first never-reviewed candidate of the pool.
pub open spec fn is_new_pick(c: Seq<CardWithState>, skip: Option<i64>, b: int) -> bool {
    &&& in_pool(c, skip, b)
    &&& c[b].state.reps == 0
    &&& forall|j: int| 0 <= j < b && in_pool(c, skip, j) ==> c[j].state.reps != 0
}

/// Some candidate of the pool was never reviewed.
pub open spec fn some_new(c: Seq<CardWithState>, skip: Option<i64>) -> bool {
    exists|j: int| in_pool(c, skip, j) && c[j].state.reps == 0
}

proof fn lemma_key_lt_irreflexive(c: Seq<CardWithState>, keys: Seq<u64>, i: int)
    ensures
        !key_lt(c, keys, i, i),
{
    lemma_seq_lt_irreflexive(c[i].state.due@);
}

proof fn lemma_key_lt_transitive(c: Seq<CardWithState>, keys: Seq<u64>, i: int, j: int, k: int)
    requires
        key_lt(c, keys, i, j),
        key_lt(c, keys, j, k),
    ensures
        key_lt(c, keys, i, k),
{
    if keys[i] == keys[j] && keys[j] == keys[k] {
        if seq_lt(c[i].state.due@, c[j].state.due@) && seq_lt(c[j].state.due@, c[k].state.due@) {
            lemma_seq_lt_transitive(c[i].state.due@, c[j].state.due@, c[k].state.due@);
        }
    }
}

/// Not after means before or tied on every part of the key.
proof fn lemma_key_lt_total(c: Seq<CardWithState>, keys: Seq<u64>, i: int, j: int)
    requires
        !key_lt(c, keys, j, i),
    ensures
        key_lt(c, keys, i, j) || (keys[i] == keys[j] && c[i].state.due@ == c[j].state.due@
            && c[i].card.id == c[j].card.id),
{
    if keys[i] == keys[j] && c[i].state.due@ != c[j].state.due@ {
        lemma_seq_lt_total(c[i].state.due@, c[j].state.due@);
    }
}

/// Whether the pool holds any candidate other than the one to skip.
fn none_left(candidates: &Vec<CardWithState>, skip: Option<i64>) -> (r: bool)
    ensures
        r == all_skipped(candidates@, skip),
{
    let mut i: usize = 0;
    while i < candidates.len()
        invariant
            i <= candidates.len(),
            forall|j: int| 0 <= j < i ==> Some(#[trigger] candidates@[j].card.id) == skip,
        decreases candidates.len() - i,
    {
        let skipped = match skip {
            Some(id) => candidates[i].card.id == id,
            None => false,
        };
        if !skipped {
            assert(Some(candidates@[i as int].card.id) != skip);
            return false;
        }
        i = i + 1;
    }
    true
}

/// Whether candidate `i` is due at `now`.
fn due_now(candidates: &Vec<CardWithState>, now: Timestamp, i: usize) -> (r: bool)
    requires
        i < candidates.len(),
    ensures
        r == is_due(candidates@, now, i as int),
{
    let entry = &candidates[i];
    if entry.state.reps <= 0 {
        return false;
    }
    match parse_utc(entry.state.due.as_str()) {
        Ok(t) => not_after(t, now),
        Err(_) => false,
    }
}

/// Whether due candidate `i` goes before `j`.
fn goes_before(candidates: &Vec<CardWithState>, keys: &Vec<u64>, i: usize, j: usize) -> (r: bool)
    requires
        i < candidates.len(),
        j < candidates.len(),
        keys.len() == candidates.len(),
    ensures
        r == key_lt(candidates@, keys@, i as int, j as int),
{
    let a = &candidates[i];
    let b = &candidates[j];
    if keys[i] < keys[j] {
        true
    } else if keys[i] == keys[j] {
        if str_lt(a.state.due.as_str(), b.state.due.as_str()) {
            true
        } else if crate::text::same(a.state.due.as_str(), b.state.due.as_str()) {
            a.card.id < b.card.id
        } else {
            false
        }
    } else {
        false
    }
}

/// The position of the card to show and why: among the pool (the candidates
/// other than `skip`, or all of them when nothing else is left), the due card
/// a stable sort by weaker recall, earlier due text and smaller id puts first;
/// failing that, the first new card when today's allowance is not used up.
pub fn pick_index(
    candidates: &Vec<CardWithState>,
    recall_keys: &Vec<u64>,
    daily_new_limit: usize,
    skip_card_id: Option<i64>,
    now: Timestamp,
) -> (r: Option<(usize, SelectionReason)>)
    requires
        recall_keys.len() == candidates.len(),
    ensures
        match r {
            Some((b, reason)) => {
                &&& reason == SelectionReason::Due ==> is_due_pick(candidates@, recall_keys@, skip_card_id, now, b as int)
                &&& reason == SelectionReason::New ==> !some_due(candidates@, skip_card_id, now)
                    && daily_new_limit > 0 && is_new_pick(candidates@, skip_card_id, b as int)
                &&& reason != SelectionReason::Mature
            },
            None => !some_due(candidates@, skip_card_id, now)
                && (daily_new_limit == 0 || !some_new(candidates@, skip_card_id)),
        },
{
    let ghost c = candidates@;
    let ghost keys = recall_keys@;
    let all = none_left(candidates, skip_card_id);
    let n = candidates.len();
    let mut best: Option<usize> = None;
    let mut i: usize = 0;
    while i < n
        invariant
            n == c.len(),
            c == candidates@,
            keys == recall_keys@,
            keys.len() == n,
            all == all_skipped(c, skip_card_id),
            i <= n,
            match best {
                Some(b) => {
                    &&& b < i
                    &&& in_pool(c, skip_card_id, b as int)
                    &&& is_due(c, now, b as int)
                    &&& forall|j: int| 0 <= j < i && in_pool(c, skip_card_id, j) && is_due(c, now, j)
                        ==> !key_lt(c, keys, j, b as int)
                    &&& forall|j: int| 0 <= j < b && in_pool(c, skip_card_id, j) && is_due(c, now, j)
                        ==> key_lt(c, keys, b as int, j)
                },
                None => forall|j: int| 0 <= j < i ==> !(in_pool(c, skip_card_id, j) && is_due(c, now, j)),
            },
        decreases n - i,
    {
        let pooled = all || match skip_card_id {
            Some(id) => candidates[i].card.id != id,
            None => true,
        };
        if pooled && due_now(candidates, now, i) {
            match best {
                None => {
                    proof { lemma_key_lt_irreflexive(c, keys, i as int); }
                    best = Some(i);
                },
                Some(b) => {
                    if goes_before(candidates, recall_keys, i, b) {
                        proof {
                            assert forall|j: int| 0 <= j <= i && in_pool(c, skip_card_id, j) && is_due(c, now, j)
                                implies !key_lt(c, keys, j, i as int) by {
                                if j == i {
                                    lemma_key_lt_irreflexive(c, keys, i as int);
                                } else if key_lt(c, keys, j, i as int) {
                                    lemma_key_lt_transitive(c, keys, j, i as int, b as int);
                                }
                            }
                            assert forall|j: int| 0 <= j < i && in_pool(c, skip_card_id, j) && is_due(c, now, j)
                                implies key_lt(c, keys, i as int, j) by {
                                lemma_key_lt_total(c, keys, b as int, j);
                                if key_lt(c, keys, b as int, j) {
                                    lemma_key_lt_transitive(c, keys, i as int, b as int, j);
                                }
                            }
                        }
                        best = Some(i);
                    }
                },
            }
        }
        i = i + 1;
    }
    match best {
        Some(b) => {
            return Some((b, SelectionReason::Due));
        },
        None => {},
    }
    assert(!some_due(c, skip_card_id, now));
    if daily_new_limit == 0 {
        return None;
    }
    let mut k: usize = 0;
    while k < n
        invariant
            n == c.len(),
            c == candidates@,
            all == all_skipped(c, skip_card_id),
            k <= n,
            daily_new_limit > 0,
            !some_due(c, skip_card_id, now),
            forall|j: int| 0 <= j < k && in_pool(c, skip_card_id, j) ==> c[j].state.reps != 0,
        decreases n - k,
    {
        let pooled = all || match skip_card_id {
            Some(id) => candidates[k].card.id != id,
            None => true,
        };
        if pooled && candidates[k].state.reps == 0 {
            return Some((k, SelectionReason::New));
        }
        k = k + 1;
    }
    None
}


/// `r` is the card chosen at `now` among `c`: the due card a stable sort by
/// weaker recall, earlier due text and smaller id puts first; without one,
/// the first never-reviewed card of the pool while the new-card allowance
/// lasts; otherwise nothing.
pub open spec fn picked(
    c: Seq<CardWithState>,
    keys: Seq<u64>,
    daily_new_limit: int,
    skip: Option<i64>,
    now: Timestamp,
    r: Option<SelectedCard>,
) -> bool {
    match r {
        Some(s) => exists|b: int| #![trigger c[b]] {
            &&& 0 <= b < c.len()
            &&& s.card@ == c[b].card@
            &&& s.reason == SelectionReason::Due ==> is_due_pick(c, keys, skip, now, b)
            &&& s.reason == SelectionReason::New ==> !some_due(c, skip, now)
                && daily_new_limit > 0 && is_new_pick(c, skip, b)
            &&& s.reason != SelectionReason::Mature
        },
        None => !some_due(c, skip, now) && (daily_new_limit == 0 || !some_new(c, skip)),
    }
}

/// The selection made from candidate `b` for `reason`.
fn make_selected(candidate: &CardWithState, reason: SelectionReason) -> (s: SelectedCard)
    ensures
        s.card@ == candidate.card@,
        s.reason == reason,
{
    SelectedCard { card: candidate.card.copy(), reason }
}

/// The card to show at `now`: see [`pick_index`]. `recall_keys[i]` orders the
/// recall probability of `candidates[i]` (smaller key, weaker memory).
pub fn pick_card_at(
    candidates: &Vec<CardWithState>,
    recall_keys: &Vec<u64>,
    daily_new_limit: usize,
    skip_card_id: Option<i64>,
    now: Timestamp,
) -> (r: Option<SelectedCard>)
    requires
        recall_keys.len() == candidates.len(),
    ensures
        picked(candidates@, recall_keys@, daily_new_limit as int, skip_card_id, now, r),
{
    match pick_index(candidates, recall_keys, daily_new_limit, skip_card_id, now) {
        Some((b, reason)) => {
            let s = make_selected(&candidates[b], reason);
            let ghost bi = b as int;
            assert(0 <= bi < candidates@.len());
            assert(s.card@ == candidates@[bi].card@);
            assert(s.reason == SelectionReason::Due ==> is_due_pick(candidates@, recall_keys@, skip_card_id, now, bi));
            Some(s)
        },
        None => None,
    }
}

/// The card to show now; the clock is read once. Whatever the clock says, a
/// due pick is a reviewed card of the pool, a new pick is a never-reviewed
/// card of the pool within a non-zero allowance.
pub fn pick_card(
    candidates: &Vec<CardWithState>,
    recall_keys: &Vec<u64>,
    daily_new_limit: usize,
    skip_card_id: Option<i64>,
) -> (r: Option<SelectedCard>)
    requires
        recall_keys.len() == candidates.len(),
    ensures
        exists|now: Timestamp| #[trigger] picked(candidates@, recall_keys@, daily_new_limit as int, skip_card_id, now, r),
{
    let now = utc_now();
    pick_card_at(candidates, recall_keys, daily_new_limit, skip_card_id, now)
}

/// What `current` does in a deck: keep the card being studied, or choose one.
pub enum CurrentChoice {
    /// The current card belongs to the deck; it stays.
    Keep(SelectedCard),
    /// No current card in the deck; select the next one.
    SelectNext,
}

/// The current card of a deck, when the current-card pointer names a card of
/// that deck (`current_in_deck`), is kept as a `Mature` selection; otherwise
/// the next card is to be selected.
pub fn select_current(current_in_deck: Option<Card>) -> (r: CurrentChoice)
    ensures
        match (current_in_deck, r) {
            (Some(c), CurrentChoice::Keep(s)) => s.card == c && s.reason == SelectionReason::Mature,
            (None, CurrentChoice::SelectNext) => true,
            _ => false,
        },
{
    match current_in_deck {
        Some(card) => CurrentChoice::Keep(SelectedCard { card, reason: SelectionReason::Mature }),
        None => CurrentChoice::SelectNext,
    }
}

/// Selects the next card of a deck from its candidates and today's progress,
/// avoiding the current card (`current_card_id`, the current card when it
/// belongs to the deck) where another card qualifies. Returns the selection
/// and the new value of the current-card pointer, which is the selected card.
/// The new-card allowance is `progress.new_remaining` read as a `usize`.
pub fn select_next(
    progress: ProgressCounts,
    current_card_id: Option<i64>,
    candidates: &Vec<CardWithState>,
    recall_keys: &Vec<u64>,
) -> (r: (Option<SelectedCard>, Option<i64>))
    requires
        recall_keys.len() == candidates.len(),
    ensures
        r.1 == match r.0 { Some(s) => Some(s.card.id), None => None },
        exists|now: Timestamp| #[trigger] picked(
            candidates@,
            recall_keys@,
            (#[verifier::truncate] (progress.new_remaining as usize)) as int,
            current_card_id,
            now,
            r.0,
        ),
{
    let daily_new_limit = #[verifier::truncate] (progress.new_remaining as usize);
    let selected = pick_card(candidates, recall_keys, daily_new_limit, current_card_id);
    let pointer = match &selected {
        Some(s) => Some(s.card.id),
        None => None,
    };
    (selected, pointer)
}

/// Selection stays in the deck: when every candidate is a card of deck
/// `deck_id`, so is the card chosen.
pub proof fn lemma_pick_stays_in_deck(
    c: Seq<CardWithState>,
    keys: Seq<u64>,
    daily_new_limit: int,
    skip: Option<i64>,
    now: Timestamp,
    r: Option<SelectedCard>,
    deck_id: i64,
)
    requires
        picked(c, keys, daily_new_limit, skip, now, r),
        forall|i: int| 0 <= i < c.len() ==> (#[trigger] c[i]).card.deck_id == deck_id,
    ensures
        r matches Some(s) ==> s.card.deck_id == deck_id,
{
    if let Some(s) = r {
        let b = choose|b: int| #![trigger c[b]] {
            &&& 0 <= b < c.len()
            &&& s.card@ == c[b].card@
            &&& s.reason == SelectionReason::Due ==> is_due_pick(c, keys, skip, now, b)
            &&& s.reason == SelectionReason::New ==> !some_due(c, skip, now)
                && daily_new_limit > 0 && is_new_pick(c, skip, b)
            &&& s.reason != SelectionReason::Mature
        };
        assert(s.card@.deck_id == c[b].card@.deck_id);
    }
}

/// Due cards come first: while a card of the pool is due at `now`, the
/// choice is a due card, never a new one.
pub proof fn lemma_due_before_new(
    c: Seq<CardWithState>,
    keys: Seq<u64>,
    daily_new_limit: int,
    skip: Option<i64>,
    now: Timestamp,
    r: Option<SelectedCard>,
)
    requires
        picked(c, keys, daily_new_limit, skip, now, r),
        some_due(c, skip, now),
    ensures
        r matches Some(s) && s.reason == SelectionReason::Due,
{
}

/// The current card is not shown again while another card can be: when not
/// every candidate is the card to skip, the choice is another card.
pub proof fn lemma_next_skips_current(
    c: Seq<CardWithState>,
    keys: Seq<u64>,
    daily_new_limit: int,
    skip: Option<i64>,
    now: Timestamp,
    r: Option<SelectedCard>,
)
    requires
        picked(c, keys, daily_new_limit, skip, now, r),
        !all_skipped(c, skip),
    ensures
        r matches Some(s) ==> Some(s.card.id) != skip,
{
    if let Some(s) = r {
        let b = choose|b: int| #![trigger c[b]] {
            &&& 0 <= b < c.len()
            &&& s.card@ == c[b].card@
            &&& s.reason == SelectionReason::Due ==> is_due_pick(c, keys, skip, now, b)
            &&& s.reason == SelectionReason::New ==> !some_due(c, skip, now)
                && daily_new_limit > 0 && is_new_pick(c, skip, b)
            &&& s.reason != SelectionReason::Mature
        };
        assert(s.card@.id == c[b].card@.id);
        assert(in_pool(c, skip, b));
    }
}

} // verus!
