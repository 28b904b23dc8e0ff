//! `fishword rate`: rate the current card of the scope deck, the only
//! command that records a review.

use vstd::prelude::*;
use crate::card::{parse_rating, rating_text, Card, Rating};
use crate::cli::args::RateArgs;
use crate::cli::scope::{no_active_deck, no_active_text, resolve_deck, scope_read_failure, scope_read_fails, scope_request};
use crate::cli::step::{
    answer, ask, breaks, deck_not_found, deck_not_found_text, error_chain, fail, fail_on, fail_unexpected, open_failure,
    open_fails, print_lines, prints, refuse, refuses, unexpected, Outcome, Reply, Request, Response, Step,
};
use crate::deck::Deck;
use crate::protocol::{rate_response_spec, RateResponse};
use crate::scheduler::ScheduledReview;
use crate::selector::SelectedCard;
use crate::text::{cat, i64_text, int_text, views};

verus! {

/// The text when there is no current card.
pub open spec fn no_current_text() -> Seq<char> {
    "No current card. Run `fishword current` first."@
}

/// The text when the current card belongs to another deck.
pub open spec fn other_deck_text() -> Seq<char> {
    "No current card in this deck. Run `fishword current` first."@
}

/// The human lines after rating `card`.
pub open spec fn rated_text(card: Card, review: ScheduledReview, next: Option<SelectedCard>) -> Seq<Seq<char>> {
    seq![
        "Rated "@ + card.word@ + " as "@ + rating_text(review.rating) + ". due="@ + review.due@ + " scheduled_days="@
            + int_text(review.scheduled_days as int),
    ] + match next {
        Some(s) => seq!["Next: "@ + s.card.word@],
        None => Seq::empty(),
    }
}

/// The end of `rate` from reply `k` on: in JSON, today's progress, then the
/// rate response; otherwise the human lines.
pub open spec fn finish_spec(
    json: bool,
    card: Card,
    scope: Deck,
    review: ScheduledReview,
    next: Option<SelectedCard>,
    next_deck: Option<Deck>,
    rs: Seq<Reply>,
    k: int,
    r: Step,
) -> bool {
    if json {
        if rs.len() <= k {
            r == Step::Ask(Request::Progress(scope.id))
        } else {
            match rs[k] {
                Reply::Progress(p) => r matches Step::Finish(Outcome::Json(Response::Rate(resp)))
                    && rate_response_spec(card, scope, review, p, match (next, next_deck) {
                        (Some(s), Some(d)) => Some((s, d)),
                        _ => None,
                    }, resp),
                Reply::Failed(e) => breaks(r, "failed to read progress"@, error_chain(e)),
                _ => unexpected(r),
            }
        }
    } else {
        prints(r, rated_text(card, review, next))
    }
}

/// `rate` after the review was recorded and the next card selected.
pub open spec fn after_select_spec(
    json: bool,
    card: Card,
    scope: Deck,
    review: ScheduledReview,
    next: Option<SelectedCard>,
    rs: Seq<Reply>,
    r: Step,
) -> bool {
    match next {
        Some(s) => if rs.len() == 6 {
            r == Step::Ask(Request::DeckById(s.card.deck_id))
        } else {
            match rs[6] {
                Reply::Deck(d) => finish_spec(json, card, scope, review, next, d, rs, 7, r),
                Reply::Failed(e) => breaks(r, "failed to read next card deck"@, error_chain(e)),
                _ => unexpected(r),
            }
        },
        None => finish_spec(json, card, scope, review, None, None, rs, 6, r),
    }
}

/// `rate` once the scope deck is known: the current card must belong to it.
pub open spec fn scoped_spec(json: bool, rating: Rating, scope: Deck, rs: Seq<Reply>, r: Step) -> bool {
    if rs.len() == 2 {
        r == Step::Ask(Request::CurrentCardId)
    } else {
        match rs[2] {
            Reply::Id(None) => refuses(r, "no_current_card"@, no_current_text()),
            Reply::Id(Some(card_id)) => if rs.len() == 3 {
                r == Step::Ask(Request::CardById(card_id))
            } else {
                match rs[3] {
                    Reply::Card(Some(card)) => if card.deck_id != scope.id {
                        refuses(r, "no_current_card"@, other_deck_text())
                    } else if rs.len() == 4 {
                        r == Step::Ask(Request::Review { card_id, rating })
                    } else {
                        match rs[4] {
                            Reply::Reviewed(review) => if rs.len() == 5 {
                                r == Step::Ask(Request::SelectNext(scope.id))
                            } else {
                                match rs[5] {
                                    Reply::Selected(next) => after_select_spec(json, card, scope, review, next, rs, r),
                                    Reply::Failed(e) => breaks(r, "failed to select next card after rating"@, error_chain(e)),
                                    _ => unexpected(r),
                                }
                            },
                            Reply::Failed(e) => breaks(r, "failed to rate card"@, error_chain(e)),
                            _ => unexpected(r),
                        }
                    },
                    Reply::Card(None) => breaks(r, "Current card disappeared"@, Seq::empty()),
                    Reply::Failed(e) => breaks(r, "failed to read current card"@, error_chain(e)),
                    _ => unexpected(r),
                }
            },
            Reply::Failed(e) => breaks(r, "failed to read current card"@, error_chain(e)),
            _ => unexpected(r),
        }
    }
}

/// `rate`.
pub open spec fn rate_cmd_spec(args: RateArgs, rs: Seq<Reply>, r: Step) -> bool {
    match parse_rating(args.rating@) {
        Err(_) => refuses(r, "invalid_rating"@, "invalid rating '"@ + args.rating@ + "', expected again/hard/good/easy"@),
        Ok(rating) => if rs.len() == 0 {
            r == Step::Ask(Request::OpenStorage)
        } else if !(rs[0] is Opened) {
            open_fails(rs[0], r)
        } else if rs.len() == 1 {
            r == Step::Ask(scope_request(args.deck))
        } else {
            match rs[1] {
                Reply::Deck(Some(scope)) => scoped_spec(args.json, rating, scope, rs, r),
                Reply::Deck(None) => match args.deck {
                    Some(id) => refuses(r, "deck_not_found"@, deck_not_found_text(id)),
                    None => refuses(r, "no_active_deck"@, no_active_text()),
                },
                Reply::Failed(e) => scope_read_fails(args.deck, e, r),
                _ => unexpected(r),
            }
        },
    }
}

fn rated_lines(card: &Card, review: &ScheduledReview, next: &Option<SelectedCard>) -> (v: Vec<String>)
    ensures
        views(v@) == rated_text(*card, *review, *next),
{
    let mut line = cat("Rated ", card.word.as_str());
    line.append(" as ");
    line.append(review.rating.to_text().as_str());
    line.append(". due=");
    line.append(review.due.as_str());
    line.append(" scheduled_days=");
    line.append(i64_text(review.scheduled_days).as_str());
    let mut v: Vec<String> = Vec::new();
    v.push(line);
    match next {
        Some(s) => v.push(cat("Next: ", s.card.word.as_str())),
        None => {},
    }
    proof {
        assert(views(v@) =~= rated_text(*card, *review, *next));
    }
    v
}

fn finish(
    json: bool,
    card: &Card,
    scope: &Deck,
    review: &ScheduledReview,
    next: &Option<SelectedCard>,
    next_deck: &Option<Deck>,
    replies: &Vec<Reply>,
    k: usize,
) -> (r: Step)
    requires
        k <= replies@.len(),
    ensures
        finish_spec(json, *card, *scope, *review, *next, *next_deck, replies@, k as int, r),
{
    if json {
        if replies.len() == k {
            return ask(Request::Progress(scope.id));
        }
        match &replies[k] {
            Reply::Progress(p) => {
                let pair = match (next, next_deck) {
                    (Some(s), Some(d)) => Some((s, d)),
                    _ => None,
                };
                answer(Response::Rate(RateResponse::new(card, scope, review, *p, pair)))
            },
            Reply::Failed(e) => fail_on("failed to read progress", e),
            _ => fail_unexpected(),
        }
    } else {
        print_lines(rated_lines(card, review, next))
    }
}

/// Runs `rate` one step: check the rating, resolve the scope deck, check
/// that the current card belongs to it, record the review, select the next
/// card, and answer.
pub fn cmd_rate(args: &RateArgs, replies: &Vec<Reply>) -> (r: Step)
    ensures
        rate_cmd_spec(*args, replies@, r),
{
    let rating = match Rating::parse(args.rating.as_str()) {
        Ok(rating) => rating,
        Err(_) => {
            let mut message = cat("invalid rating '", args.rating.as_str());
            message.append("', expected again/hard/good/easy");
            return refuse("invalid_rating", message.as_str());
        },
    };
    if replies.len() == 0 {
        return ask(Request::OpenStorage);
    }
    match &replies[0] {
        Reply::Opened(_) => {},
        other => return open_failure(other),
    }
    if replies.len() == 1 {
        return resolve_deck(args.deck);
    }
    let scope = match &replies[1] {
        Reply::Deck(Some(deck)) => deck,
        Reply::Deck(None) => {
            return match args.deck {
                Some(id) => refuse("deck_not_found", deck_not_found(id).as_str()),
                None => refuse("no_active_deck", no_active_deck()),
            };
        },
        Reply::Failed(e) => return scope_read_failure(args.deck, e),
        _ => return fail_unexpected(),
    };
    if replies.len() == 2 {
        return ask(Request::CurrentCardId);
    }
    let card_id = match &replies[2] {
        Reply::Id(Some(id)) => *id,
        Reply::Id(None) => return refuse("no_current_card", "No current card. Run `fishword current` first."),
        Reply::Failed(e) => return fail_on("failed to read current card", e),
        _ => return fail_unexpected(),
    };
    if replies.len() == 3 {
        return ask(Request::CardById(card_id));
    }
    let card = match &replies[3] {
        Reply::Card(Some(card)) => card,
        Reply::Card(None) => return fail("Current card disappeared"),
        Reply::Failed(e) => return fail_on("failed to read current card", e),
        _ => return fail_unexpected(),
    };
    if card.deck_id != scope.id {
        return refuse("no_current_card", "No current card in this deck. Run `fishword current` first.");
    }
    if replies.len() == 4 {
        return ask(Request::Review { card_id, rating });
    }
    let review = match &replies[4] {
        Reply::Reviewed(review) => review,
        Reply::Failed(e) => return fail_on("failed to rate card", e),
        _ => return fail_unexpected(),
    };
    if replies.len() == 5 {
        return ask(Request::SelectNext(scope.id));
    }
    let next = match &replies[5] {
        Reply::Selected(next) => next,
        Reply::Failed(e) => return fail_on("failed to select next card after rating", e),
        _ => return fail_unexpected(),
    };
    match next {
        Some(s) => {
            if replies.len() == 6 {
                return ask(Request::DeckById(s.card.deck_id));
            }
            match &replies[6] {
                Reply::Deck(d) => finish(args.json, card, scope, review, next, d, replies, 7),
                Reply::Failed(e) => fail_on("failed to read next card deck", e),
                _ => fail_unexpected(),
            }
        },
        None => finish(args.json, card, scope, review, next, &None, replies, 6),
    }
}

} // verus!
