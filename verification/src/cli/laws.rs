//! What holds of every run of the commands, whatever the replies.

use vstd::prelude::*;
use crate::card::parse_rating;
use crate::cli::args::{CardOutputArgs, RateArgs, StatsArgs, StatusArgs};
use crate::cli::rate::rate_cmd_spec;
use crate::cli::review::{current_spec, show_selected_spec, stats_cmd_spec, status_cmd_spec, week_spec};
use crate::cli::catalog::{fetch_done_spec, fetch_spec, fetched_spec, find_from};
use crate::cli::import::activation_done;
use crate::deck::Deck;
use crate::cli::deck::use_spec;
use crate::cli::step::{Outcome, Reply, Request, Step};

verus! {

/// The step asks to record a review.
pub open spec fn asks_review(r: Step) -> bool {
    r matches Step::Ask(Request::Review { .. })
}

/// The step asks for an operation that changes what is stored.
pub open spec fn asks_write(r: Step) -> bool {
    match r {
        Step::Ask(req) => match req {
            Request::InsertDeck { .. } | Request::DeleteDeck(_) | Request::RenameDeck { .. }
                | Request::SetActiveDeck(_) | Request::ClearCurrentCard | Request::SelectCurrent(_)
                | Request::SelectNext(_) | Request::Review { .. } | Request::ImportInto { .. }
                | Request::ImportIntoNewDeck { .. } => true,
            _ => false,
        },
        _ => false,
    }
}

/// `current` never records a review, whatever it has been told.
pub proof fn lemma_current_never_reviews(args: CardOutputArgs, rs: Seq<Reply>, r: Step)
    requires
        current_spec(args, rs, r),
    ensures
        !asks_review(r),
{
    if rs.len() > 2 && rs[0] is Opened && rs[1] matches Reply::Deck(Some(_)) {
        if let Reply::Selected(Some(s)) = rs[2] {
            assert(show_selected_spec(s, args.json, args.format@, rs, 3, r));
        }
    }
}

/// `status` only reads.
pub proof fn lemma_status_only_reads(args: StatusArgs, rs: Seq<Reply>, r: Step)
    requires
        status_cmd_spec(args, rs, r),
    ensures
        !asks_write(r),
{
}

/// `stats` only reads.
pub proof fn lemma_stats_only_reads(args: StatsArgs, rs: Seq<Reply>, r: Step)
    requires
        stats_cmd_spec(args, rs, r),
    ensures
        !asks_write(r),
{
    if args.range@ == "7d"@ && rs.len() > 2 && rs[0] is Opened {
        if let Reply::Deck(Some(deck)) = rs[1] {
            if let Reply::Now(now) = rs[2] {
                assert(week_spec(deck, args.json, now, rs, r));
            }
        }
    }
}

/// `current` selects within the scope deck only: the deck it asks to select
/// from is the one resolved for the command.
pub proof fn lemma_current_selects_in_scope(args: CardOutputArgs, rs: Seq<Reply>, r: Step, deck_id: i64)
    requires
        current_spec(args, rs, r),
        r == Step::Ask(Request::SelectCurrent(deck_id)),
    ensures
        rs.len() == 2,
        rs[1] matches Reply::Deck(Some(d)) && d.id == deck_id,
{
    if rs.len() > 2 && rs[0] is Opened && rs[1] matches Reply::Deck(Some(_)) {
        if let Reply::Selected(Some(s)) = rs[2] {
            assert(show_selected_spec(s, args.json, args.format@, rs, 3, r));
        }
    }
}

/// `rate` records a review only of the current card, only when that card
/// belongs to the scope deck, and only with the rating it was given.
pub proof fn lemma_rate_reviews_current_card(args: RateArgs, rs: Seq<Reply>, r: Step)
    requires
        rate_cmd_spec(args, rs, r),
        asks_review(r),
    ensures
        r matches Step::Ask(Request::Review { card_id, rating }) && {
            &&& parse_rating(args.rating@) == Ok::<crate::card::Rating, Seq<char>>(rating)
            &&& rs.len() == 4
            &&& rs[2] == Reply::Id(Some(card_id))
            &&& rs[1] matches Reply::Deck(Some(scope)) && rs[3] matches Reply::Card(Some(card))
                && card.deck_id == scope.id
        },
{
}

/// After rating, `rate` selects the next card within the scope deck.
pub proof fn lemma_rate_selects_in_scope(args: RateArgs, rs: Seq<Reply>, r: Step, deck_id: i64)
    requires
        rate_cmd_spec(args, rs, r),
        r == Step::Ask(Request::SelectNext(deck_id)),
    ensures
        rs.len() == 5,
        rs[1] matches Reply::Deck(Some(scope)) && scope.id == deck_id,
        rs[4] is Reviewed,
{
}

/// `deck use` succeeds only once the active deck is set to the deck found
/// and the current card is cleared.
pub proof fn lemma_deck_use_switches_and_clears(id: i64, json: bool, rs: Seq<Reply>, r: Step)
    requires
        use_spec(id, json, rs, r),
        r matches Step::Finish(o) && !(o is Fail),
    ensures
        rs.len() >= 4,
        rs[0] is Opened,
        rs[1] matches Reply::Deck(Some(_)),
        rs[2] is Done,
        rs[3] is Done,
{
}

/// `catalog fetch` imports into an existing deck only when that deck was
/// found by the catalog id itself: a deck that merely shares the catalog
/// entry's name is never merged into.
pub proof fn lemma_catalog_fetch_merges_only_by_catalog_id(
    id: Seq<char>,
    duplicates: Seq<char>,
    json: bool,
    rs: Seq<Reply>,
    r: Step,
)
    requires
        fetch_spec(id, duplicates, json, rs, r),
        r matches Step::Ask(Request::ImportInto { .. }),
    ensures
        rs.len() == 4,
        r matches Step::Ask(Request::ImportInto { deck_id, .. }) && (rs[3] matches Reply::Deck(Some(d)) && d.id == deck_id),
{
    if rs.len() > 0 {
        if let Reply::Catalog(entries) = rs[0] {
            if let Some(i) = find_from(entries@, id, 0) {
                if let Ok(strategy) = crate::importer::parse_duplicate_strategy(duplicates) {
                    assert(fetched_spec(id, entries@[i], strategy, json, rs, r));
                }
            }
        }
    }
}

/// `current` writes nothing but the current-card pointer: the only write it
/// asks for is selecting within the scope deck.
pub proof fn lemma_current_writes_only_the_pointer(args: CardOutputArgs, rs: Seq<Reply>, r: Step)
    requires
        current_spec(args, rs, r),
        asks_write(r),
    ensures
        rs.len() == 2,
        r matches Step::Ask(Request::SelectCurrent(d)) && (rs[1] matches Reply::Deck(Some(x)) && x.id == d),
{
    if rs.len() > 2 && rs[0] is Opened && rs[1] matches Reply::Deck(Some(_)) {
        if let Reply::Selected(Some(s)) = rs[2] {
            assert(show_selected_spec(s, args.json, args.format@, rs, 3, r));
        }
    }
}

/// When a deck fetched from catalog entry `id` before is found, `catalog
/// fetch` reuses it: no deck is created, the cards go into that deck, it is
/// made active only when no deck was, and the response reports it.
pub proof fn lemma_catalog_fetch_reuses_catalog_deck(
    id: Seq<char>,
    duplicates: Seq<char>,
    json: bool,
    rs: Seq<Reply>,
    r: Step,
    deck: Deck,
)
    requires
        fetch_spec(id, duplicates, json, rs, r),
        rs.len() > 3,
        rs[3] == Reply::Deck(Some(deck)),
    ensures
        !(r matches Step::Ask(Request::ImportIntoNewDeck { .. })),
        r matches Step::Ask(Request::ImportInto { deck_id, .. }) ==> deck_id == deck.id,
        r matches Step::Ask(Request::SetActiveDeck(x)) ==> x == deck.id && rs.len() == 6 && rs[5] == Reply::Id(None),
        r matches Step::Finish(Outcome::Json(crate::cli::step::Response::CatalogFetch(resp))) ==>
            resp.import.deck_id == deck.id && resp.import.deck@ == deck.name@ && resp.name@ == deck.name@,
{
    if let Reply::Catalog(entries) = rs[0] {
        if let Some(i) = find_from(entries@, id, 0) {
            if let Ok(strategy) = crate::importer::parse_duplicate_strategy(duplicates) {
                assert(fetched_spec(id, entries@[i], strategy, json, rs, r));
                if rs[1] is CardsRead && rs[2] is Opened && rs.len() > 4 {
                    if let Reply::Summary(s) = rs[4] {
                        assert(fetch_done_spec(id, entries@[i], deck, s, json, rs, r));
                        if !activation_done(rs, 5) {
                            assert(crate::cli::import::activation_step(deck.id, rs, 5, r));
                        }
                    }
                }
            }
        }
    }
}
} // verus!
