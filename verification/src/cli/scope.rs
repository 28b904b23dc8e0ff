//! The deck scope of the learning commands: an explicit deck id, or else the
//! active deck.

use vstd::prelude::*;
use crate::cli::step::{breaks, error_chain, fail_on, refuse, refuses, Request, Step};
use crate::error::Error;
use crate::text::{cat, i64_text, int_text};

verus! {

/// The request that resolves the scope: the named deck, or the active one.
pub open spec fn scope_request(deck: Option<i64>) -> Request {
    match deck {
        Some(id) => Request::DeckById(id),
        None => Request::ActiveDeck,
    }
}

/// Asks for the scope deck.
pub fn resolve_deck(deck: Option<i64>) -> (r: Step)
    ensures
        r == Step::Ask(scope_request(deck)),
{
    match deck {
        Some(id) => Step::Ask(Request::DeckById(id)),
        None => Step::Ask(Request::ActiveDeck),
    }
}

/// The failure when reading the scope deck failed with `e`: a named deck is a
/// plain failure, the active deck a `storage_error`.
pub open spec fn scope_read_fails(deck: Option<i64>, e: Error, r: Step) -> bool {
    match deck {
        Some(id) => breaks(r, "failed to read deck "@ + int_text(id as int), error_chain(e)),
        None => refuses(r, "storage_error"@, "failed to read active deck"@),
    }
}

pub fn scope_read_failure(deck: Option<i64>, e: &Error) -> (r: Step)
    ensures
        scope_read_fails(deck, *e, r),
{
    match deck {
        Some(id) => {
            let context = cat("failed to read deck ", i64_text(id).as_str());
            fail_on(context.as_str(), e)
        },
        None => refuse("storage_error", "failed to read active deck"),
    }
}

/// The text shown when no deck is active.
pub open spec fn no_active_text() -> Seq<char> {
    "No active deck. Run `fishword deck use <deck>` first."@
}

pub fn no_active_deck() -> (s: &'static str)
    ensures
        s@ == no_active_text(),
{
    "No active deck. Run `fishword deck use <deck>` first."
}

} // verus!
