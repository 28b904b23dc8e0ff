//! `fishword deck`: list, create, use, delete, rename and show decks.

use vstd::prelude::*;
use crate::cli::args::DeckCmd;
use crate::cli::protocol::{
    deck_create_spec, deck_delete_spec, deck_rename_spec, DeckCreateResponse, DeckDeleteResponse, DeckRenameResponse,
};
use crate::cli::step::{
    answer, ask, breaks, deck_not_found, deck_not_found_text, error_chain, fail_as, fail_on, fail_unexpected, fails,
    open_failure, open_fails, print_line, print_lines, prints, refuse, refuses, unexpected, Outcome, Reply, Request,
    Response, Step,
};
use crate::deck::Deck;
use crate::error::Error;
use crate::protocol::{deck_list_spec, deck_use_spec, opt_view, DeckListResponse, DeckUseResponse};
use crate::text::{cat, copy_opt, i64_text, int_text, pad_right, pad_right_seq, push_repeat, repeat_seq, views};

verus! {

/// The header of the deck table.
pub open spec fn deck_header() -> Seq<char> {
    pad_right_seq("ACTIVE"@, 6) + "  "@ + pad_right_seq("ID"@, 6) + "  "@ + pad_right_seq("NAME"@, 20) + "  "@
        + pad_right_seq("CATALOG"@, 14) + "  DESCRIPTION"@
}

/// The table row of a deck: `*` marks the active one.
pub open spec fn deck_row(d: Deck, active: Option<i64>) -> Seq<char> {
    let mark = if active == Some(d.id) { "*"@ } else { ""@ };
    let catalog = match d.catalog_id { Some(c) => c@, None => "-"@ };
    let description = match d.description { Some(s) => s@, None => Seq::empty() };
    pad_right_seq(mark, 6) + "  "@ + pad_right_seq(int_text(d.id as int), 6) + "  "@ + pad_right_seq(d.name@, 20)
        + "  "@ + pad_right_seq(catalog, 14) + "  "@ + description
}

/// The lines of `deck list` for a non-empty list.
pub open spec fn deck_table(decks: Seq<Deck>, active: Option<i64>) -> Seq<Seq<char>> {
    seq![deck_header(), repeat_seq('-', 72)] + Seq::new(decks.len(), |i: int| deck_row(decks[i], active))
}

/// `deck list`.
pub open spec fn list_spec(json: bool, rs: Seq<Reply>, r: Step) -> bool {
    if rs.len() == 0 {
        r == Step::Ask(Request::OpenStorage)
    } else if !(rs[0] is Opened) {
        open_fails(rs[0], r)
    } else if rs.len() == 1 {
        r == Step::Ask(Request::ListDecks)
    } else {
        match rs[1] {
            Reply::Decks(decks) => if rs.len() == 2 {
                r == Step::Ask(Request::ActiveDeckId)
            } else {
                match rs[2] {
                    Reply::Id(active) => if json {
                        r matches Step::Finish(Outcome::Json(Response::Decks(resp))) && deck_list_spec(decks@, active, resp)
                    } else if decks@.len() == 0 {
                        prints(r, seq!["No decks found."@])
                    } else {
                        prints(r, deck_table(decks@, active))
                    },
                    Reply::Failed(e) => breaks(r, "failed to read active deck"@, error_chain(e)),
                    _ => unexpected(r),
                }
            },
            Reply::Failed(e) => breaks(r, "failed to list decks"@, error_chain(e)),
            _ => unexpected(r),
        }
    }
}

/// `deck create`.
pub open spec fn create_spec(name: Seq<char>, description: Option<Seq<char>>, json: bool, rs: Seq<Reply>, r: Step) -> bool {
    if rs.len() == 0 {
        r == Step::Ask(Request::OpenStorage)
    } else if !(rs[0] is Opened) {
        open_fails(rs[0], r)
    } else if rs.len() == 1 {
        r matches Step::Ask(Request::InsertDeck { name: n, description: d }) && n@ == name && opt_view(d) == description
    } else {
        match rs[1] {
            Reply::Deck(Some(deck)) => if json {
                r matches Step::Finish(Outcome::Json(Response::DeckCreated(resp))) && deck_create_spec(deck, resp)
            } else {
                prints(r, seq!["Created deck: "@ + deck.name@ + " (id="@ + int_text(deck.id as int) + ")"@])
            },
            Reply::Failed(Error::AlreadyExists(_)) => refuses(r, "deck_already_exists"@, "Deck already exists: "@ + name),
            Reply::Failed(e) => fails(r, error_chain(e), None),
            _ => unexpected(r),
        }
    }
}

/// `deck use`.
pub open spec fn use_spec(id: i64, json: bool, rs: Seq<Reply>, r: Step) -> bool {
    if rs.len() == 0 {
        r == Step::Ask(Request::OpenStorage)
    } else if !(rs[0] is Opened) {
        open_fails(rs[0], r)
    } else if rs.len() == 1 {
        r == Step::Ask(Request::DeckById(id))
    } else {
        match rs[1] {
            Reply::Deck(Some(deck)) => if rs.len() == 2 {
                r == Step::Ask(Request::SetActiveDeck(deck.id))
            } else {
                match rs[2] {
                    Reply::Done => if rs.len() == 3 {
                        r == Step::Ask(Request::ClearCurrentCard)
                    } else {
                        match rs[3] {
                            Reply::Done => if json {
                                r matches Step::Finish(Outcome::Json(Response::DeckUse(resp))) && deck_use_spec(deck, resp)
                            } else {
                                prints(r, seq!["Active deck: "@ + deck.name@ + " ("@ + int_text(deck.id as int) + ")"@])
                            },
                            Reply::Failed(e) => breaks(r, "failed to clear current card on deck switch"@, error_chain(e)),
                            _ => unexpected(r),
                        }
                    },
                    Reply::Failed(e) => breaks(r, "failed to set active deck "@ + int_text(id as int), error_chain(e)),
                    _ => unexpected(r),
                }
            },
            Reply::Deck(None) => refuses(r, "deck_not_found"@, deck_not_found_text(id)),
            Reply::Failed(e) => breaks(r, "failed to read deck "@ + int_text(id as int), error_chain(e)),
            _ => unexpected(r),
        }
    }
}

/// `deck delete`.
pub open spec fn delete_spec(id: i64, json: bool, rs: Seq<Reply>, r: Step) -> bool {
    if rs.len() == 0 {
        r == Step::Ask(Request::OpenStorage)
    } else if !(rs[0] is Opened) {
        open_fails(rs[0], r)
    } else if rs.len() == 1 {
        r == Step::Ask(Request::DeleteDeck(id))
    } else {
        match rs[1] {
            Reply::Deck(Some(deck)) => if json {
                r matches Step::Finish(Outcome::Json(Response::DeckDeleted(resp))) && deck_delete_spec(deck, resp)
            } else {
                prints(r, seq!["Deleted deck: "@ + deck.name@ + " (id="@ + int_text(deck.id as int) + ")"@])
            },
            Reply::Failed(Error::NotFound(_)) => refuses(r, "deck_not_found"@, deck_not_found_text(id)),
            Reply::Failed(e) => fails(r, error_chain(e), None),
            _ => unexpected(r),
        }
    }
}

/// `deck rename`.
pub open spec fn rename_spec(id: i64, new_name: Seq<char>, json: bool, rs: Seq<Reply>, r: Step) -> bool {
    if rs.len() == 0 {
        r == Step::Ask(Request::OpenStorage)
    } else if !(rs[0] is Opened) {
        open_fails(rs[0], r)
    } else if rs.len() == 1 {
        r matches Step::Ask(Request::RenameDeck { id: i, name: n }) && i == id && n@ == new_name
    } else {
        match rs[1] {
            Reply::Deck(Some(deck)) => if json {
                r matches Step::Finish(Outcome::Json(Response::DeckRenamed(resp))) && deck_rename_spec(deck, resp)
            } else {
                prints(r, seq!["Renamed deck "@ + int_text(id as int) + " to: "@ + deck.name@])
            },
            Reply::Failed(Error::NotFound(_)) => refuses(r, "deck_not_found"@, deck_not_found_text(id)),
            Reply::Failed(Error::AlreadyExists(_)) => refuses(r, "deck_already_exists"@, "Deck already exists: "@ + new_name),
            Reply::Failed(e) => fails(r, error_chain(e), None),
            _ => unexpected(r),
        }
    }
}

/// `deck current`.
pub open spec fn current_spec(rs: Seq<Reply>, r: Step) -> bool {
    if rs.len() == 0 {
        r == Step::Ask(Request::OpenStorage)
    } else if !(rs[0] is Opened) {
        open_fails(rs[0], r)
    } else if rs.len() == 1 {
        r == Step::Ask(Request::ActiveDeck)
    } else {
        match rs[1] {
            Reply::Deck(Some(deck)) => prints(r, seq![
                "Active deck: "@ + deck.name@ + " ("@ + int_text(deck.id as int) + ") "@
                    + match deck.description { Some(d) => d@, None => Seq::empty() },
            ]),
            Reply::Deck(None) => prints(r, seq!["No decks found."@]),
            Reply::Failed(e) => breaks(r, "failed to read active deck"@, error_chain(e)),
            _ => unexpected(r),
        }
    }
}

/// What a `deck` subcommand does next.
pub open spec fn deck_spec(sub: DeckCmd, rs: Seq<Reply>, r: Step) -> bool {
    match sub {
        DeckCmd::List { json } => list_spec(json, rs, r),
        DeckCmd::Create { name, description, json } => create_spec(name@, opt_view(description), json, rs, r),
        DeckCmd::Use { deck, json } => use_spec(deck, json, rs, r),
        DeckCmd::Delete { id, json } => delete_spec(id, json, rs, r),
        DeckCmd::Rename { id, new_name, json } => rename_spec(id, new_name@, json, rs, r),
        DeckCmd::Current => current_spec(rs, r),
    }
}

/// Runs a `deck` subcommand one step.
pub fn cmd_deck(sub: &DeckCmd, replies: &Vec<Reply>) -> (r: Step)
    ensures
        deck_spec(*sub, replies@, r),
{
    match sub {
        DeckCmd::List { json } => list(*json, replies),
        DeckCmd::Create { name, description, json } => create(name.as_str(), description, *json, replies),
        DeckCmd::Use { deck, json } => use_deck(*deck, *json, replies),
        DeckCmd::Delete { id, json } => delete(*id, *json, replies),
        DeckCmd::Rename { id, new_name, json } => rename(*id, new_name.as_str(), *json, replies),
        DeckCmd::Current => current(replies),
    }
}

fn header() -> (s: String)
    ensures
        s@ == deck_header(),
{
    let mut s = pad_right("ACTIVE", 6);
    s.append("  ");
    s.append(pad_right("ID", 6).as_str());
    s.append("  ");
    s.append(pad_right("NAME", 20).as_str());
    s.append("  ");
    s.append(pad_right("CATALOG", 14).as_str());
    s.append("  DESCRIPTION");
    s
}

fn row(d: &Deck, active: Option<i64>) -> (s: String)
    ensures
        s@ == deck_row(*d, active),
{
    let is_active = match active {
        Some(a) => a == d.id,
        None => false,
    };
    let mut s = pad_right(if is_active { "*" } else { "" }, 6);
    s.append("  ");
    s.append(pad_right(i64_text(d.id).as_str(), 6).as_str());
    s.append("  ");
    s.append(pad_right(d.name.as_str(), 20).as_str());
    s.append("  ");
    let catalog = match &d.catalog_id {
        Some(c) => c.as_str(),
        None => "-",
    };
    s.append(pad_right(catalog, 14).as_str());
    s.append("  ");
    match &d.description {
        Some(text) => s.append(text.as_str()),
        None => {},
    }
    s
}

fn table(decks: &Vec<Deck>, active: Option<i64>) -> (v: Vec<String>)
    ensures
        views(v@) == deck_table(decks@, active),
{
    let mut v: Vec<String> = Vec::new();
    v.push(header());
    let mut dashes = String::new();
    push_repeat(&mut dashes, '-', 72);
    proof {
        assert(dashes@ =~= repeat_seq('-', 72));
    }
    v.push(dashes);
    let mut i: usize = 0;
    while i < decks.len()
        invariant
            i <= decks.len(),
            v@.len() == i + 2,
            v@[0]@ == deck_header(),
            v@[1]@ == repeat_seq('-', 72),
            forall|k: int| 0 <= k < i ==> (#[trigger] v@[k + 2])@ == deck_row(decks@[k], active),
        decreases decks.len() - i,
    {
        v.push(row(&decks[i], active));
        i = i + 1;
    }
    proof {
        assert(views(v@) =~= deck_table(decks@, active)) by {
            assert forall|k: int| 0 <= k < v@.len() implies views(v@)[k] == deck_table(decks@, active)[k] by {
                if k >= 2 {
                    assert(v@[(k - 2) + 2]@ == deck_row(decks@[k - 2], active));
                }
            }
        }
    }
    v
}

fn list(json: bool, replies: &Vec<Reply>) -> (r: Step)
    ensures
        list_spec(json, replies@, r),
{
    if replies.len() == 0 {
        return ask(Request::OpenStorage);
    }
    match &replies[0] {
        Reply::Opened(_) => {},
        other => return open_failure(other),
    }
    if replies.len() == 1 {
        return ask(Request::ListDecks);
    }
    match &replies[1] {
        Reply::Decks(decks) => {
            if replies.len() == 2 {
                return ask(Request::ActiveDeckId);
            }
            match &replies[2] {
                Reply::Id(active) => {
                    if json {
                        let mut copies: Vec<Deck> = Vec::new();
                        let mut i: usize = 0;
                        while i < decks.len()
                            invariant
                                i <= decks.len(),
                                copies@ == decks@.subrange(0, i as int),
                            decreases decks.len() - i,
                        {
                            copies.push(decks[i].copy());
                            i = i + 1;
                        }
                        proof {
                            assert(copies@ =~= decks@);
                        }
                        answer(Response::Decks(DeckListResponse::new(copies, *active)))
                    } else if decks.len() == 0 {
                        print_line(String::from_str("No decks found."))
                    } else {
                        print_lines(table(decks, *active))
                    }
                },
                Reply::Failed(e) => fail_on("failed to read active deck", e),
                _ => fail_unexpected(),
            }
        },
        Reply::Failed(e) => fail_on("failed to list decks", e),
        _ => fail_unexpected(),
    }
}

fn create(name: &str, description: &Option<String>, json: bool, replies: &Vec<Reply>) -> (r: Step)
    ensures
        create_spec(name@, opt_view(*description), json, replies@, r),
{
    if replies.len() == 0 {
        return ask(Request::OpenStorage);
    }
    match &replies[0] {
        Reply::Opened(_) => {},
        other => return open_failure(other),
    }
    if replies.len() == 1 {
        return ask(Request::InsertDeck { name: String::from_str(name), description: copy_opt(description) });
    }
    match &replies[1] {
        Reply::Deck(Some(deck)) => {
            if json {
                answer(Response::DeckCreated(DeckCreateResponse::new(deck)))
            } else {
                let mut line = cat("Created deck: ", deck.name.as_str());
                line.append(" (id=");
                line.append(i64_text(deck.id).as_str());
                line.append(")");
                print_line(line)
            }
        },
        Reply::Failed(Error::AlreadyExists(_)) => {
            let message = cat("Deck already exists: ", name);
            refuse("deck_already_exists", message.as_str())
        },
        Reply::Failed(e) => fail_as(e),
        _ => fail_unexpected(),
    }
}

fn use_deck(deck_id: i64, json: bool, replies: &Vec<Reply>) -> (r: Step)
    ensures
        use_spec(deck_id, json, replies@, r),
{
    if replies.len() == 0 {
        return ask(Request::OpenStorage);
    }
    match &replies[0] {
        Reply::Opened(_) => {},
        other => return open_failure(other),
    }
    if replies.len() == 1 {
        return ask(Request::DeckById(deck_id));
    }
    match &replies[1] {
        Reply::Deck(Some(deck)) => {
            if replies.len() == 2 {
                return ask(Request::SetActiveDeck(deck.id));
            }
            match &replies[2] {
                Reply::Done => {},
                Reply::Failed(e) => {
                    let context = cat("failed to set active deck ", i64_text(deck_id).as_str());
                    return fail_on(context.as_str(), e);
                },
                _ => return fail_unexpected(),
            }
            if replies.len() == 3 {
                return ask(Request::ClearCurrentCard);
            }
            match &replies[3] {
                Reply::Done => {
                    if json {
                        answer(Response::DeckUse(DeckUseResponse::new(deck)))
                    } else {
                        let mut line = cat("Active deck: ", deck.name.as_str());
                        line.append(" (");
                        line.append(i64_text(deck.id).as_str());
                        line.append(")");
                        print_line(line)
                    }
                },
                Reply::Failed(e) => fail_on("failed to clear current card on deck switch", e),
                _ => fail_unexpected(),
            }
        },
        Reply::Deck(None) => refuse("deck_not_found", deck_not_found(deck_id).as_str()),
        Reply::Failed(e) => {
            let context = cat("failed to read deck ", i64_text(deck_id).as_str());
            fail_on(context.as_str(), e)
        },
        _ => fail_unexpected(),
    }
}

fn delete(id: i64, json: bool, replies: &Vec<Reply>) -> (r: Step)
    ensures
        delete_spec(id, json, replies@, r),
{
    if replies.len() == 0 {
        return ask(Request::OpenStorage);
    }
    match &replies[0] {
        Reply::Opened(_) => {},
        other => return open_failure(other),
    }
    if replies.len() == 1 {
        return ask(Request::DeleteDeck(id));
    }
    match &replies[1] {
        Reply::Deck(Some(deck)) => {
            if json {
                answer(Response::DeckDeleted(DeckDeleteResponse::new(deck)))
            } else {
                let mut line = cat("Deleted deck: ", deck.name.as_str());
                line.append(" (id=");
                line.append(i64_text(deck.id).as_str());
                line.append(")");
                print_line(line)
            }
        },
        Reply::Failed(Error::NotFound(_)) => refuse("deck_not_found", deck_not_found(id).as_str()),
        Reply::Failed(e) => fail_as(e),
        _ => fail_unexpected(),
    }
}

fn rename(id: i64, new_name: &str, json: bool, replies: &Vec<Reply>) -> (r: Step)
    ensures
        rename_spec(id, new_name@, json, replies@, r),
{
    if replies.len() == 0 {
        return ask(Request::OpenStorage);
    }
    match &replies[0] {
        Reply::Opened(_) => {},
        other => return open_failure(other),
    }
    if replies.len() == 1 {
        return ask(Request::RenameDeck { id, name: String::from_str(new_name) });
    }
    match &replies[1] {
        Reply::Deck(Some(deck)) => {
            if json {
                answer(Response::DeckRenamed(DeckRenameResponse::new(deck)))
            } else {
                let mut line = cat("Renamed deck ", i64_text(id).as_str());
                line.append(" to: ");
                line.append(deck.name.as_str());
                print_line(line)
            }
        },
        Reply::Failed(Error::NotFound(_)) => refuse("deck_not_found", deck_not_found(id).as_str()),
        Reply::Failed(Error::AlreadyExists(_)) => {
            let message = cat("Deck already exists: ", new_name);
            refuse("deck_already_exists", message.as_str())
        },
        Reply::Failed(e) => fail_as(e),
        _ => fail_unexpected(),
    }
}

fn current(replies: &Vec<Reply>) -> (r: Step)
    ensures
        current_spec(replies@, r),
{
    if replies.len() == 0 {
        return ask(Request::OpenStorage);
    }
    match &replies[0] {
        Reply::Opened(_) => {},
        other => return open_failure(other),
    }
    if replies.len() == 1 {
        return ask(Request::ActiveDeck);
    }
    match &replies[1] {
        Reply::Deck(Some(deck)) => {
            let mut line = cat("Active deck: ", deck.name.as_str());
            line.append(" (");
            line.append(i64_text(deck.id).as_str());
            line.append(") ");
            match &deck.description {
                Some(d) => line.append(d.as_str()),
                None => {},
            }
            print_line(line)
        },
        Reply::Deck(None) => print_line(String::from_str("No decks found.")),
        Reply::Failed(e) => fail_on("failed to read active deck", e),
        _ => fail_unexpected(),
    }
}

} // verus!
