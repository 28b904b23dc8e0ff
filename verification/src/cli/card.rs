//! `fishword card list`: one page of a deck's cards.

use vstd::prelude::*;
use crate::card::{Card, Meaning};
use crate::cli::args::CardListArgs;
use crate::cli::protocol::{card_list_spec, CardListResponse};
use crate::cli::step::{
    answer, ask, breaks, deck_not_found, deck_not_found_text, error_chain, fail_on, fail_unexpected, open_failure,
    open_fails, print_line, print_lines, prints, refuse, refuses, unexpected, Outcome, Reply, Request, Response, Step,
};
use crate::deck::Deck;
use crate::text::{cat, i64_text, int_text, join, join_seq, pad_right, pad_right_seq, push_repeat, repeat_seq, views};

verus! {

/// Pages of `page_size` cards needed for `total` cards.
pub open spec fn page_count(total: int, page_size: int) -> int {
    total / page_size + if total % page_size == 0 { 0int } else { 1int }
}

/// How a meaning is summarised: `[part of speech] definition`, or the
/// definition alone without a part of speech.
pub open spec fn meaning_label(m: Meaning) -> Seq<char> {
    if m.part_of_speech@.len() == 0 {
        m.definition@
    } else {
        "["@ + m.part_of_speech@ + "] "@ + m.definition@
    }
}

/// The meanings of a card in one line.
pub open spec fn meanings_summary(c: Card) -> Seq<char> {
    join_seq(c.meanings@.map_values(|m: Meaning| meaning_label(m)), "; "@)
}

/// The table row of a card.
pub open spec fn card_row(c: Card) -> Seq<char> {
    pad_right_seq(int_text(c.id as int), 6) + "  "@ + pad_right_seq(c.word@, 20) + "  "@ + meanings_summary(c)
}

/// The lines of a non-empty page.
pub open spec fn card_table(deck: Deck, cards: Seq<Card>, page: i64, pages: int, total: i64) -> Seq<Seq<char>> {
    seq![
        "Deck: "@ + deck.name@ + " ("@ + int_text(deck.id as int) + ")  Page "@ + int_text(page as int) + "/"@
            + int_text(pages) + "  Total "@ + int_text(total as int),
        pad_right_seq("ID"@, 6) + "  "@ + pad_right_seq("WORD"@, 20) + "  MEANINGS"@,
        repeat_seq('-', 60),
    ] + Seq::new(cards.len(), |i: int| card_row(cards[i]))
}

/// `card list`.
pub open spec fn card_list_cmd_spec(args: CardListArgs, rs: Seq<Reply>, r: Step) -> bool {
    if args.page < 1 {
        refuses(r, "invalid_page"@, "Page must be greater than or equal to 1."@)
    } else if args.page_size < 1 {
        refuses(r, "invalid_page_size"@, "Page size must be greater than or equal to 1."@)
    } else if rs.len() == 0 {
        r == Step::Ask(Request::OpenStorage)
    } else if !(rs[0] is Opened) {
        open_fails(rs[0], r)
    } else if rs.len() == 1 {
        r == Step::Ask(Request::DeckById(args.deck))
    } else {
        let deck_text = int_text(args.deck as int);
        match rs[1] {
            Reply::Deck(Some(deck)) => if rs.len() == 2 {
                r == Step::Ask(Request::CardCount(deck.id))
            } else {
                match rs[2] {
                    Reply::Count(total) => if total < 0 {
                        unexpected(r)
                    } else if rs.len() == 3 {
                        r == Step::Ask(Request::CardPage {
                            deck_id: deck.id,
                            limit: args.page_size,
                            offset: ((args.page - 1) * args.page_size) as i64,
                        })
                    } else {
                        match rs[3] {
                            Reply::Cards(cards) => if args.json {
                                r matches Step::Finish(Outcome::Json(Response::Cards(resp)))
                                    && card_list_spec(deck, cards@, args.page, args.page_size, total, resp)
                            } else if total == 0 {
                                prints(r, seq!["No cards in deck '"@ + deck_text + "'."@])
                            } else if cards@.len() == 0 {
                                prints(r, seq![
                                    "No cards on page "@ + int_text(args.page as int) + " for deck '"@ + deck_text + "' ("@
                                        + int_text(total as int) + " cards, "@
                                        + int_text(page_count(total as int, args.page_size as int)) + " pages)."@,
                                ])
                            } else {
                                prints(r, card_table(deck, cards@, args.page, page_count(total as int, args.page_size as int), total))
                            },
                            Reply::Failed(e) => breaks(r, "failed to list cards for deck '"@ + deck_text + "'"@, error_chain(e)),
                            _ => unexpected(r),
                        }
                    },
                    Reply::Failed(e) => breaks(r, "failed to count cards for deck '"@ + deck_text + "'"@, error_chain(e)),
                    _ => unexpected(r),
                }
            },
            Reply::Deck(None) => refuses(r, "deck_not_found"@, deck_not_found_text(args.deck)),
            Reply::Failed(e) => breaks(r, "failed to read deck "@ + deck_text, error_chain(e)),
            _ => unexpected(r),
        }
    }
}

fn summary(c: &Card) -> (s: String)
    ensures
        s@ == meanings_summary(*c),
{
    let mut labels: Vec<String> = Vec::new();
    let mut i: usize = 0;
    while i < c.meanings.len()
        invariant
            i <= c.meanings.len(),
            labels@.len() == i,
            forall|j: int| 0 <= j < i ==> (#[trigger] labels@[j])@ == meaning_label(c.meanings@[j]),
        decreases c.meanings.len() - i,
    {
        let m = &c.meanings[i];
        let label = if m.part_of_speech.unicode_len() == 0 {
            m.definition.clone()
        } else {
            let mut l = cat("[", m.part_of_speech.as_str());
            l.append("] ");
            l.append(m.definition.as_str());
            l
        };
        labels.push(label);
        i = i + 1;
    }
    proof {
        assert(views(labels@) =~= c.meanings@.map_values(|m: Meaning| meaning_label(m)));
    }
    join(&labels, "; ")
}

fn row(c: &Card) -> (s: String)
    ensures
        s@ == card_row(*c),
{
    let mut s = pad_right(i64_text(c.id).as_str(), 6);
    s.append("  ");
    s.append(pad_right(c.word.as_str(), 20).as_str());
    s.append("  ");
    s.append(summary(c).as_str());
    s
}

fn table(deck: &Deck, cards: &Vec<Card>, page: i64, pages: i64, total: i64) -> (v: Vec<String>)
    ensures
        views(v@) == card_table(*deck, cards@, page, pages as int, total),
{
    let mut v: Vec<String> = Vec::new();
    let mut head = cat("Deck: ", deck.name.as_str());
    head.append(" (");
    head.append(i64_text(deck.id).as_str());
    head.append(")  Page ");
    head.append(i64_text(page).as_str());
    head.append("/");
    head.append(i64_text(pages).as_str());
    head.append("  Total ");
    head.append(i64_text(total).as_str());
    v.push(head);
    let mut columns = pad_right("ID", 6);
    columns.append("  ");
    columns.append(pad_right("WORD", 20).as_str());
    columns.append("  MEANINGS");
    v.push(columns);
    let mut dashes = String::new();
    push_repeat(&mut dashes, '-', 60);
    proof {
        assert(dashes@ =~= repeat_seq('-', 60));
    }
    v.push(dashes);
    let ghost expected = card_table(*deck, cards@, page, pages as int, total);
    let mut i: usize = 0;
    while i < cards.len()
        invariant
            i <= cards.len(),
            expected == card_table(*deck, cards@, page, pages as int, total),
            v@.len() == i + 3,
            forall|j: int| 0 <= j < 3 ==> (#[trigger] v@[j])@ == expected[j],
            forall|j: int| 0 <= j < i ==> (#[trigger] v@[j + 3])@ == card_row(cards@[j]),
        decreases cards.len() - i,
    {
        v.push(row(&cards[i]));
        i = i + 1;
    }
    proof {
        assert(views(v@) =~= expected) by {
            assert forall|j: int| 0 <= j < v@.len() implies views(v@)[j] == expected[j] by {
                if j >= 3 {
                    assert(v@[(j - 3) + 3]@ == card_row(cards@[j - 3]));
                }
            }
        }
    }
    v
}

/// Runs `card list` one step. `(page - 1) * page_size` must fit an `i64`
/// when both are at least 1: the offset of the page is computed so.
pub fn cmd_card_list(args: &CardListArgs, replies: &Vec<Reply>) -> (r: Step)
    requires
        args.page >= 1 && args.page_size >= 1 ==> (args.page - 1) * args.page_size <= i64::MAX,
    ensures
        card_list_cmd_spec(*args, replies@, r),
{
    if args.page < 1 {
        return refuse("invalid_page", "Page must be greater than or equal to 1.");
    }
    if args.page_size < 1 {
        return refuse("invalid_page_size", "Page size must be greater than or equal to 1.");
    }
    if replies.len() == 0 {
        return ask(Request::OpenStorage);
    }
    match &replies[0] {
        Reply::Opened(_) => {},
        other => return open_failure(other),
    }
    if replies.len() == 1 {
        return ask(Request::DeckById(args.deck));
    }
    let deck_text = i64_text(args.deck);
    let deck = match &replies[1] {
        Reply::Deck(Some(deck)) => deck,
        Reply::Deck(None) => return refuse("deck_not_found", deck_not_found(args.deck).as_str()),
        Reply::Failed(e) => return fail_on(cat("failed to read deck ", deck_text.as_str()).as_str(), e),
        _ => return fail_unexpected(),
    };
    if replies.len() == 2 {
        return ask(Request::CardCount(deck.id));
    }
    let total = match &replies[2] {
        Reply::Count(total) => *total,
        Reply::Failed(e) => {
            let mut context = cat("failed to count cards for deck '", deck_text.as_str());
            context.append("'");
            return fail_on(context.as_str(), e);
        },
        _ => return fail_unexpected(),
    };
    if total < 0 {
        return fail_unexpected();
    }
    if replies.len() == 3 {
        assert(0 <= (args.page - 1) * args.page_size) by (nonlinear_arith)
            requires
                args.page >= 1,
                args.page_size >= 1,
        ;
        let offset = (args.page - 1) * args.page_size;
        return ask(Request::CardPage { deck_id: deck.id, limit: args.page_size, offset });
    }
    let cards = match &replies[3] {
        Reply::Cards(cards) => cards,
        Reply::Failed(e) => {
            let mut context = cat("failed to list cards for deck '", deck_text.as_str());
            context.append("'");
            return fail_on(context.as_str(), e);
        },
        _ => return fail_unexpected(),
    };
    if args.json {
        let mut copies: Vec<Card> = Vec::new();
        let mut i: usize = 0;
        while i < cards.len()
            invariant
                i <= cards.len(),
                copies@.len() == i,
                forall|j: int| 0 <= j < i ==> (#[trigger] copies@[j])@ == cards@[j]@,
            decreases cards.len() - i,
        {
            copies.push(cards[i].copy());
            i = i + 1;
        }
        let response = CardListResponse::new(deck, copies, args.page, args.page_size, total);
        return answer(Response::Cards(response));
    }
    if total == 0 {
        let mut line = cat("No cards in deck '", deck_text.as_str());
        line.append("'.");
        return print_line(line);
    }
    let q = total / args.page_size;
    assert(total % args.page_size != 0 ==> q < i64::MAX) by (nonlinear_arith)
        requires
            total >= 0,
            args.page_size >= 1,
            q == total / args.page_size,
            total <= i64::MAX,
    ;
    let pages = if total % args.page_size == 0 { q } else { q + 1 };
    if cards.len() == 0 {
        let mut line = cat("No cards on page ", i64_text(args.page).as_str());
        line.append(" for deck '");
        line.append(deck_text.as_str());
        line.append("' (");
        line.append(i64_text(total).as_str());
        line.append(" cards, ");
        line.append(i64_text(pages).as_str());
        line.append(" pages).");
        return print_line(line);
    }
    print_lines(table(deck, cards, args.page, pages, total))
}

} // verus!
