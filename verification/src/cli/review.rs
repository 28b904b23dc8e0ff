//! `fishword current`, `status` and `stats`: the read-only learning commands.

use vstd::prelude::*;
use crate::card::Card;
use crate::cli::args::{CardOutputArgs, StatsArgs, StatusArgs};
use crate::cli::scope::{no_active_deck, no_active_text, resolve_deck, scope_read_failure, scope_read_fails, scope_request};
use crate::cli::step::{
    answer, ask, breaks, error_chain, fail, fail_on, fail_unexpected, fail_with, print_line, print_lines, prints,
    refuse, refuses, unexpected, Outcome, Reply, Request, Response, Step,
};
use crate::clock::{format_date, Timestamp};
use crate::deck::Deck;
use crate::protocol::{
    card_response_spec, day_label, display_spec, parse_text_format, range_stats, rate_spec, render_card, shown_name,
    stats_range_ok, stats_response_spec, status_compact, status_plain, status_spec, sums, CardResponse,
    StatsResponse, StatusResponse, TextFormat, CURRENT_SCHEMA,
};
use crate::selector::SelectedCard;
use crate::storage::DailyReviewStats;
use crate::text::{cat, i64_text, int_text, pad_left, pad_left_seq, pad_right, pad_right_seq, same, views};

verus! {

/// The text shown when a deck has no card to show.
pub open spec fn no_cards_text() -> Seq<char> {
    "No cards found. Import a deck first."@
}

/// What a learning command does when no deck is active: refuse in JSON, say
/// so otherwise.
pub open spec fn no_active_spec(json: bool, r: Step) -> bool {
    if json {
        refuses(r, "no_active_deck"@, no_active_text())
    } else {
        prints(r, seq![no_active_text()])
    }
}

fn no_active(json: bool) -> (r: Step)
    ensures
        no_active_spec(json, r),
{
    if json {
        refuse("no_active_deck", no_active_deck())
    } else {
        print_line(String::from_str(no_active_deck()))
    }
}

/// The human rendering of a card in a format.
pub open spec fn rendered(card: Card, deck: Deck, format: TextFormat) -> Seq<char> {
    let (plain, compact, status, _) = display_spec(card, deck);
    match format {
        TextFormat::Plain => plain,
        TextFormat::Compact => compact,
        TextFormat::Status => status,
    }
}

/// Showing the selected card, from reply `k` on: its deck, today's progress,
/// then the card response or its rendering.
pub open spec fn show_selected_spec(selected: SelectedCard, json: bool, format: Seq<char>, rs: Seq<Reply>, k: int, r: Step) -> bool {
    if rs.len() <= k {
        r == Step::Ask(Request::DeckById(selected.card.deck_id))
    } else {
        match rs[k] {
            Reply::Deck(Some(deck)) => if rs.len() == k + 1 {
                r == Step::Ask(Request::Progress(deck.id))
            } else {
                match rs[k + 1] {
                    Reply::Progress(p) => if json {
                        r matches Step::Finish(Outcome::Json(Response::Card(resp)))
                            && card_response_spec(CURRENT_SCHEMA@, selected, deck, p, resp)
                    } else {
                        match parse_text_format(format) {
                            Ok(f) => prints(r, seq![rendered(selected.card, deck, f)]),
                            Err(m) => breaks(r, "invalid --format '"@ + format + "', expected plain/compact/status"@, seq![m]),
                        }
                    },
                    Reply::Failed(e) => breaks(r, "failed to read progress"@, error_chain(e)),
                    _ => unexpected(r),
                }
            },
            Reply::Deck(None) => breaks(r, "Selected card deck disappeared"@, Seq::empty()),
            Reply::Failed(e) => breaks(r, "failed to read deck"@, error_chain(e)),
            _ => unexpected(r),
        }
    }
}

fn show_selected(selected: &SelectedCard, json: bool, format: &str, replies: &Vec<Reply>, k: usize) -> (r: Step)
    requires
        k <= replies@.len(),
    ensures
        show_selected_spec(*selected, json, format@, replies@, k as int, r),
{
    if replies.len() == k {
        return ask(Request::DeckById(selected.card.deck_id));
    }
    match &replies[k] {
        Reply::Deck(Some(deck)) => {
            if replies.len() == k + 1 {
                return ask(Request::Progress(deck.id));
            }
            match &replies[k + 1] {
                Reply::Progress(p) => {
                    let response = CardResponse::current(selected, deck, *p);
                    if json {
                        answer(Response::Card(response))
                    } else {
                        match TextFormat::parse(format) {
                            Ok(f) => print_line(String::from_str(render_card(&response, f))),
                            Err(m) => {
                                let mut context = cat("invalid --format '", format);
                                context.append("', expected plain/compact/status");
                                let mut cause: Vec<String> = Vec::new();
                                cause.push(m);
                                proof {
                                    assert(views(cause@) =~= seq![cause@[0]@]);
                                }
                                fail_with(context.as_str(), cause)
                            },
                        }
                    }
                },
                Reply::Failed(e) => fail_on("failed to read progress", e),
                _ => fail_unexpected(),
            }
        },
        Reply::Deck(None) => fail("Selected card deck disappeared"),
        Reply::Failed(e) => fail_on("failed to read deck", e),
        _ => fail_unexpected(),
    }
}

/// `current`: the deck's current card, or the next one selected.
pub open spec fn current_spec(args: CardOutputArgs, rs: Seq<Reply>, r: Step) -> bool {
    if rs.len() == 0 {
        r == Step::Ask(Request::OpenStorage)
    } else if !(rs[0] is Opened) {
        crate::cli::step::open_fails(rs[0], r)
    } else if rs.len() == 1 {
        r == Step::Ask(scope_request(args.deck))
    } else {
        match rs[1] {
            Reply::Deck(Some(deck)) => if rs.len() == 2 {
                r == Step::Ask(Request::SelectCurrent(deck.id))
            } else {
                match rs[2] {
                    Reply::Selected(Some(s)) => show_selected_spec(s, args.json, args.format@, rs, 3, r),
                    Reply::Selected(None) => if args.json {
                        refuses(r, "no_cards"@, no_cards_text())
                    } else {
                        prints(r, seq![no_cards_text()])
                    },
                    Reply::Failed(e) => breaks(r, "failed to select current card"@, error_chain(e)),
                    _ => unexpected(r),
                }
            },
            Reply::Deck(None) => match args.deck {
                Some(id) => refuses(r, "deck_not_found"@, crate::cli::step::deck_not_found_text(id)),
                None => no_active_spec(args.json, r),
            },
            Reply::Failed(e) => scope_read_fails(args.deck, e, r),
            _ => unexpected(r),
        }
    }
}

/// Runs `current` one step. It never rates or writes a review.
pub fn cmd_current(args: &CardOutputArgs, replies: &Vec<Reply>) -> (r: Step)
    ensures
        current_spec(*args, replies@, r),
{
    if replies.len() == 0 {
        return ask(Request::OpenStorage);
    }
    match &replies[0] {
        Reply::Opened(_) => {},
        other => return crate::cli::step::open_failure(other),
    }
    if replies.len() == 1 {
        return resolve_deck(args.deck);
    }
    match &replies[1] {
        Reply::Deck(Some(deck)) => {
            if replies.len() == 2 {
                return ask(Request::SelectCurrent(deck.id));
            }
            match &replies[2] {
                Reply::Selected(Some(s)) => show_selected(s, args.json, args.format.as_str(), replies, 3),
                Reply::Selected(None) => {
                    if args.json {
                        refuse("no_cards", "No cards found. Import a deck first.")
                    } else {
                        print_line(String::from_str("No cards found. Import a deck first."))
                    }
                },
                Reply::Failed(e) => fail_on("failed to select current card", e),
                _ => fail_unexpected(),
            }
        },
        Reply::Deck(None) => match args.deck {
            Some(id) => refuse("deck_not_found", crate::cli::step::deck_not_found(id).as_str()),
            None => no_active(args.json),
        },
        Reply::Failed(e) => scope_read_failure(args.deck, e),
        _ => fail_unexpected(),
    }
}

/// `status`: today's progress of the scope deck.
pub open spec fn status_cmd_spec(args: StatusArgs, rs: Seq<Reply>, r: Step) -> bool {
    if rs.len() == 0 {
        r == Step::Ask(Request::OpenStorage)
    } else if !(rs[0] is Opened) {
        crate::cli::step::open_fails(rs[0], r)
    } else if rs.len() == 1 {
        r == Step::Ask(scope_request(args.deck))
    } else {
        match rs[1] {
            Reply::Deck(Some(deck)) => if rs.len() == 2 {
                r == Step::Ask(Request::Progress(deck.id))
            } else {
                match rs[2] {
                    Reply::Progress(p) => if rs.len() == 3 {
                        r == Step::Ask(Request::CardCount(deck.id))
                    } else {
                        match rs[3] {
                            Reply::Count(n) => if args.json {
                                r matches Step::Finish(Outcome::Json(Response::Status(resp))) && status_spec(deck, p, n, resp)
                            } else if args.format@ == "plain"@ {
                                prints(r, seq![status_plain(shown_name(deck), p, n)])
                            } else if args.format@ == "compact"@ {
                                prints(r, seq![status_compact(p, n)])
                            } else if args.format@ == "statusline"@ {
                                prints(r, seq!["📚 "@ + shown_name(deck) + " · "@ + status_compact(p, n)])
                            } else {
                                breaks(r, "invalid --format '"@ + args.format@ + "', expected plain/compact/statusline"@, Seq::empty())
                            },
                            Reply::Failed(e) => breaks(r, "failed to count cards"@, error_chain(e)),
                            _ => unexpected(r),
                        }
                    },
                    Reply::Failed(e) => breaks(r, "failed to read progress"@, error_chain(e)),
                    _ => unexpected(r),
                }
            },
            Reply::Deck(None) => match args.deck {
                Some(id) => refuses(r, "deck_not_found"@, crate::cli::step::deck_not_found_text(id)),
                None => no_active_spec(args.json, r),
            },
            Reply::Failed(e) => scope_read_fails(args.deck, e, r),
            _ => unexpected(r),
        }
    }
}

/// Runs `status` one step. It only reads.
pub fn cmd_status(args: &StatusArgs, replies: &Vec<Reply>) -> (r: Step)
    ensures
        status_cmd_spec(*args, replies@, r),
{
    if replies.len() == 0 {
        return ask(Request::OpenStorage);
    }
    match &replies[0] {
        Reply::Opened(_) => {},
        other => return crate::cli::step::open_failure(other),
    }
    if replies.len() == 1 {
        return resolve_deck(args.deck);
    }
    match &replies[1] {
        Reply::Deck(Some(deck)) => {
            if replies.len() == 2 {
                return ask(Request::Progress(deck.id));
            }
            match &replies[2] {
                Reply::Progress(p) => {
                    if replies.len() == 3 {
                        return ask(Request::CardCount(deck.id));
                    }
                    match &replies[3] {
                        Reply::Count(n) => {
                            let response = StatusResponse::new(deck, *p, *n);
                            if args.json {
                                answer(Response::Status(response))
                            } else if same(args.format.as_str(), "plain") {
                                print_line(response.display.plain)
                            } else if same(args.format.as_str(), "compact") {
                                print_line(response.display.compact)
                            } else if same(args.format.as_str(), "statusline") {
                                print_line(response.display.statusline)
                            } else {
                                let mut context = cat("invalid --format '", args.format.as_str());
                                context.append("', expected plain/compact/statusline");
                                fail(context.as_str())
                            }
                        },
                        Reply::Failed(e) => fail_on("failed to count cards", e),
                        _ => fail_unexpected(),
                    }
                },
                Reply::Failed(e) => fail_on("failed to read progress", e),
                _ => fail_unexpected(),
            }
        },
        Reply::Deck(None) => match args.deck {
            Some(id) => refuse("deck_not_found", crate::cli::step::deck_not_found(id).as_str()),
            None => no_active(args.json),
        },
        Reply::Failed(e) => scope_read_failure(args.deck, e),
        _ => fail_unexpected(),
    }
}

/// The header of the daily statistics table.
pub open spec fn stats_header() -> Seq<char> {
    pad_right_seq("DATE"@, 12) + " "@ + pad_left_seq("REVIEWS"@, 7) + " "@ + pad_left_seq("AGAIN"@, 7) + " "@
        + pad_left_seq("HARD"@, 7) + " "@ + pad_left_seq("GOOD"@, 7) + " "@ + pad_left_seq("EASY"@, 7)
}

/// The table row of one day.
pub open spec fn stats_row(date: Seq<char>, d: DailyReviewStats) -> Seq<char> {
    pad_right_seq(date, 12) + " "@ + pad_left_seq(int_text(d.reviews as int), 7) + " "@
        + pad_left_seq(int_text(d.again as int), 7) + " "@ + pad_left_seq(int_text(d.hard as int), 7) + " "@
        + pad_left_seq(int_text(d.good as int), 7) + " "@ + pad_left_seq(int_text(d.easy as int), 7)
}

/// The human lines of `stats` for the ratings of each day of the range
/// starting on the day of `first`; `percent` is the rounded share of `good`
/// and `easy`, when there are ratings.
pub open spec fn stats_text(stats: Seq<DailyReviewStats>, first: Timestamp, percent: Option<int>) -> Seq<Seq<char>> {
    let (reviews, _, _) = sums(stats);
    let today = if stats.len() > 0 { stats.last().reviews as int } else { 0 };
    seq![
        "Today: "@ + int_text(today) + " reviews"@,
        match percent {
            Some(p) => "7 days: "@ + int_text(reviews) + " reviews, "@ + int_text(p) + "% good/easy"@,
            None => "7 days: "@ + int_text(reviews) + " reviews, no ratings yet"@,
        },
        stats_header(),
    ] + Seq::new(stats.len(), |k: int| stats_row(day_label(first, k)->Some_0, stats[k]))
}

/// The first moment of the week ending `now`: six days earlier.
pub open spec fn week_start(now: Timestamp) -> int {
    now.secs - 6 * 86_400
}

/// `stats` once the clock has been read: ask for the ratings of the seven
/// days ending today, then answer.
pub open spec fn week_spec(deck: Deck, json: bool, now: Timestamp, rs: Seq<Reply>, r: Step) -> bool {
    if week_start(now) < i64::MIN {
        breaks(r, "the clock is out of range"@, Seq::empty())
    } else {
        let first = Timestamp { secs: week_start(now) as i64, nanos: 0 };
        match (day_label(first, 0), day_label(first, 6)) {
            (Some(a), Some(b)) => if rs.len() == 3 {
                r matches Step::Ask(Request::ReviewDays { deck_id, first: f, last: l })
                    && deck_id == deck.id && f@ == a && l@ == b
            } else {
                match rs[3] {
                    Reply::Buckets(buckets) => if !stats_range_ok(buckets@, first, 7) {
                        breaks(r, "review statistics are out of range"@, Seq::empty())
                    } else if json {
                        r matches Step::Finish(Outcome::Json(Response::Stats(resp)))
                            && stats_response_spec(deck, 7, first, buckets@, resp)
                    } else {
                        let stats = range_stats(buckets@, first, 7);
                        let (reviews, good, easy) = sums(stats);
                        match rate_spec(good, easy, reviews) {
                            Some(ratio) => if rs.len() == 4 {
                                r == Step::Ask(Request::Percent(ratio))
                            } else {
                                match rs[4] {
                                    Reply::Percent(p) => prints(r, stats_text(stats, first, Some(p as int))),
                                    _ => unexpected(r),
                                }
                            },
                            None => prints(r, stats_text(stats, first, None)),
                        }
                    },
                    Reply::Failed(e) => breaks(r, "failed to read review stats"@, error_chain(e)),
                    _ => unexpected(r),
                }
            },
            _ => breaks(r, "cannot write the days of the review range"@, Seq::empty()),
        }
    }
}

/// `stats`: review statistics of the scope deck over the last seven days.
pub open spec fn stats_cmd_spec(args: StatsArgs, rs: Seq<Reply>, r: Step) -> bool {
    if args.range@ != "7d"@ {
        refuses(r, "invalid_range"@, "Invalid range: "@ + args.range@)
    } else if rs.len() == 0 {
        r == Step::Ask(Request::OpenStorage)
    } else if !(rs[0] is Opened) {
        crate::cli::step::open_fails(rs[0], r)
    } else if rs.len() == 1 {
        r == Step::Ask(scope_request(args.deck))
    } else {
        match rs[1] {
            Reply::Deck(Some(deck)) => if rs.len() == 2 {
                r == Step::Ask(Request::Now)
            } else {
                match rs[2] {
                    Reply::Now(now) => week_spec(deck, args.json, now, rs, r),
                    _ => unexpected(r),
                }
            },
            Reply::Deck(None) => match args.deck {
                Some(id) => refuses(r, "deck_not_found"@, crate::cli::step::deck_not_found_text(id)),
                None => no_active_spec(args.json, r),
            },
            Reply::Failed(e) => scope_read_fails(args.deck, e, r),
            _ => unexpected(r),
        }
    }
}

fn stats_header_text() -> (s: String)
    ensures
        s@ == stats_header(),
{
    let mut s = pad_right("DATE", 12);
    s.append(" ");
    s.append(pad_left("REVIEWS", 7).as_str());
    s.append(" ");
    s.append(pad_left("AGAIN", 7).as_str());
    s.append(" ");
    s.append(pad_left("HARD", 7).as_str());
    s.append(" ");
    s.append(pad_left("GOOD", 7).as_str());
    s.append(" ");
    s.append(pad_left("EASY", 7).as_str());
    s
}

fn stats_row_text(date: &str, reviews: i64, again: i64, hard: i64, good: i64, easy: i64) -> (s: String)
    ensures
        s@ == stats_row(date@, DailyReviewStats { reviews, again, hard, good, easy }),
{
    let mut s = pad_right(date, 12);
    s.append(" ");
    s.append(pad_left(i64_text(reviews).as_str(), 7).as_str());
    s.append(" ");
    s.append(pad_left(i64_text(again).as_str(), 7).as_str());
    s.append(" ");
    s.append(pad_left(i64_text(hard).as_str(), 7).as_str());
    s.append(" ");
    s.append(pad_left(i64_text(good).as_str(), 7).as_str());
    s.append(" ");
    s.append(pad_left(i64_text(easy).as_str(), 7).as_str());
    s
}

fn stats_lines(
    resp: &StatsResponse,
    percent: Option<i64>,
    Ghost(deck): Ghost<Deck>,
    Ghost(first): Ghost<Timestamp>,
    Ghost(buckets): Ghost<Seq<crate::storage::DailyReviewBucket>>,
) -> (v: Vec<String>)
    requires
        stats_response_spec(deck, 7, first, buckets, *resp),
    ensures
        views(v@) == stats_text(
            range_stats(buckets, first, 7),
            first,
            match percent { Some(p) => Some(p as int), None => None },
        ),
{
    let ghost stats = range_stats(buckets, first, 7);
    let ghost expected = stats_text(stats, first, match percent { Some(p) => Some(p as int), None => None });
    let mut v: Vec<String> = Vec::new();
    let mut today = cat("Today: ", i64_text(resp.summary.reviewed_today).as_str());
    today.append(" reviews");
    v.push(today);
    let mut week = cat("7 days: ", i64_text(resp.summary.reviews).as_str());
    match percent {
        Some(p) => {
            week.append(" reviews, ");
            week.append(i64_text(p).as_str());
            week.append("% good/easy");
        },
        None => week.append(" reviews, no ratings yet"),
    }
    v.push(week);
    v.push(stats_header_text());
    let mut k: usize = 0;
    while k < resp.series.len()
        invariant
            stats_response_spec(deck, 7, first, buckets, *resp),
            stats == range_stats(buckets, first, 7),
            expected == stats_text(stats, first, match percent { Some(p) => Some(p as int), None => None }),
            k <= resp.series@.len(),
            v@.len() == k + 3,
            forall|j: int| 0 <= j < 3 ==> (#[trigger] v@[j])@ == expected[j],
            forall|j: int| 0 <= j < k ==> (#[trigger] v@[j + 3])@ == stats_row(day_label(first, j)->Some_0, stats[j]),
        decreases resp.series@.len() - k,
    {
        let d = &resp.series[k];
        v.push(stats_row_text(d.date.as_str(), d.reviews, d.again, d.hard, d.good, d.easy));
        proof {
            let day = stats[k as int];
            assert(DailyReviewStats { reviews: d.reviews, again: d.again, hard: d.hard, good: d.good, easy: d.easy } == day);
        }
        k = k + 1;
    }
    proof {
        assert(views(v@) =~= expected) by {
            assert forall|j: int| 0 <= j < v@.len() implies views(v@)[j] == expected[j] by {
                if j >= 3 {
                    assert(v@[(j - 3) + 3]@ == stats_row(day_label(first, j - 3)->Some_0, stats[j - 3]));
                }
            }
        }
    }
    v
}

/// Runs `stats` one step. It only reads.
pub fn cmd_stats(args: &StatsArgs, replies: &Vec<Reply>) -> (r: Step)
    ensures
        stats_cmd_spec(*args, replies@, r),
{
    if !same(args.range.as_str(), "7d") {
        let message = cat("Invalid range: ", args.range.as_str());
        return refuse("invalid_range", message.as_str());
    }
    if replies.len() == 0 {
        return ask(Request::OpenStorage);
    }
    match &replies[0] {
        Reply::Opened(_) => {},
        other => return crate::cli::step::open_failure(other),
    }
    if replies.len() == 1 {
        return resolve_deck(args.deck);
    }
    let deck = match &replies[1] {
        Reply::Deck(Some(deck)) => deck,
        Reply::Deck(None) => {
            return match args.deck {
                Some(id) => refuse("deck_not_found", crate::cli::step::deck_not_found(id).as_str()),
                None => no_active(args.json),
            };
        },
        Reply::Failed(e) => return scope_read_failure(args.deck, e),
        _ => return fail_unexpected(),
    };
    if replies.len() == 2 {
        return ask(Request::Now);
    }
    let now = match &replies[2] {
        Reply::Now(now) => *now,
        _ => return fail_unexpected(),
    };
    let start: i128 = now.secs as i128 - 6 * 86_400;
    if start < i64::MIN as i128 {
        return fail("the clock is out of range");
    }
    let first = Timestamp { secs: start as i64, nanos: 0 };
    let first_label = format_date(first);
    let last_label = format_date(Timestamp { secs: now.secs, nanos: 0 });
    proof {
        assert(first.secs + 86_400 * 0 == first.secs);
        assert(first.secs + 86_400 * 6 == now.secs);
    }
    let (a, b) = match (first_label, last_label) {
        (Some(a), Some(b)) => (a, b),
        _ => return fail("cannot write the days of the review range"),
    };
    if replies.len() == 3 {
        return ask(Request::ReviewDays { deck_id: deck.id, first: a, last: b });
    }
    match &replies[3] {
        Reply::Buckets(buckets) => {
            match StatsResponse::new_for_range(deck, 7, first, buckets) {
                None => fail("review statistics are out of range"),
                Some(resp) => {
                    if args.json {
                        answer(Response::Stats(resp))
                    } else {
                        match resp.summary.good_or_easy_rate {
                            Some(ratio) => {
                                if replies.len() == 4 {
                                    return ask(Request::Percent(ratio));
                                }
                                match &replies[4] {
                                    Reply::Percent(p) => print_lines(
                                        stats_lines(&resp, Some(*p), Ghost(*deck), Ghost(first), Ghost(buckets@)),
                                    ),
                                    _ => fail_unexpected(),
                                }
                            },
                            None => print_lines(stats_lines(&resp, None, Ghost(*deck), Ghost(first), Ghost(buckets@))),
                        }
                    }
                },
            }
        },
        Reply::Failed(e) => fail_on("failed to read review stats", e),
        _ => fail_unexpected(),
    }
}

} // verus!
