//! The conversation between a command and the program that runs it: the
//! command asks for one storage or outside operation at a time, is handed
//! back every reply so far, and finally prints, answers in JSON or fails.

use vstd::prelude::*;
use crate::card::{Card, Rating};
use crate::clock::Timestamp;
use crate::deck::Deck;
use crate::error::{error_text, Error};
use crate::importer::{DuplicateStrategy, ImportSummary};
use crate::protocol::{
    CardResponse, DeckListResponse, DeckUseResponse, Ratio, RateResponse, StatsResponse, StatusResponse,
};
use crate::scheduler::ScheduledReview;
use crate::selector::SelectedCard;
use crate::storage::{DailyReviewBucket, ProgressCounts};
use crate::text::{cat, i64_text, int_text, views};
use crate::cli::protocol::{
    CardListResponse, CatalogDeckEntry, CatalogFetchResponse, CatalogListResponse, DeckCreateResponse,
    DeckDeleteResponse, DeckRenameResponse, ImportResponse,
};

verus! {

/// An operation a command asks the program to perform.
#[derive(Debug)]
pub enum Request {
    /// Open (creating if need be) the database at the default path.
    OpenStorage,
    ListDecks,
    /// The deck the active-deck setting names.
    ActiveDeck,
    ActiveDeckId,
    DeckById(i64),
    DeckByCatalogId(String),
    InsertDeck { name: String, description: Option<String> },
    DeleteDeck(i64),
    RenameDeck { id: i64, name: String },
    SetActiveDeck(i64),
    ClearCurrentCard,
    CurrentCardId,
    CardById(i64),
    CardCount(i64),
    CardPage { deck_id: i64, limit: i64, offset: i64 },
    /// Today's progress of a deck, with the default daily new-card limit.
    Progress(i64),
    /// Keep the deck's current card, or select the next one.
    SelectCurrent(i64),
    /// Select the next card of the deck and point the current card at it.
    SelectNext(i64),
    /// Rate a card: schedule it and record the review.
    Review { card_id: i64, rating: Rating },
    /// Read the clock.
    Now,
    /// The ratings of a deck per day, from `first` to `last` (`YYYY-MM-DD`).
    ReviewDays { deck_id: i64, first: String, last: String },
    /// `round(100 * ratio)` as the scheduler's floating point computes it.
    Percent(Ratio),
    /// Read and parse a deck.v1 JSONL file; the cards are kept for the import.
    ReadImportFile(String),
    /// Import the cards read into an existing deck.
    ImportInto { deck_id: i64, strategy: DuplicateStrategy },
    /// Create a deck and import the cards read into it.
    ImportIntoNewDeck {
        name: String,
        description: Option<String>,
        strategy: DuplicateStrategy,
        catalog_id: Option<String>,
    },
    /// Download and parse the catalog index.
    FetchCatalog,
    /// Download and parse a catalog deck file; the cards are kept for the import.
    FetchDeckFile(String),
}

/// Why a download did not give usable data.
#[derive(Debug)]
pub enum FetchFailure {
    /// The request itself failed.
    Network(String),
    /// The response body could not be read.
    Body(String),
    /// The catalog index is not valid catalog JSON.
    BadCatalog(String),
    /// The deck file is not valid deck.v1 JSONL.
    BadDeck(Error),
}

/// What an operation gave back.
#[derive(Debug)]
pub enum Reply {
    /// The database is open; its path.
    Opened(String),
    /// The database at this path could not be opened.
    OpenFailed(String, Error),
    /// The operation failed.
    Failed(Error),
    /// A write succeeded.
    Done,
    Deck(Option<Deck>),
    Decks(Vec<Deck>),
    Id(Option<i64>),
    Card(Option<Card>),
    Cards(Vec<Card>),
    Count(i64),
    Progress(ProgressCounts),
    Selected(Option<SelectedCard>),
    Reviewed(ScheduledReview),
    Now(Timestamp),
    Buckets(Vec<DailyReviewBucket>),
    Percent(i64),
    /// The import file was read; the number of cards.
    CardsRead(usize),
    Summary(ImportSummary),
    Imported(Deck, ImportSummary),
    Catalog(Vec<CatalogDeckEntry>),
    /// A download from `url` failed.
    FetchFailed { url: String, failure: FetchFailure },
}

/// A command's failure with a stable protocol code.
#[derive(Debug)]
pub struct ProtocolError {
    pub code: String,
    pub message: String,
}

impl ProtocolError {
    pub fn new(code: &str, message: &str) -> (r: ProtocolError)
        ensures
            r.code@ == code@,
            r.message@ == message@,
    {
        ProtocolError { code: String::from_str(code), message: String::from_str(message) }
    }
}

/// A failed command: the messages of its error chain, outermost first, and
/// the protocol error found in that chain, if any.
#[derive(Debug)]
pub struct CommandError {
    pub chain: Vec<String>,
    pub protocol: Option<ProtocolError>,
}

/// A protocol response.
#[derive(Debug)]
pub enum Response {
    Card(CardResponse),
    Rate(RateResponse),
    Decks(DeckListResponse),
    DeckUse(DeckUseResponse),
    DeckCreated(DeckCreateResponse),
    DeckDeleted(DeckDeleteResponse),
    DeckRenamed(DeckRenameResponse),
    Status(StatusResponse),
    Stats(StatsResponse),
    Cards(CardListResponse),
    Import(ImportResponse),
    Catalog(CatalogListResponse),
    CatalogFetch(CatalogFetchResponse),
}

/// How a command ends.
#[derive(Debug)]
pub enum Outcome {
    /// Lines of human-readable text on standard output.
    Print(Vec<String>),
    /// A protocol response, as JSON on standard output.
    Json(Response),
    /// The command failed.
    Fail(CommandError),
}

/// A command's next move.
#[derive(Debug)]
pub enum Step {
    Ask(Request),
    Finish(Outcome),
}

/// The messages of an error's chain: its own text, then the message of the
/// component that failed, for the failures that carry one.
pub open spec fn error_chain(e: Error) -> Seq<Seq<char>> {
    match e {
        Error::Db(m) => seq![error_text(e), m@],
        Error::Json(m) => seq![error_text(e), m@],
        Error::Io(m) => seq![error_text(e), m@],
        _ => seq![error_text(e)],
    }
}

/// The error's chain and protocol error are these.
pub open spec fn error_is(e: CommandError, chain: Seq<Seq<char>>, protocol: Option<(Seq<char>, Seq<char>)>) -> bool {
    &&& views(e.chain@) == chain
    &&& match (e.protocol, protocol) {
        (Some(p), Some((code, message))) => p.code@ == code && p.message@ == message,
        (None, None) => true,
        _ => false,
    }
}

/// The command fails with this chain and protocol error.
pub open spec fn fails(r: Step, chain: Seq<Seq<char>>, protocol: Option<(Seq<char>, Seq<char>)>) -> bool {
    r matches Step::Finish(Outcome::Fail(e)) && error_is(e, chain, protocol)
}

/// The command refuses with a protocol error.
pub open spec fn refuses(r: Step, code: Seq<char>, message: Seq<char>) -> bool {
    fails(r, seq![message], Some((code, message)))
}

/// The command fails without a protocol error: `context`, then the chain
/// of the error that caused it.
pub open spec fn breaks(r: Step, context: Seq<char>, cause: Seq<Seq<char>>) -> bool {
    fails(r, seq![context] + cause, None)
}

/// The message of a failure on a reply that does not answer the request.
pub open spec fn unexpected_text() -> Seq<char> {
    "unexpected reply to a storage request"@
}

/// The command fails because a reply did not answer its request.
pub open spec fn unexpected(r: Step) -> bool {
    breaks(r, unexpected_text(), Seq::empty())
}

/// The command prints these lines.
pub open spec fn prints(r: Step, lines: Seq<Seq<char>>) -> bool {
    r matches Step::Finish(Outcome::Print(v)) && views(v@) == lines
}

/// The text of a missing deck id.
pub open spec fn deck_not_found_text(id: i64) -> Seq<char> {
    "Deck not found: "@ + int_text(id as int)
}

/// `Deck not found: <id>`.
pub fn deck_not_found(id: i64) -> (s: String)
    ensures
        s@ == deck_not_found_text(id),
{
    cat("Deck not found: ", i64_text(id).as_str())
}

/// The command fails as opening the database failed with `reply`.
pub open spec fn open_fails(reply: Reply, r: Step) -> bool {
    match reply {
        Reply::OpenFailed(path, e) => breaks(r, "cannot open database at "@ + path@, error_chain(e)),
        Reply::Failed(e) => breaks(r, "cannot determine data directory"@, error_chain(e)),
        _ => unexpected(r),
    }
}

/// The chain of an error.
pub fn chain_of(e: &Error) -> (v: Vec<String>)
    ensures
        views(v@) == error_chain(*e),
{
    let mut v: Vec<String> = Vec::new();
    v.push(e.to_text());
    match e {
        Error::Db(m) => v.push(m.clone()),
        Error::Json(m) => v.push(m.clone()),
        Error::Io(m) => v.push(m.clone()),
        _ => {},
    }
    proof {
        assert(views(v@) =~= error_chain(*e));
    }
    v
}

/// A protocol error with a stable code; the JSON flag is not needed to build
/// it, as the entry point decides how the error is shown.
pub fn cmd_error(json: bool, code: &str, message: &str) -> (e: CommandError)
    ensures
        error_is(e, seq![message@], Some((code@, message@))),
{
    let mut chain: Vec<String> = Vec::new();
    chain.push(String::from_str(message));
    proof {
        assert(views(chain@) =~= seq![message@]);
    }
    CommandError { chain, protocol: Some(ProtocolError::new(code, message)) }
}

/// Asks for an operation.
pub fn ask(request: Request) -> (r: Step)
    ensures
        r == Step::Ask(request),
{
    Step::Ask(request)
}

/// Refuses with a protocol error.
pub fn refuse(code: &str, message: &str) -> (r: Step)
    ensures
        refuses(r, code@, message@),
{
    Step::Finish(Outcome::Fail(cmd_error(false, code, message)))
}

/// Fails with `context` over the chain `cause`.
pub fn fail_with(context: &str, cause: Vec<String>) -> (r: Step)
    ensures
        breaks(r, context@, views(cause@)),
{
    let mut chain: Vec<String> = Vec::new();
    chain.push(String::from_str(context));
    let mut i: usize = 0;
    while i < cause.len()
        invariant
            i <= cause.len(),
            chain@.len() == i + 1,
            chain@[0]@ == context@,
            forall|k: int| 0 <= k < i ==> (#[trigger] chain@[k + 1])@ == cause@[k]@,
        decreases cause.len() - i,
    {
        chain.push(cause[i].clone());
        i = i + 1;
    }
    proof {
        assert(views(chain@) =~= seq![context@] + views(cause@)) by {
            assert forall|k: int| 0 <= k < chain@.len() implies views(chain@)[k] == (seq![context@] + views(cause@))[k] by {
                if k > 0 {
                    assert(chain@[(k - 1) + 1]@ == cause@[k - 1]@);
                }
            }
        }
    }
    Step::Finish(Outcome::Fail(CommandError { chain, protocol: None }))
}

/// Fails with `context` over the chain of `e`.
pub fn fail_on(context: &str, e: &Error) -> (r: Step)
    ensures
        breaks(r, context@, error_chain(*e)),
{
    fail_with(context, chain_of(e))
}

/// Fails with the chain of `e` alone.
pub fn fail_as(e: &Error) -> (r: Step)
    ensures
        fails(r, error_chain(*e), None),
{
    Step::Finish(Outcome::Fail(CommandError { chain: chain_of(e), protocol: None }))
}

/// Fails with `context` alone.
pub fn fail(context: &str) -> (r: Step)
    ensures
        breaks(r, context@, Seq::empty()),
{
    let r = fail_with(context, Vec::new());
    proof {
        assert(views(Seq::<String>::empty()) =~= Seq::<Seq<char>>::empty());
    }
    r
}

/// Fails because a reply did not answer its request.
pub fn fail_unexpected() -> (r: Step)
    ensures
        unexpected(r),
{
    fail("unexpected reply to a storage request")
}

/// Prints one line.
pub fn print_line(line: String) -> (r: Step)
    ensures
        prints(r, seq![line@]),
{
    let mut v: Vec<String> = Vec::new();
    v.push(line);
    proof {
        assert(views(v@) =~= seq![line@]);
    }
    Step::Finish(Outcome::Print(v))
}

/// Prints the lines.
pub fn print_lines(lines: Vec<String>) -> (r: Step)
    ensures
        prints(r, views(lines@)),
{
    Step::Finish(Outcome::Print(lines))
}

/// Answers with a protocol response.
pub fn answer(response: Response) -> (r: Step)
    ensures
        r == Step::Finish(Outcome::Json(response)),
{
    Step::Finish(Outcome::Json(response))
}

/// The failure for a reply to `OpenStorage` that is not `Opened`.
pub fn open_failure(reply: &Reply) -> (r: Step)
    ensures
        open_fails(*reply, r),
{
    match reply {
        Reply::OpenFailed(path, e) => {
            let context = cat("cannot open database at ", path.as_str());
            fail_on(context.as_str(), e)
        },
        Reply::Failed(e) => fail_on("cannot determine data directory", e),
        _ => fail_unexpected(),
    }
}

} // verus!
