//! `fishword import jsonl` and `fishword init`.

use vstd::prelude::*;
use crate::cli::args::{ImportArgs, ImportCmd};
use crate::cli::protocol::{import_response_spec, ImportResponse};
use crate::cli::step::{
    answer, ask, breaks, error_chain, fail, fail_on, fail_unexpected, open_failure, open_fails, print_line, prints,
    refuse, refuses, unexpected, Outcome, Reply, Request, Response, Step,
};
use crate::deck::Deck;
use crate::error::Error;
use crate::importer::{parse_duplicate_strategy, DuplicateStrategy, ImportSummary};
use crate::protocol::ends_with;
use crate::text::{cat, has_prefix, i64_text, int_text, nat_text, usize_text};

verus! {

/// Where an import goes.
pub enum ImportTarget {
    ExistingDeck(i64),
    CreateDeck(String),
}

/// The target named by exactly one of a deck id and a deck name to create.
pub open spec fn target_of(deck_id: Option<i64>, create_deck: Option<String>) -> Option<ImportTarget> {
    match (deck_id, create_deck) {
        (Some(id), None) => Some(ImportTarget::ExistingDeck(id)),
        (None, Some(name)) => Some(ImportTarget::CreateDeck(name)),
        _ => None,
    }
}

impl ImportTarget {
    /// Exactly one of `--deck-id` and `--create-deck` names the target.
    pub fn from_args(args: &ImportArgs) -> (r: Option<ImportTarget>)
        ensures
            match (r, target_of(args.deck_id, args.create_deck)) {
                (Some(ImportTarget::ExistingDeck(a)), Some(ImportTarget::ExistingDeck(b))) => a == b,
                (Some(ImportTarget::CreateDeck(a)), Some(ImportTarget::CreateDeck(b))) => a@ == b@,
                (None, None) => true,
                _ => false,
            },
    {
        match (&args.deck_id, &args.create_deck) {
            (Some(id), None) => Some(ImportTarget::ExistingDeck(*id)),
            (None, Some(name)) => Some(ImportTarget::CreateDeck(name.clone())),
            _ => None,
        }
    }
}

/// The replies from `k` on complete the activation: the active deck was
/// already set, or it was unset and has been set.
pub open spec fn activation_done(rs: Seq<Reply>, k: int) -> bool {
    &&& rs.len() > k
    &&& match rs[k] {
        Reply::Id(Some(_)) => true,
        Reply::Id(None) => rs.len() > k + 1 && rs[k + 1] is Done,
        _ => false,
    }
}

/// The step while activation is not done: make the imported deck active
/// when no deck is.
pub open spec fn activation_step(deck_id: i64, rs: Seq<Reply>, k: int, r: Step) -> bool {
    if rs.len() <= k {
        r == Step::Ask(Request::ActiveDeckId)
    } else {
        match rs[k] {
            Reply::Id(None) => if rs.len() == k + 1 {
                r == Step::Ask(Request::SetActiveDeck(deck_id))
            } else {
                match rs[k + 1] {
                    Reply::Failed(e) => breaks(r, "failed to set active deck"@, error_chain(e)),
                    _ => unexpected(r),
                }
            },
            Reply::Failed(e) => breaks(r, "failed to read active deck"@, error_chain(e)),
            _ => unexpected(r),
        }
    }
}

/// Runs the activation from reply `k`: `None` once it is done.
pub fn activate(deck_id: i64, replies: &Vec<Reply>, k: usize) -> (r: Option<Step>)
    requires
        k <= replies@.len(),
    ensures
        match r {
            None => activation_done(replies@, k as int),
            Some(step) => !activation_done(replies@, k as int) && activation_step(deck_id, replies@, k as int, step),
        },
{
    if replies.len() == k {
        return Some(ask(Request::ActiveDeckId));
    }
    match &replies[k] {
        Reply::Id(Some(_)) => None,
        Reply::Id(None) => {
            if replies.len() == k + 1 {
                return Some(ask(Request::SetActiveDeck(deck_id)));
            }
            match &replies[k + 1] {
                Reply::Done => None,
                Reply::Failed(e) => Some(fail_on("failed to set active deck", e)),
                _ => Some(fail_unexpected()),
            }
        },
        Reply::Failed(e) => Some(fail_on("failed to read active deck", e)),
        _ => Some(fail_unexpected()),
    }
}

/// The counters of an import, as written after the deck name.
pub open spec fn counts_text(s: ImportSummary) -> Seq<char> {
    " input="@ + nat_text(s.input_count as nat) + " inserted="@ + nat_text(s.inserted as nat) + " updated="@
        + nat_text(s.updated as nat) + " merged="@ + nat_text(s.merged as nat) + " skipped="@
        + nat_text(s.skipped as nat)
}

pub fn counts_line(lead: &str, deck_name: &str, s: &ImportSummary) -> (line: String)
    ensures
        line@ == lead@ + deck_name@ + counts_text(*s),
{
    let mut line = cat(lead, deck_name);
    line.append(" input=");
    line.append(usize_text(s.input_count).as_str());
    line.append(" inserted=");
    line.append(usize_text(s.inserted).as_str());
    line.append(" updated=");
    line.append(usize_text(s.updated).as_str());
    line.append(" merged=");
    line.append(usize_text(s.merged).as_str());
    line.append(" skipped=");
    line.append(usize_text(s.skipped).as_str());
    line
}

/// An import's summary line names each counter by its own label: after the
/// lead and the deck name come `input=`, `inserted=` and `updated=` with the
/// input count and the inserted and updated counters, and the line ends with
/// `merged=` and `skipped=` followed by the merged and skipped counters.
pub proof fn lemma_counts_line_labels_each_counter(lead: Seq<char>, deck_name: Seq<char>, s: ImportSummary)
    ensures
        has_prefix(lead + deck_name + counts_text(s), lead + deck_name),
        has_prefix(
            counts_text(s),
            " input="@ + nat_text(s.input_count as nat) + " inserted="@ + nat_text(s.inserted as nat)
                + " updated="@ + nat_text(s.updated as nat),
        ),
        ends_with(
            lead + deck_name + counts_text(s),
            " merged="@ + nat_text(s.merged as nat) + " skipped="@ + nat_text(s.skipped as nat),
        ),
{
    let head = lead + deck_name;
    let line = head + counts_text(s);
    let front = " input="@ + nat_text(s.input_count as nat) + " inserted="@ + nat_text(s.inserted as nat)
        + " updated="@ + nat_text(s.updated as nat);
    let back = " merged="@ + nat_text(s.merged as nat) + " skipped="@ + nat_text(s.skipped as nat);
    assert(counts_text(s) =~= front + back);
    assert(line.subrange(0, head.len() as int) =~= head);
    assert(counts_text(s).subrange(0, front.len() as int) =~= front);
    assert(line.subrange(line.len() - back.len(), line.len() as int) =~= back);
}

/// The end of an import into `deck` from reply `k` on.
pub open spec fn imported_spec(deck: Deck, summary: ImportSummary, json: bool, rs: Seq<Reply>, k: int, r: Step) -> bool {
    if !activation_done(rs, k) {
        activation_step(deck.id, rs, k, r)
    } else if json {
        r matches Step::Finish(Outcome::Json(Response::Import(resp))) && import_response_spec(deck, summary, resp)
    } else {
        prints(r, seq!["Imported deck="@ + deck.name@ + counts_text(summary)])
    }
}

fn imported(deck: &Deck, summary: &ImportSummary, json: bool, replies: &Vec<Reply>, k: usize) -> (r: Step)
    requires
        k <= replies@.len(),
    ensures
        imported_spec(*deck, *summary, json, replies@, k as int, r),
{
    match activate(deck.id, replies, k) {
        Some(step) => step,
        None => {
            if json {
                answer(Response::Import(ImportResponse::new(deck, summary)))
            } else {
                print_line(counts_line("Imported deck=", deck.name.as_str(), summary))
            }
        },
    }
}

/// Writing the cards read into the target, from reply 1 on.
pub open spec fn persist_spec(target: ImportTarget, strategy: DuplicateStrategy, json: bool, rs: Seq<Reply>, r: Step) -> bool {
    if rs.len() == 1 {
        r == Step::Ask(Request::OpenStorage)
    } else if !(rs[1] is Opened) {
        open_fails(rs[1], r)
    } else {
        match target {
            ImportTarget::ExistingDeck(id) => if rs.len() == 2 {
                r == Step::Ask(Request::DeckById(id))
            } else {
                match rs[2] {
                    Reply::Deck(Some(deck)) => if rs.len() == 3 {
                        r == Step::Ask(Request::ImportInto { deck_id: id, strategy })
                    } else {
                        match rs[3] {
                            Reply::Summary(s) => imported_spec(deck, s, json, rs, 4, r),
                            Reply::Failed(e) => breaks(r, "failed to write imported cards"@, error_chain(e)),
                            _ => unexpected(r),
                        }
                    },
                    Reply::Deck(None) => breaks(
                        r,
                        "deck not found: "@ + int_text(id as int) + ". Run `fishword deck create <name>` first."@,
                        Seq::empty(),
                    ),
                    Reply::Failed(e) => breaks(r, "failed to read deck "@ + int_text(id as int), error_chain(e)),
                    _ => unexpected(r),
                }
            },
            ImportTarget::CreateDeck(name) => if rs.len() == 2 {
                r matches Step::Ask(Request::ImportIntoNewDeck { name: n, description: None, strategy: st, catalog_id: None })
                    && n@ == name@ && st == strategy
            } else {
                match rs[2] {
                    Reply::Imported(deck, s) => imported_spec(deck, s, json, rs, 3, r),
                    Reply::Failed(Error::AlreadyExists(_)) => breaks(
                        r,
                        "Deck already exists: "@ + name@
                            + ". Use `fishword deck list` to find its id, then import with `--deck-id <id>`."@,
                        Seq::empty(),
                    ),
                    Reply::Failed(e) => breaks(r, "failed to write imported cards"@, error_chain(e)),
                    _ => unexpected(r),
                }
            },
        }
    }
}

/// `import jsonl`.
pub open spec fn import_cmd_spec(cmd: ImportCmd, rs: Seq<Reply>, r: Step) -> bool {
    match cmd {
        ImportCmd::Jsonl(args) => match target_of(args.deck_id, args.create_deck) {
            None => breaks(r, "pass exactly one of --deck-id or --create-deck"@, Seq::empty()),
            Some(target) => if rs.len() == 0 {
                r matches Step::Ask(Request::ReadImportFile(p)) && p@ == args.path@
            } else {
                match rs[0] {
                    Reply::CardsRead(_) => match parse_duplicate_strategy(args.duplicates@) {
                        Err(_) => refuses(
                            r,
                            "invalid_duplicate_strategy"@,
                            "invalid --duplicates value '"@ + args.duplicates@ + "'"@,
                        ),
                        Ok(strategy) => persist_spec(target, strategy, args.json, rs, r),
                    },
                    Reply::Failed(e) => breaks(r, "failed to parse "@ + args.path@, error_chain(e)),
                    _ => unexpected(r),
                }
            },
        },
    }
}

fn persist_import(target: &ImportTarget, strategy: DuplicateStrategy, json: bool, replies: &Vec<Reply>) -> (r: Step)
    requires
        replies@.len() >= 1,
    ensures
        persist_spec(*target, strategy, json, replies@, r),
{
    if replies.len() == 1 {
        return ask(Request::OpenStorage);
    }
    match &replies[1] {
        Reply::Opened(_) => {},
        other => return open_failure(other),
    }
    match target {
        ImportTarget::ExistingDeck(id) => {
            if replies.len() == 2 {
                return ask(Request::DeckById(*id));
            }
            match &replies[2] {
                Reply::Deck(Some(deck)) => {
                    if replies.len() == 3 {
                        return ask(Request::ImportInto { deck_id: *id, strategy });
                    }
                    match &replies[3] {
                        Reply::Summary(s) => imported(deck, s, json, replies, 4),
                        Reply::Failed(e) => fail_on("failed to write imported cards", e),
                        _ => fail_unexpected(),
                    }
                },
                Reply::Deck(None) => {
                    let mut context = cat("deck not found: ", i64_text(*id).as_str());
                    context.append(". Run `fishword deck create <name>` first.");
                    fail(context.as_str())
                },
                Reply::Failed(e) => fail_on(cat("failed to read deck ", i64_text(*id).as_str()).as_str(), e),
                _ => fail_unexpected(),
            }
        },
        ImportTarget::CreateDeck(name) => {
            if replies.len() == 2 {
                return ask(
                    Request::ImportIntoNewDeck { name: name.clone(), description: None, strategy, catalog_id: None },
                );
            }
            import_into_new_deck(name.as_str(), json, replies)
        },
    }
}

fn import_into_new_deck(name: &str, json: bool, replies: &Vec<Reply>) -> (r: Step)
    requires
        replies@.len() >= 3,
    ensures
        match replies@[2] {
            Reply::Imported(deck, s) => imported_spec(deck, s, json, replies@, 3, r),
            Reply::Failed(Error::AlreadyExists(_)) => breaks(
                r,
                "Deck already exists: "@ + name@
                    + ". Use `fishword deck list` to find its id, then import with `--deck-id <id>`."@,
                Seq::empty(),
            ),
            Reply::Failed(e) => breaks(r, "failed to write imported cards"@, error_chain(e)),
            _ => unexpected(r),
        },
{
    match &replies[2] {
        Reply::Imported(deck, s) => imported(deck, s, json, replies, 3),
        Reply::Failed(Error::AlreadyExists(_)) => {
            let mut context = cat("Deck already exists: ", name);
            context.append(". Use `fishword deck list` to find its id, then import with `--deck-id <id>`.");
            fail(context.as_str())
        },
        Reply::Failed(e) => fail_on("failed to write imported cards", e),
        _ => fail_unexpected(),
    }
}

/// Runs `import jsonl` one step: check the target, read the file, check the
/// duplicate strategy, write the cards, activate the deck if none is active.
pub fn cmd_import(command: &ImportCmd, replies: &Vec<Reply>) -> (r: Step)
    ensures
        import_cmd_spec(*command, replies@, r),
{
    let ImportCmd::Jsonl(args) = command;
    let target = match ImportTarget::from_args(args) {
        Some(t) => t,
        None => return fail("pass exactly one of --deck-id or --create-deck"),
    };
    if replies.len() == 0 {
        return ask(Request::ReadImportFile(args.path.clone()));
    }
    match &replies[0] {
        Reply::CardsRead(_) => {},
        Reply::Failed(e) => return fail_on(cat("failed to parse ", args.path.as_str()).as_str(), e),
        _ => return fail_unexpected(),
    }
    let strategy = match DuplicateStrategy::parse(args.duplicates.as_str()) {
        Ok(s) => s,
        Err(_) => {
            let mut message = cat("invalid --duplicates value '", args.duplicates.as_str());
            message.append("'");
            return refuse("invalid_duplicate_strategy", message.as_str());
        },
    };
    let r = persist_import(&target, strategy, args.json, replies);
    proof {
        match (target, target_of(args.deck_id, args.create_deck)) {
            (ImportTarget::CreateDeck(a), Some(ImportTarget::CreateDeck(b))) => {
                assert(a@ == b@);
            },
            _ => {},
        }
    }
    r
}

/// `init`: open (creating) the database and say where it is.
pub open spec fn init_spec(rs: Seq<Reply>, r: Step) -> bool {
    if rs.len() == 0 {
        r == Step::Ask(Request::OpenStorage)
    } else {
        match rs[0] {
            Reply::Opened(path) => prints(r, seq!["Initialized: "@ + path@]),
            Reply::OpenFailed(path, e) => breaks(r, "cannot initialize database at "@ + path@, error_chain(e)),
            Reply::Failed(e) => breaks(r, "cannot determine data directory"@, error_chain(e)),
            _ => unexpected(r),
        }
    }
}

/// Runs `init` one step.
pub fn cmd_init(replies: &Vec<Reply>) -> (r: Step)
    ensures
        init_spec(replies@, r),
{
    if replies.len() == 0 {
        return ask(Request::OpenStorage);
    }
    match &replies[0] {
        Reply::Opened(path) => print_line(cat("Initialized: ", path.as_str())),
        Reply::OpenFailed(path, e) => fail_on(cat("cannot initialize database at ", path.as_str()).as_str(), e),
        Reply::Failed(e) => fail_on("cannot determine data directory", e),
        _ => fail_unexpected(),
    }
}

} // verus!
