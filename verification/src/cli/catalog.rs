//! `fishword catalog`: list the online catalog, or download one of its decks
//! and import it.

use vstd::prelude::*;
use crate::card::copy_source;
use crate::cli::args::CatalogCmd;
use crate::cli::import::{activate, activation_done, activation_step, counts_line, counts_text};
use crate::cli::protocol::{
    import_response_spec, CatalogDeckEntry, CatalogFetchResponse, CatalogListResponse, ImportResponse,
    CATALOG_FETCH_SCHEMA, CATALOG_LIST_SCHEMA,
};
use crate::cli::step::{
    answer, ask, breaks, error_chain, fail_on, fail_unexpected, fail_with, fails, open_failure, open_fails,
    print_line, print_lines, prints, refuse, refuses, unexpected, CommandError, FetchFailure, Outcome,
    ProtocolError, Reply, Request, Response, Step,
};
use crate::deck::Deck;
use crate::error::Error;
use crate::importer::{parse_duplicate_strategy, DuplicateStrategy, ImportSummary};
use crate::protocol::opt_view;
use crate::text::{
    cat, copy_opt, copy_strings, join, join_seq, nat_text, pad_left, pad_left_seq, pad_right, pad_right_seq,
    push_repeat, repeat_seq, same, u64_text, views,
};

verus! {

impl CatalogDeckEntry {
    /// A copy of this entry.
    pub fn copy(&self) -> (r: CatalogDeckEntry)
        ensures
            same_entry(r, *self),
    {
        CatalogDeckEntry {
            id: self.id.clone(),
            slug: self.slug.clone(),
            source_id: self.source_id.clone(),
            name: self.name.clone(),
            description: copy_opt(&self.description),
            language: self.language.clone(),
            word_count: self.word_count,
            tags: copy_strings(&self.tags),
            source: copy_source(&self.source),
            url: self.url.clone(),
            size_bytes: self.size_bytes,
        }
    }
}

/// Two catalog entries hold the same data.
pub open spec fn same_entry(a: CatalogDeckEntry, b: CatalogDeckEntry) -> bool {
    &&& a.id == b.id
    &&& a.slug == b.slug
    &&& a.source_id == b.source_id
    &&& a.name == b.name
    &&& a.description == b.description
    &&& a.language == b.language
    &&& a.word_count == b.word_count
    &&& a.tags@ == b.tags@
    &&& a.source == b.source
    &&& a.url == b.url
    &&& a.size_bytes == b.size_bytes
}

/// The header of the catalog table.
pub open spec fn catalog_header() -> Seq<char> {
    pad_right_seq("ID"@, 16) + " "@ + pad_right_seq("Name"@, 12) + " "@ + pad_left_seq("Words"@, 6) + "  "@
        + pad_right_seq("Source"@, 18) + " Tags"@
}

/// The table row of a catalog entry.
pub open spec fn catalog_row(e: CatalogDeckEntry) -> Seq<char> {
    let source = match e.source {
        Some(s) => s.name@,
        None => "-"@,
    };
    pad_right_seq(e.id@, 16) + " "@ + pad_right_seq(e.name@, 12) + " "@ + pad_left_seq(nat_text(e.word_count as nat), 6)
        + "  "@ + pad_right_seq(source, 18) + " "@ + join_seq(views(e.tags@), " "@)
}

/// The failure of downloading the catalog index from `url`.
pub open spec fn catalog_fails(url: Seq<char>, failure: FetchFailure, r: Step) -> bool {
    let context = "failed to fetch catalog from "@ + url;
    match failure {
        FetchFailure::Network(m) => fails(
            r,
            seq![context, "Network request failed: "@ + m@],
            Some(("network_error"@, "Network request failed: "@ + m@)),
        ),
        FetchFailure::Body(m) => fails(r, seq![context, "failed to read response body"@, m@], None),
        FetchFailure::BadCatalog(m) => fails(r, seq!["failed to parse catalog JSON"@, m@], None),
        FetchFailure::BadDeck(_) => unexpected(r),
    }
}

/// The failure of downloading catalog deck `id` from `url`.
pub open spec fn deck_file_fails(id: Seq<char>, url: Seq<char>, failure: FetchFailure, r: Step) -> bool {
    let context = "failed to download catalog deck '"@ + id + "' from "@ + url;
    match failure {
        FetchFailure::Network(m) => fails(
            r,
            seq![context, "Network request failed: "@ + m@],
            Some(("network_error"@, "Network request failed: "@ + m@)),
        ),
        FetchFailure::Body(m) => fails(r, seq![context, "failed to read response body"@, m@], None),
        FetchFailure::BadDeck(e) => breaks(r, "failed to parse JSONL for catalog deck '"@ + id + "'"@, error_chain(e)),
        FetchFailure::BadCatalog(_) => unexpected(r),
    }
}

/// `catalog list`.
pub open spec fn list_spec(json: bool, rs: Seq<Reply>, r: Step) -> bool {
    if rs.len() == 0 {
        r == Step::Ask(Request::FetchCatalog)
    } else {
        match rs[0] {
            Reply::Catalog(entries) => if json {
                r matches Step::Finish(Outcome::Json(Response::Catalog(resp))) && {
                    &&& resp.schema@ == CATALOG_LIST_SCHEMA@
                    &&& resp.decks@.len() == entries@.len()
                    &&& forall|i: int| 0 <= i < entries@.len() ==> same_entry(#[trigger] resp.decks@[i], entries@[i])
                }
            } else {
                prints(r, seq![catalog_header(), repeat_seq('-', 72)]
                    + Seq::new(entries@.len(), |i: int| catalog_row(entries@[i])))
            },
            Reply::FetchFailed { url, failure } => catalog_fails(url@, failure, r),
            _ => unexpected(r),
        }
    }
}

/// The position of the first entry with id `id`, searching from `k`.
pub open spec fn find_from(entries: Seq<CatalogDeckEntry>, id: Seq<char>, k: int) -> Option<int>
    decreases entries.len() - k,
{
    if k < 0 || k >= entries.len() {
        None
    } else if entries[k].id@ == id {
        Some(k)
    } else {
        find_from(entries, id, k + 1)
    }
}

/// The message when a deck of that name exists but did not come from this
/// catalog entry.
pub open spec fn conflict_text(name: Seq<char>, id: Seq<char>) -> Seq<char> {
    "A deck named '"@ + name + "' already exists but was not created by `fishword catalog fetch "@ + id
        + "`. Refusing to merge into it to avoid mixing unrelated data. Rename or delete that deck, then retry."@
}

/// The end of `catalog fetch` once the cards are in `deck`.
pub open spec fn fetch_done_spec(
    id: Seq<char>,
    entry: CatalogDeckEntry,
    deck: Deck,
    summary: ImportSummary,
    json: bool,
    rs: Seq<Reply>,
    r: Step,
) -> bool {
    if !activation_done(rs, 5) {
        activation_step(deck.id, rs, 5, r)
    } else if json {
        r matches Step::Finish(Outcome::Json(Response::CatalogFetch(resp))) && {
            &&& resp.schema@ == CATALOG_FETCH_SCHEMA@
            &&& resp.catalog_id@ == id
            &&& resp.slug@ == entry.slug@
            &&& resp.source_id@ == entry.source_id@
            &&& resp.name@ == deck.name@
            &&& import_response_spec(deck, summary, resp.import)
        }
    } else {
        prints(r, seq!["Fetched deck="@ + deck.name@ + counts_text(summary)])
    }
}

/// `catalog fetch` once the entry is found: download its deck file, then
/// import into the deck fetched from the same entry before, or a new deck.
pub open spec fn fetched_spec(
    id: Seq<char>,
    entry: CatalogDeckEntry,
    strategy: DuplicateStrategy,
    json: bool,
    rs: Seq<Reply>,
    r: Step,
) -> bool {
    if rs.len() == 1 {
        r matches Step::Ask(Request::FetchDeckFile(u)) && u@ == entry.url@
    } else {
        match rs[1] {
            Reply::CardsRead(_) => if rs.len() == 2 {
                r == Step::Ask(Request::OpenStorage)
            } else if !(rs[2] is Opened) {
                open_fails(rs[2], r)
            } else if rs.len() == 3 {
                r matches Step::Ask(Request::DeckByCatalogId(c)) && c@ == id
            } else {
                match rs[3] {
                    Reply::Deck(Some(existing)) => if rs.len() == 4 {
                        r == Step::Ask(Request::ImportInto { deck_id: existing.id, strategy })
                    } else {
                        match rs[4] {
                            Reply::Summary(s) => fetch_done_spec(id, entry, existing, s, json, rs, r),
                            Reply::Failed(e) => breaks(r, "failed to import cards"@, error_chain(e)),
                            _ => unexpected(r),
                        }
                    },
                    Reply::Deck(None) => if rs.len() == 4 {
                        r matches Step::Ask(Request::ImportIntoNewDeck { name: n, description: d, strategy: st, catalog_id: Some(c) })
                            && n@ == entry.name@ && opt_view(d) == opt_view(entry.description) && st == strategy && c@ == id
                    } else {
                        match rs[4] {
                            Reply::Imported(deck, s) => fetch_done_spec(id, entry, deck, s, json, rs, r),
                            Reply::Failed(Error::AlreadyExists(_)) => refuses(r, "deck_name_conflict"@, conflict_text(entry.name@, id)),
                            Reply::Failed(e) => breaks(r, "failed to write imported cards"@, error_chain(e)),
                            _ => unexpected(r),
                        }
                    },
                    Reply::Failed(e) => breaks(r, "failed to look up existing catalog deck"@, error_chain(e)),
                    _ => unexpected(r),
                }
            },
            Reply::FetchFailed { url: _, failure } => deck_file_fails(id, entry.url@, failure, r),
            _ => unexpected(r),
        }
    }
}

/// `catalog fetch`.
pub open spec fn fetch_spec(id: Seq<char>, duplicates: Seq<char>, json: bool, rs: Seq<Reply>, r: Step) -> bool {
    match parse_duplicate_strategy(duplicates) {
        Err(_) => refuses(r, "invalid_duplicate_strategy"@, "invalid --duplicates value '"@ + duplicates + "'"@),
        Ok(strategy) => if rs.len() == 0 {
            r == Step::Ask(Request::FetchCatalog)
        } else {
            match rs[0] {
                Reply::Catalog(entries) => match find_from(entries@, id, 0) {
                    None => refuses(
                        r,
                        "deck_not_found"@,
                        "Catalog deck '"@ + id + "' not found. Run `fishword catalog list` to see available decks."@,
                    ),
                    Some(i) => fetched_spec(id, entries@[i], strategy, json, rs, r),
                },
                Reply::FetchFailed { url, failure } => catalog_fails(url@, failure, r),
                _ => unexpected(r),
            }
        },
    }
}

/// What a `catalog` subcommand does next.
pub open spec fn catalog_spec(sub: CatalogCmd, rs: Seq<Reply>, r: Step) -> bool {
    match sub {
        CatalogCmd::List { json } => list_spec(json, rs, r),
        CatalogCmd::Fetch { catalog_id, duplicates, json } => fetch_spec(catalog_id@, duplicates@, json, rs, r),
    }
}

/// Runs a `catalog` subcommand one step.
pub fn cmd_catalog(sub: &CatalogCmd, replies: &Vec<Reply>) -> (r: Step)
    ensures
        catalog_spec(*sub, replies@, r),
{
    match sub {
        CatalogCmd::List { json } => catalog_list(*json, replies),
        CatalogCmd::Fetch { catalog_id, duplicates, json } => catalog_fetch(catalog_id.as_str(), duplicates.as_str(), *json, replies),
    }
}

/// Fails with `chain`, and the network protocol error when `network` holds
/// the failed request's message.
fn network_failure(context: &str, failure: &FetchFailure) -> (r: Step)
    ensures
        match failure {
            FetchFailure::Network(m) => fails(
                r,
                seq![context@, "Network request failed: "@ + m@],
                Some(("network_error"@, "Network request failed: "@ + m@)),
            ),
            FetchFailure::Body(m) => fails(r, seq![context@, "failed to read response body"@, m@], None),
            _ => unexpected(r),
        },
{
    match failure {
        FetchFailure::Network(m) => {
            let message = cat("Network request failed: ", m.as_str());
            let mut chain: Vec<String> = Vec::new();
            chain.push(String::from_str(context));
            chain.push(message.clone());
            proof {
                assert(views(chain@) =~= seq![context@, message@]);
            }
            Step::Finish(Outcome::Fail(CommandError {
                chain,
                protocol: Some(ProtocolError::new("network_error", message.as_str())),
            }))
        },
        FetchFailure::Body(m) => {
            let mut cause: Vec<String> = Vec::new();
            cause.push(String::from_str("failed to read response body"));
            cause.push(m.clone());
            proof {
                assert(views(cause@) =~= seq!["failed to read response body"@, m@]);
                assert(seq![context@] + views(cause@) =~= seq![context@, "failed to read response body"@, m@]);
            }
            fail_with(context, cause)
        },
        _ => fail_unexpected(),
    }
}

fn catalog_failure(url: &str, failure: &FetchFailure) -> (r: Step)
    ensures
        catalog_fails(url@, *failure, r),
{
    match failure {
        FetchFailure::BadCatalog(m) => {
            let mut cause: Vec<String> = Vec::new();
            cause.push(m.clone());
            proof {
                assert(views(cause@) =~= seq![m@]);
                assert(seq!["failed to parse catalog JSON"@] + views(cause@) =~= seq!["failed to parse catalog JSON"@, m@]);
            }
            fail_with("failed to parse catalog JSON", cause)
        },
        FetchFailure::BadDeck(_) => fail_unexpected(),
        _ => network_failure(cat("failed to fetch catalog from ", url).as_str(), failure),
    }
}

fn deck_file_failure(id: &str, url: &str, failure: &FetchFailure) -> (r: Step)
    ensures
        deck_file_fails(id@, url@, *failure, r),
{
    match failure {
        FetchFailure::BadDeck(e) => {
            let mut context = cat("failed to parse JSONL for catalog deck '", id);
            context.append("'");
            fail_on(context.as_str(), e)
        },
        FetchFailure::BadCatalog(_) => fail_unexpected(),
        _ => {
            let mut context = cat("failed to download catalog deck '", id);
            context.append("' from ");
            context.append(url);
            network_failure(context.as_str(), failure)
        },
    }
}

fn header() -> (s: String)
    ensures
        s@ == catalog_header(),
{
    let mut s = pad_right("ID", 16);
    s.append(" ");
    s.append(pad_right("Name", 12).as_str());
    s.append(" ");
    s.append(pad_left("Words", 6).as_str());
    s.append("  ");
    s.append(pad_right("Source", 18).as_str());
    s.append(" Tags");
    s
}

fn row(e: &CatalogDeckEntry) -> (s: String)
    ensures
        s@ == catalog_row(*e),
{
    let mut s = pad_right(e.id.as_str(), 16);
    s.append(" ");
    s.append(pad_right(e.name.as_str(), 12).as_str());
    s.append(" ");
    s.append(pad_left(u64_text(e.word_count).as_str(), 6).as_str());
    s.append("  ");
    let source = match &e.source {
        Some(src) => src.name.as_str(),
        None => "-",
    };
    s.append(pad_right(source, 18).as_str());
    s.append(" ");
    s.append(join(&e.tags, " ").as_str());
    s
}

fn catalog_list(json: bool, replies: &Vec<Reply>) -> (r: Step)
    ensures
        list_spec(json, replies@, r),
{
    if replies.len() == 0 {
        return ask(Request::FetchCatalog);
    }
    match &replies[0] {
        Reply::Catalog(entries) => {
            if json {
                let mut decks: Vec<CatalogDeckEntry> = Vec::new();
                let mut i: usize = 0;
                while i < entries.len()
                    invariant
                        i <= entries.len(),
                        decks@.len() == i,
                        forall|j: int| 0 <= j < i ==> same_entry(#[trigger] decks@[j], entries@[j]),
                    decreases entries.len() - i,
                {
                    decks.push(entries[i].copy());
                    i = i + 1;
                }
                answer(Response::Catalog(CatalogListResponse { schema: CATALOG_LIST_SCHEMA, decks }))
            } else {
                let ghost expected = seq![catalog_header(), repeat_seq('-', 72)]
                    + Seq::new(entries@.len(), |i: int| catalog_row(entries@[i]));
                let mut v: Vec<String> = Vec::new();
                v.push(header());
                let mut dashes = String::new();
                push_repeat(&mut dashes, '-', 72);
                proof {
                    assert(dashes@ =~= repeat_seq('-', 72));
                }
                v.push(dashes);
                let mut i: usize = 0;
                while i < entries.len()
                    invariant
                        i <= entries.len(),
                        expected == seq![catalog_header(), repeat_seq('-', 72)]
                            + Seq::new(entries@.len(), |i: int| catalog_row(entries@[i])),
                        v@.len() == i + 2,
                        forall|j: int| 0 <= j < 2 ==> (#[trigger] v@[j])@ == expected[j],
                        forall|j: int| 0 <= j < i ==> (#[trigger] v@[j + 2])@ == catalog_row(entries@[j]),
                    decreases entries.len() - i,
                {
                    v.push(row(&entries[i]));
                    i = i + 1;
                }
                proof {
                    assert(views(v@) =~= expected) by {
                        assert forall|j: int| 0 <= j < v@.len() implies views(v@)[j] == expected[j] by {
                            if j >= 2 {
                                assert(v@[(j - 2) + 2]@ == catalog_row(entries@[j - 2]));
                            }
                        }
                    }
                }
                print_lines(v)
            }
        },
        Reply::FetchFailed { url, failure } => catalog_failure(url.as_str(), failure),
        _ => fail_unexpected(),
    }
}

/// The position of the first entry with id `id`.
fn find_entry(entries: &Vec<CatalogDeckEntry>, id: &str) -> (r: Option<usize>)
    ensures
        match r {
            Some(i) => i < entries@.len() && find_from(entries@, id@, 0) == Some(i as int),
            None => find_from(entries@, id@, 0) is None,
        },
{
    let mut k: usize = 0;
    while k < entries.len()
        invariant
            k <= entries.len(),
            find_from(entries@, id@, 0) == find_from(entries@, id@, k as int),
        decreases entries.len() - k,
    {
        if same(entries[k].id.as_str(), id) {
            return Some(k);
        }
        k = k + 1;
    }
    None
}

fn fetch_done(
    id: &str,
    entry: &CatalogDeckEntry,
    deck: &Deck,
    summary: &ImportSummary,
    json: bool,
    replies: &Vec<Reply>,
) -> (r: Step)
    requires
        replies@.len() >= 5,
    ensures
        fetch_done_spec(id@, *entry, *deck, *summary, json, replies@, r),
{
    match activate(deck.id, replies, 5) {
        Some(step) => step,
        None => {
            if json {
                answer(Response::CatalogFetch(CatalogFetchResponse {
                    schema: CATALOG_FETCH_SCHEMA,
                    catalog_id: String::from_str(id),
                    slug: entry.slug.clone(),
                    source_id: entry.source_id.clone(),
                    name: deck.name.clone(),
                    import: ImportResponse::new(deck, summary),
                }))
            } else {
                print_line(counts_line("Fetched deck=", deck.name.as_str(), summary))
            }
        },
    }
}

fn fetched(id: &str, entry: &CatalogDeckEntry, strategy: DuplicateStrategy, json: bool, replies: &Vec<Reply>) -> (r: Step)
    requires
        replies@.len() >= 1,
    ensures
        fetched_spec(id@, *entry, strategy, json, replies@, r),
{
    if replies.len() == 1 {
        return ask(Request::FetchDeckFile(entry.url.clone()));
    }
    match &replies[1] {
        Reply::CardsRead(_) => {},
        Reply::FetchFailed { url: _, failure } => return deck_file_failure(id, entry.url.as_str(), failure),
        _ => return fail_unexpected(),
    }
    if replies.len() == 2 {
        return ask(Request::OpenStorage);
    }
    match &replies[2] {
        Reply::Opened(_) => {},
        other => return open_failure(other),
    }
    if replies.len() == 3 {
        return ask(Request::DeckByCatalogId(String::from_str(id)));
    }
    match &replies[3] {
        Reply::Deck(Some(existing)) => {
            if replies.len() == 4 {
                return ask(Request::ImportInto { deck_id: existing.id, strategy });
            }
            match &replies[4] {
                Reply::Summary(s) => fetch_done(id, entry, existing, s, json, replies),
                Reply::Failed(e) => fail_on("failed to import cards", e),
                _ => fail_unexpected(),
            }
        },
        Reply::Deck(None) => {
            if replies.len() == 4 {
                return ask(Request::ImportIntoNewDeck {
                    name: entry.name.clone(),
                    description: copy_opt(&entry.description),
                    strategy,
                    catalog_id: Some(String::from_str(id)),
                });
            }
            match &replies[4] {
                Reply::Imported(deck, s) => fetch_done(id, entry, deck, s, json, replies),
                Reply::Failed(Error::AlreadyExists(_)) => {
                    let mut message = cat("A deck named '", entry.name.as_str());
                    message.append("' already exists but was not created by `fishword catalog fetch ");
                    message.append(id);
                    message.append(
                        "`. Refusing to merge into it to avoid mixing unrelated data. Rename or delete that deck, then retry.",
                    );
                    refuse("deck_name_conflict", message.as_str())
                },
                Reply::Failed(e) => fail_on("failed to write imported cards", e),
                _ => fail_unexpected(),
            }
        },
        Reply::Failed(e) => fail_on("failed to look up existing catalog deck", e),
        _ => fail_unexpected(),
    }
}

fn catalog_fetch(catalog_id: &str, duplicates: &str, json: bool, replies: &Vec<Reply>) -> (r: Step)
    ensures
        fetch_spec(catalog_id@, duplicates@, json, replies@, r),
{
    let strategy = match DuplicateStrategy::parse(duplicates) {
        Ok(s) => s,
        Err(_) => {
            let mut message = cat("invalid --duplicates value '", duplicates);
            message.append("'");
            return refuse("invalid_duplicate_strategy", message.as_str());
        },
    };
    if replies.len() == 0 {
        return ask(Request::FetchCatalog);
    }
    match &replies[0] {
        Reply::Catalog(entries) => match find_entry(entries, catalog_id) {
            None => {
                let mut message = cat("Catalog deck '", catalog_id);
                message.append("' not found. Run `fishword catalog list` to see available decks.");
                refuse("deck_not_found", message.as_str())
            },
            Some(i) => fetched(catalog_id, &entries[i], strategy, json, replies),
        },
        Reply::FetchFailed { url, failure } => catalog_failure(url.as_str(), failure),
        _ => fail_unexpected(),
    }
}

} // verus!
