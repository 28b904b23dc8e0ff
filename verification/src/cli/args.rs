//! The command line, as parsed.

use vstd::prelude::*;

verus! {

/// The whole command line.
#[derive(Debug)]
pub struct Cli {
    pub command: Cmd,
}

/// A command.
#[derive(Debug)]
#[allow(inconsistent_fields)]
pub enum Cmd {
    /// Initialize the database at the platform-default path.
    Init,
    /// Manage decks.
    Deck { sub: DeckCmd },
    /// Manage cards.
    Card { sub: CardCmd },
    /// Import vocabulary decks.
    Import { sub: ImportCmd },
    /// Show the current selected card.
    Current(CardOutputArgs),
    /// Show today's learning status.
    Status(StatusArgs),
    /// Show review statistics.
    Stats(StatsArgs),
    /// Rate the current card: again, hard, good, easy.
    Rate(RateArgs),
    /// Browse and download decks from the online catalog.
    Catalog { sub: CatalogCmd },
}

#[derive(Debug)]
pub enum DeckCmd {
    /// List all decks.
    List { json: bool },
    /// Create a new deck.
    Create { name: String, description: Option<String>, json: bool },
    /// Set the active deck by id.
    Use { deck: i64, json: bool },
    /// Delete a deck and all its cards.
    Delete { id: i64, json: bool },
    /// Rename a deck.
    Rename { id: i64, new_name: String, json: bool },
    /// Show the active deck.
    Current,
}

#[derive(Debug)]
pub enum CardCmd {
    /// List cards in a deck.
    List(CardListArgs),
}

#[derive(Debug)]
pub enum ImportCmd {
    /// Import fishword.deck.v1 JSONL.
    Jsonl(ImportArgs),
}

/// `import jsonl`: exactly one of `deck_id` and `create_deck` names the target.
#[derive(Debug)]
pub struct ImportArgs {
    /// Input file path.
    pub path: String,
    /// Existing deck to import into.
    pub deck_id: Option<i64>,
    /// Name of a deck to create and import into.
    pub create_deck: Option<String>,
    /// Duplicate strategy: merge, skip, overwrite, keep.
    pub duplicates: String,
    /// Emit stable JSON protocol output.
    pub json: bool,
}

#[derive(Debug)]
pub struct CardListArgs {
    /// Deck id.
    pub deck: i64,
    /// Page number, starting from 1.
    pub page: i64,
    /// Number of cards per page.
    pub page_size: i64,
    /// Emit stable JSON protocol output.
    pub json: bool,
}

#[derive(Debug)]
pub struct CardOutputArgs {
    /// Emit stable JSON protocol output.
    pub json: bool,
    /// Deck id used as the learning scope; the active deck when absent.
    pub deck: Option<i64>,
    /// Human-readable output format: plain, compact, status.
    pub format: String,
}

#[derive(Debug)]
pub struct StatusArgs {
    /// Emit stable JSON protocol output.
    pub json: bool,
    /// Deck id used as the learning scope; the active deck when absent.
    pub deck: Option<i64>,
    /// Human-readable output format: plain, compact, statusline.
    pub format: String,
}

#[derive(Debug)]
pub struct StatsArgs {
    /// Emit stable JSON protocol output.
    pub json: bool,
    /// Deck id used as the learning scope; the active deck when absent.
    pub deck: Option<i64>,
    /// Time range; `7d` is supported.
    pub range: String,
}

#[derive(Debug)]
pub struct RateArgs {
    /// Review rating: again, hard, good, easy.
    pub rating: String,
    /// Deck id used as the learning scope; the active deck when absent.
    pub deck: Option<i64>,
    /// Emit stable JSON protocol output.
    pub json: bool,
}

#[derive(Debug)]
pub enum CatalogCmd {
    /// List available decks in the online catalog.
    List { json: bool },
    /// Download and import a deck from the catalog by id.
    Fetch { catalog_id: String, duplicates: String, json: bool },
}

/// Whether a command asked for JSON output.
pub open spec fn wants_json_spec(cmd: Cmd) -> bool {
    match cmd {
        Cmd::Init => false,
        Cmd::Deck { sub } => match sub {
            DeckCmd::List { json } => json,
            DeckCmd::Create { json, .. } => json,
            DeckCmd::Use { json, .. } => json,
            DeckCmd::Delete { json, .. } => json,
            DeckCmd::Rename { json, .. } => json,
            DeckCmd::Current => false,
        },
        Cmd::Card { sub } => match sub {
            CardCmd::List(a) => a.json,
        },
        Cmd::Import { sub } => match sub {
            ImportCmd::Jsonl(a) => a.json,
        },
        Cmd::Current(a) => a.json,
        Cmd::Status(a) => a.json,
        Cmd::Stats(a) => a.json,
        Cmd::Rate(a) => a.json,
        Cmd::Catalog { sub } => match sub {
            CatalogCmd::List { json } => json,
            CatalogCmd::Fetch { json, .. } => json,
        },
    }
}

impl Cmd {
    /// Whether this command asked for JSON output; errors are then reported
    /// as protocol JSON too.
    pub fn wants_json(&self) -> (r: bool)
        ensures
            r == wants_json_spec(*self),
    {
        match self {
            Cmd::Init => false,
            Cmd::Deck { sub } => match sub {
                DeckCmd::List { json } => *json,
                DeckCmd::Create { json, .. } => *json,
                DeckCmd::Use { json, .. } => *json,
                DeckCmd::Delete { json, .. } => *json,
                DeckCmd::Rename { json, .. } => *json,
                DeckCmd::Current => false,
            },
            Cmd::Card { sub } => match sub {
                CardCmd::List(a) => a.json,
            },
            Cmd::Import { sub } => match sub {
                ImportCmd::Jsonl(a) => a.json,
            },
            Cmd::Current(a) => a.json,
            Cmd::Status(a) => a.json,
            Cmd::Stats(a) => a.json,
            Cmd::Rate(a) => a.json,
            Cmd::Catalog { sub } => match sub {
                CatalogCmd::List { json } => *json,
                CatalogCmd::Fetch { json, .. } => *json,
            },
        }
    }
}

} // verus!
