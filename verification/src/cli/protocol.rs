//! Protocol responses of the deck management, card listing, import and
//! catalog commands.

use vstd::prelude::*;
use crate::card::{Card, Source};
use crate::deck::Deck;
use crate::importer::ImportSummary;
use crate::protocol::{deck_fields, opt_view, protocol_card, protocol_card_spec, shown_name, DeckFields, ProtocolCard};
use crate::text::{cat, copy_opt, i64_text, int_text};

verus! {

pub const IMPORT_SCHEMA: &'static str = "fishword.protocol.import.v1";
pub const CARDS_SCHEMA: &'static str = "fishword.protocol.cards.v1";
pub const DECK_CREATE_SCHEMA: &'static str = "fishword.protocol.deck_create.v1";
pub const DECK_DELETE_SCHEMA: &'static str = "fishword.protocol.deck_delete.v1";
pub const DECK_RENAME_SCHEMA: &'static str = "fishword.protocol.deck_rename.v1";
pub const CATALOG_LIST_SCHEMA: &'static str = "fishword.protocol.catalog_list.v1";
pub const CATALOG_FETCH_SCHEMA: &'static str = "fishword.protocol.catalog_fetch.v1";

/// What an import did to which deck.
#[derive(Debug)]
pub struct ImportResponse {
    pub schema: &'static str,
    pub deck_id: i64,
    pub deck: String,
    pub input: usize,
    pub inserted: usize,
    pub updated: usize,
    pub merged: usize,
    pub skipped: usize,
}

/// One deck of the online catalog.
#[derive(Debug)]
pub struct CatalogDeckEntry {
    pub id: String,
    pub slug: String,
    pub source_id: String,
    pub name: String,
    pub description: Option<String>,
    pub language: String,
    pub word_count: u64,
    pub tags: Vec<String>,
    pub source: Option<Source>,
    pub url: String,
    pub size_bytes: u64,
}

#[derive(Debug)]
pub struct CatalogListResponse {
    pub schema: &'static str,
    pub decks: Vec<CatalogDeckEntry>,
}

#[derive(Debug)]
pub struct CatalogFetchResponse {
    pub schema: &'static str,
    pub catalog_id: String,
    pub slug: String,
    pub source_id: String,
    pub name: String,
    pub import: ImportResponse,
}

/// One page of a deck's cards.
#[derive(Debug)]
pub struct CardListResponse {
    pub schema: &'static str,
    pub deck: DeckFields,
    pub page: i64,
    pub page_size: i64,
    pub total: i64,
    pub cards: Vec<ProtocolCard>,
}

/// A deck that was created, deleted or renamed.
#[derive(Debug)]
pub struct DeckCreateResponse {
    pub schema: &'static str,
    pub id: i64,
    pub name: String,
    pub description: Option<String>,
    pub message: String,
}

#[derive(Debug)]
pub struct DeckDeleteResponse {
    pub schema: &'static str,
    pub id: i64,
    pub name: String,
    pub message: String,
}

#[derive(Debug)]
pub struct DeckRenameResponse {
    pub schema: &'static str,
    pub id: i64,
    pub name: String,
    pub message: String,
}

/// The import response for `summary` of an import into `deck`.
pub open spec fn import_response_spec(deck: Deck, summary: ImportSummary, r: ImportResponse) -> bool {
    &&& r.schema@ == IMPORT_SCHEMA@
    &&& r.deck_id == deck.id
    &&& r.deck@ == deck.name@
    &&& r.input == summary.input_count
    &&& r.inserted == summary.inserted
    &&& r.updated == summary.updated
    &&& r.merged == summary.merged
    &&& r.skipped == summary.skipped
}

impl ImportResponse {
    pub fn new(deck: &Deck, summary: &ImportSummary) -> (r: ImportResponse)
        ensures
            import_response_spec(*deck, *summary, r),
    {
        ImportResponse {
            schema: IMPORT_SCHEMA,
            deck_id: deck.id,
            deck: deck.name.clone(),
            input: summary.input_count,
            inserted: summary.inserted,
            updated: summary.updated,
            merged: summary.merged,
            skipped: summary.skipped,
        }
    }
}

/// The card list response for one page of `deck`.
pub open spec fn card_list_spec(deck: Deck, cards: Seq<Card>, page: i64, page_size: i64, total: i64, r: CardListResponse) -> bool {
    &&& r.schema@ == CARDS_SCHEMA@
    &&& r.deck.id@ == deck.name@
    &&& r.deck.name@ == shown_name(deck)
    &&& r.deck.db_id == deck.id
    &&& r.page == page
    &&& r.page_size == page_size
    &&& r.total == total
    &&& r.cards@.len() == cards.len()
    &&& forall|i: int| 0 <= i < cards.len() ==> protocol_card_spec(cards[i], deck, #[trigger] r.cards@[i])
}

impl CardListResponse {
    pub fn new(deck: &Deck, cards: Vec<Card>, page: i64, page_size: i64, total: i64) -> (r: CardListResponse)
        ensures
            card_list_spec(*deck, cards@, page, page_size, total, r),
    {
        let mut items: Vec<ProtocolCard> = Vec::new();
        let mut i: usize = 0;
        while i < cards.len()
            invariant
                i <= cards.len(),
                items@.len() == i,
                forall|j: int| 0 <= j < i ==> protocol_card_spec(cards@[j], *deck, #[trigger] items@[j]),
            decreases cards.len() - i,
        {
            items.push(protocol_card(&cards[i], deck));
            i = i + 1;
        }
        CardListResponse { schema: CARDS_SCHEMA, deck: deck_fields(deck), page, page_size, total, cards: items }
    }
}

/// The response of `deck create`.
pub open spec fn deck_create_spec(deck: Deck, r: DeckCreateResponse) -> bool {
    &&& r.schema@ == DECK_CREATE_SCHEMA@
    &&& r.id == deck.id
    &&& r.name@ == deck.name@
    &&& opt_view(r.description) == opt_view(deck.description)
    &&& r.message@ == "Created deck: "@ + deck.name@ + " (id="@ + int_text(deck.id as int) + ")"@
}

impl DeckCreateResponse {
    pub fn new(deck: &Deck) -> (r: DeckCreateResponse)
        ensures
            deck_create_spec(*deck, r),
    {
        let mut message = cat("Created deck: ", deck.name.as_str());
        message.append(" (id=");
        message.append(i64_text(deck.id).as_str());
        message.append(")");
        DeckCreateResponse {
            schema: DECK_CREATE_SCHEMA,
            id: deck.id,
            name: deck.name.clone(),
            description: copy_opt(&deck.description),
            message,
        }
    }
}

/// The response of `deck delete`.
pub open spec fn deck_delete_spec(deck: Deck, r: DeckDeleteResponse) -> bool {
    &&& r.schema@ == DECK_DELETE_SCHEMA@
    &&& r.id == deck.id
    &&& r.name@ == deck.name@
    &&& r.message@ == "Deleted deck: "@ + deck.name@ + " (id="@ + int_text(deck.id as int) + ")"@
}

impl DeckDeleteResponse {
    pub fn new(deck: &Deck) -> (r: DeckDeleteResponse)
        ensures
            deck_delete_spec(*deck, r),
    {
        let mut message = cat("Deleted deck: ", deck.name.as_str());
        message.append(" (id=");
        message.append(i64_text(deck.id).as_str());
        message.append(")");
        DeckDeleteResponse { schema: DECK_DELETE_SCHEMA, id: deck.id, name: deck.name.clone(), message }
    }
}

/// The response of `deck rename`.
pub open spec fn deck_rename_spec(deck: Deck, r: DeckRenameResponse) -> bool {
    &&& r.schema@ == DECK_RENAME_SCHEMA@
    &&& r.id == deck.id
    &&& r.name@ == deck.name@
    &&& r.message@ == "Renamed deck "@ + int_text(deck.id as int) + " to: "@ + deck.name@
}

impl DeckRenameResponse {
    pub fn new(deck: &Deck) -> (r: DeckRenameResponse)
        ensures
            deck_rename_spec(*deck, r),
    {
        let mut message = cat("Renamed deck ", i64_text(deck.id).as_str());
        message.append(" to: ");
        message.append(deck.name.as_str());
        DeckRenameResponse { schema: DECK_RENAME_SCHEMA, id: deck.id, name: deck.name.clone(), message }
    }
}

} // verus!
