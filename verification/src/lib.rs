//! Verified core of the fishword vocabulary trainer: card and deck model,
//! deck.v1 import rules, the deck-scoped card selection policy, review
//! scheduling bookkeeping, protocol responses and the command decisions of
//! the command-line front end.

pub mod text;
pub mod error;
pub mod deck;
pub mod card;
pub mod clock;
pub mod storage;
pub mod selector;
pub mod scheduler;
pub mod importer;
pub mod protocol;
pub mod cli;
