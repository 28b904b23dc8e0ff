//! Decks: independent vocabulary sets, each with its own scheduling state.

use vstd::prelude::*;
use crate::text::copy_opt;

verus! {

#[derive(Debug)]
pub struct Deck {
    pub id: i64,
    pub name: String,
    pub description: Option<String>,
    pub created_at: String,
    /// Catalog deck id this deck was downloaded from, or `None` for decks
    /// created or imported by hand. Re-fetching a catalog deck merges into the
    /// deck with the same catalog id, never into one that merely shares a name.
    pub catalog_id: Option<String>,
}

impl Deck {
    /// A copy of this deck.
    pub fn copy(&self) -> (r: Deck)
        ensures
            r == *self,
    {
        Deck {
            id: self.id,
            name: self.name.clone(),
            description: copy_opt(&self.description),
            created_at: self.created_at.clone(),
            catalog_id: copy_opt(&self.catalog_id),
        }
    }
}

} // verus!
