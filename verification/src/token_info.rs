//! A token as the token-listing service describes it.

use vstd::prelude::*;

verus! {

/// A listed token.
#[derive(Clone, Debug)]
pub struct TokenListItemFS {
    pub user_id: String,
    pub name: String,
    pub token_name: String,
    pub token_symbol: String,
    pub logo: String,
    pub description: String,
    pub created_at: String,
    /// Empty where the listing has no link.
    pub link: String,
}

} // verus!
