//! The vocabulary of document search: a query and a fragment of a document.
use vstd::prelude::*;

verus! {

/// How many results a search returns when the query sets no limit.
pub const DEFAULT_SEARCH_LIMIT: usize = 5;

/// A query for searching documents.
#[derive(Clone, Debug)]
pub struct SearchQuery {
    /// The text searched for.
    pub text: String,
    /// The largest number of results wanted, if any.
    pub limit: Option<usize>,
    /// The sources searched, if restricted.
    pub sources: Option<Vec<String>>,
}

/// A fragment of a document found by a search.
#[derive(Clone, Debug)]
pub struct DocumentFragment {
    /// The text of the fragment.
    pub text: String,
}

/// The limit a search uses for a query: its own, or the default.
pub open spec fn search_limit(limit: Option<usize>) -> usize {
    match limit {
        Some(n) => n,
        None => DEFAULT_SEARCH_LIMIT,
    }
}

impl SearchQuery {
    /// The number of results searched for: the query's limit, or five when it sets none.
    pub fn effective_limit(&self) -> (n: usize)
        ensures
            n == search_limit(self.limit),
            self.limit matches Some(l) ==> n == l,
            self.limit is None ==> n == 5,
    {
        match self.limit {
            Some(n) => n,
            None => DEFAULT_SEARCH_LIMIT,
        }
    }
}

/// A search returns as many results as the query asks for, whatever the number, and five
/// when it asks for no number.
pub proof fn law_search_limit_is_the_requested_one(n: usize)
    ensures
        search_limit(Some(n)) == n,
        search_limit(None) == 5,
{
}

} // verus!
