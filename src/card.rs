pub mod ability;
pub mod ancient_trait;
pub mod attack;
pub mod image;
pub mod legality;
pub mod resistance;
pub mod weakness;

use crate::client::{entity_url, opt_text, params_view, search_params, search_query_params, segment, Resource};
use vstd::prelude::*;
use vstd::string::StringExecFns;

verus! {

/// A request for a single card by its identifier.
pub struct GetCardRequest {
    pub id: String,
}

impl GetCardRequest {
    pub fn new(id: &str) -> (r: Self)
        ensures
            r.id@ == id@,
    {
        GetCardRequest { id: String::from_str(id) }
    }

    /// The URL that fetches this card: `{base_url}/cards/{id}`.
    pub fn url(&self, base_url: &str) -> (r: String)
        ensures
            r@ == base_url@ + "/"@ + segment(Resource::Cards) + "/"@ + self.id@,
    {
        entity_url(base_url, Resource::Cards, self.id.as_str())
    }
}

/// A search among the cards.
pub struct SearchCardsRequest {
    /// The search query.
    pub query: Option<String>,
    /// The page of data to access.
    pub page: Option<u16>,
    /// The maximum number of cards to return, at most 250.
    pub page_size: Option<u8>,
    /// The field(s) to order the results by.
    pub order_by: Option<String>,
}

impl SearchCardsRequest {
    /// A search with the given query, and no page, page size or order.
    pub fn new(query: &str) -> (r: Self)
        ensures
            opt_text(r.query) == Some(query@),
            r.page is None,
            r.page_size is None,
            r.order_by is None,
    {
        SearchCardsRequest { query: Some(String::from_str(query)), page: None, page_size: None, order_by: None }
    }

    /// The query parameters this search sends; those that are not set are left out.
    pub fn query_params(&self) -> (r: Vec<(String, String)>)
        ensures
            params_view(r@) == search_params(self.query, self.page, self.page_size, self.order_by),
    {
        search_query_params(&self.query, self.page, self.page_size, &self.order_by)
    }
}

} // verus!
