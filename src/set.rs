pub mod images;
pub mod legality;

use self::{images::SetImages, legality::Legality};
use crate::client::{entity_url, opt_text, params_view, search_params, search_query_params, segment, Resource};
use vstd::prelude::*;
use vstd::string::StringExecFns;

verus! {

/// A request for a single set by its identifier.
pub struct GetSetRequest {
    pub id: String,
}

impl GetSetRequest {
    pub fn new(id: &str) -> (r: Self)
        ensures
            r.id@ == id@,
    {
        GetSetRequest { id: String::from_str(id) }
    }

    /// The URL that fetches this set: `{base_url}/sets/{id}`.
    pub fn url(&self, base_url: &str) -> (r: String)
        ensures
            r@ == base_url@ + "/"@ + segment(Resource::Sets) + "/"@ + self.id@,
    {
        entity_url(base_url, Resource::Sets, self.id.as_str())
    }
}

/// A search among the sets.
pub struct SearchSetsRequest {
    /// The search query.
    pub query: Option<String>,
    /// The page of data to access.
    pub page: Option<u16>,
    /// The maximum number of sets to return, at most 250.
    pub page_size: Option<u8>,
    /// The field(s) to order the results by.
    pub order_by: Option<String>,
}

impl SearchSetsRequest {
    /// A search with the given query, and no page, page size or order.
    pub fn new(query: &str) -> (r: Self)
        ensures
            opt_text(r.query) == Some(query@),
            r.page is None,
            r.page_size is None,
            r.order_by is None,
    {
        SearchSetsRequest { query: Some(String::from_str(query)), page: None, page_size: None, order_by: None }
    }

    /// The query parameters this search sends; those that are not set are left out.
    pub fn query_params(&self) -> (r: Vec<(String, String)>)
        ensures
            params_view(r@) == search_params(self.query, self.page, self.page_size, self.order_by),
    {
        search_query_params(&self.query, self.page, self.page_size, &self.order_by)
    }
}

/// A set of cards, as the API describes it.
#[derive(Clone, Debug, PartialEq, Eq)]
pub struct CardSet {
    /// Unique identifier for the object.
    pub id: String,
    /// The name of the set.
    pub name: String,
    /// The series the set belongs to, like Sword and Shield or Base.
    pub series: String,
    /// The number printed on the card that represents the total, secret rares left out.
    pub printed_total: usize,
    /// The total number of cards in the set, secret rares, alternate art and the like included.
    pub total: usize,
    /// The formats the set is legal in.
    pub legalities: Legality,
    /// The code the Pokémon Trading Card Game Online uses to identify the set.
    pub ptcgo_code: Option<String>,
    /// The date the set was released in the USA, as YYYY/MM/DD.
    pub release_date: String,
    /// The date and time the set was updated, as YYYY/MM/DD HH:MM:SS.
    pub updated_at: String,
    /// Images associated with the set, such as symbol and logo.
    pub images: SetImages,
}

} // verus!
