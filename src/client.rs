use crate::errors::{classify, ClientError, ErrorEnvelope};
use vstd::prelude::*;
use vstd::string::StringExecFns;

verus! {

/// The root response body of a successful request.
#[derive(Debug)]
pub struct DataEnvelope<T> {
    pub data: T,
    /// The number of entities that match the request, when the server reports it.
    pub total_count: Option<usize>,
}

/// One decoded response body: either a success payload or an error payload.
#[derive(Debug)]
pub enum ApiResult<T> {
    Success(DataEnvelope<T>),
    Failure(ErrorEnvelope),
}

/// What resolving an envelope gives: its payload, or its classified error.
pub open spec fn resolved<T>(result: ApiResult<T>) -> Result<T, ClientError> {
    match result {
        ApiResult::Success(env) => Ok(env.data),
        ApiResult::Failure(e) => Err(classify(e)),
    }
}

/// The total count that a response body reports, if it is a success that carries one.
pub open spec fn reported_count<T>(result: ApiResult<T>) -> Option<usize> {
    match result {
        ApiResult::Success(env) => env.total_count,
        ApiResult::Failure(_) => None,
    }
}

impl<T> ApiResult<T> {
    /// The total count carried by a success envelope; `None` for an error envelope.
    pub fn total_count(&self) -> (r: Option<usize>)
        ensures
            r == reported_count(*self),
    {
        match self {
            ApiResult::Success(env) => env.total_count,
            ApiResult::Failure(_) => None,
        }
    }
}

/// Returns the payload of a success envelope, or the classified error of an
/// error envelope. The payload is handed back untouched.
pub fn parse_response<T>(result: ApiResult<T>) -> (r: Result<T, ClientError>)
    ensures
        r == resolved(result),
{
    match result {
        ApiResult::Success(v) => Ok(v.data),
        ApiResult::Failure(e) => Err(ClientError::from(e)),
    }
}

/// The resources the API serves.
#[derive(Clone, Copy, Debug, PartialEq, Eq, Structural)]
pub enum Resource {
    Cards,
    Sets,
    Types,
    Subtypes,
    Supertypes,
    Rarities,
}

/// The path segment that names a resource.
pub open spec fn segment(r: Resource) -> Seq<char> {
    match r {
        Resource::Cards => "cards"@,
        Resource::Sets => "sets"@,
        Resource::Types => "types"@,
        Resource::Subtypes => "subtypes"@,
        Resource::Supertypes => "supertypes"@,
        Resource::Rarities => "rarities"@,
    }
}

impl Resource {
    pub fn path_segment(&self) -> (r: &'static str)
        ensures
            r@ == segment(*self),
    {
        match self {
            Resource::Cards => "cards",
            Resource::Sets => "sets",
            Resource::Types => "types",
            Resource::Subtypes => "subtypes",
            Resource::Supertypes => "supertypes",
            Resource::Rarities => "rarities",
        }
    }
}

/// The URL of a whole resource: `{base_url}/{resource}`.
pub fn resource_url(base_url: &str, resource: Resource) -> (r: String)
    ensures
        r@ == base_url@ + "/"@ + segment(resource),
{
    let mut url = String::from_str(base_url);
    url.append("/");
    url.append(resource.path_segment());
    url
}

/// The URL of one entity of a resource: `{base_url}/{resource}/{id}`.
pub fn entity_url(base_url: &str, resource: Resource, id: &str) -> (r: String)
    ensures
        r@ == base_url@ + "/"@ + segment(resource) + "/"@ + id@,
{
    let mut url = resource_url(base_url, resource);
    url.append("/");
    url.append(id);
    url
}

/// The text of one decimal digit.
pub open spec fn digit_text(d: nat) -> Seq<char> {
    if d == 0 {
        "0"@
    } else if d == 1 {
        "1"@
    } else if d == 2 {
        "2"@
    } else if d == 3 {
        "3"@
    } else if d == 4 {
        "4"@
    } else if d == 5 {
        "5"@
    } else if d == 6 {
        "6"@
    } else if d == 7 {
        "7"@
    } else if d == 8 {
        "8"@
    } else {
        "9"@
    }
}

/// The decimal text of a number, without sign or leading zeros.
pub open spec fn decimal(n: nat) -> Seq<char>
    decreases n,
{
    if n < 10 {
        digit_text(n)
    } else {
        decimal(n / 10) + digit_text(n % 10)
    }
}

fn digit_str(d: u64) -> (r: &'static str)
    requires
        d < 10,
    ensures
        r@ == digit_text(d as nat),
{
    if d == 0 {
        "0"
    } else if d == 1 {
        "1"
    } else if d == 2 {
        "2"
    } else if d == 3 {
        "3"
    } else if d == 4 {
        "4"
    } else if d == 5 {
        "5"
    } else if d == 6 {
        "6"
    } else if d == 7 {
        "7"
    } else if d == 8 {
        "8"
    } else {
        "9"
    }
}

/// Writes a number in decimal, as query parameter values carry it.
pub fn decimal_string(n: u64) -> (r: String)
    ensures
        r@ == decimal(n as nat),
    decreases n,
{
    if n < 10 {
        String::from_str(digit_str(n))
    } else {
        let mut s = decimal_string(n / 10);
        s.append(digit_str(n % 10));
        s
    }
}

/// Query parameters as text: each pair is a name and its value.
pub open spec fn params_view(v: Seq<(String, String)>) -> Seq<(Seq<char>, Seq<char>)> {
    v.map_values(|p: (String, String)| (p.0@, p.1@))
}

/// One query parameter if its value is set, none otherwise.
pub open spec fn opt_param(name: Seq<char>, value: Option<Seq<char>>) -> Seq<(Seq<char>, Seq<char>)> {
    match value {
        Some(v) => seq![(name, v)],
        None => Seq::empty(),
    }
}

pub open spec fn opt_text(s: Option<String>) -> Option<Seq<char>> {
    match s {
        Some(t) => Some(t@),
        None => None,
    }
}

pub open spec fn opt_decimal(n: Option<nat>) -> Option<Seq<char>> {
    match n {
        Some(k) => Some(decimal(k)),
        None => None,
    }
}

/// The query of a search: `q`, `page`, `pageSize` and `orderBy`, in this
/// order, each only when it is set.
pub open spec fn search_params(
    query: Option<String>,
    page: Option<u16>,
    page_size: Option<u8>,
    order_by: Option<String>,
) -> Seq<(Seq<char>, Seq<char>)> {
    opt_param("q"@, opt_text(query)) + opt_param(
        "page"@,
        opt_decimal(
            match page {
                Some(p) => Some(p as nat),
                None => None,
            },
        ),
    ) + opt_param(
        "pageSize"@,
        opt_decimal(
            match page_size {
                Some(p) => Some(p as nat),
                None => None,
            },
        ),
    ) + opt_param("orderBy"@, opt_text(order_by))
}

fn push_param(params: &mut Vec<(String, String)>, name: &str, value: Option<String>)
    ensures
        params_view(final(params)@) == params_view(old(params)@) + opt_param(name@, opt_text(value)),
{
    let ghost before = params@;
    match value {
        Some(v) => {
            params.push((String::from_str(name), v));
            assert(params_view(params@) =~= params_view(before) + opt_param(name@, opt_text(value)));
        },
        None => {
            assert(params_view(params@) =~= params_view(before) + opt_param(name@, opt_text(value)));
        },
    }
}

/// The query parameters of a search; those that are not set are left out.
pub fn search_query_params(
    query: &Option<String>,
    page: Option<u16>,
    page_size: Option<u8>,
    order_by: &Option<String>,
) -> (r: Vec<(String, String)>)
    ensures
        params_view(r@) == search_params(*query, page, page_size, *order_by),
{
    let mut params: Vec<(String, String)> = Vec::new();
    assert(params_view(params@) =~= Seq::empty());
    let q = match query {
        Some(s) => Some(s.clone()),
        None => None,
    };
    push_param(&mut params, "q", q);
    let p = match page {
        Some(n) => Some(decimal_string(n as u64)),
        None => None,
    };
    push_param(&mut params, "page", p);
    let ps = match page_size {
        Some(n) => Some(decimal_string(n as u64)),
        None => None,
    };
    push_param(&mut params, "pageSize", ps);
    let o = match order_by {
        Some(s) => Some(s.clone()),
        None => None,
    };
    push_param(&mut params, "orderBy", o);
    assert(params_view(params@) =~= search_params(*query, page, page_size, *order_by));
    params
}

/// The headers sent with every request: `X-Api-Key` with the key when one is
/// configured, none otherwise.
pub fn default_headers(api_key: Option<&str>) -> (r: Vec<(String, String)>)
    ensures
        params_view(r@) == match api_key {
            Some(k) => seq![("X-Api-Key"@, k@)],
            None => Seq::<(Seq<char>, Seq<char>)>::empty(),
        },
{
    let mut headers: Vec<(String, String)> = Vec::new();
    match api_key {
        Some(k) => {
            headers.push((String::from_str("X-Api-Key"), String::from_str(k)));
            assert(params_view(headers@) =~= seq![("X-Api-Key"@, k@)]);
        },
        None => {
            assert(params_view(headers@) =~= Seq::<(Seq<char>, Seq<char>)>::empty());
        },
    }
    headers
}

/// The query of one page of a complete fetch: only the page number.
pub fn page_query_params(page: usize) -> (r: Vec<(String, String)>)
    ensures
        params_view(r@) == seq![("page"@, decimal(page as nat))],
{
    let mut params: Vec<(String, String)> = Vec::new();
    params.push((String::from_str("page"), decimal_string(page as u64)));
    assert(params_view(params@) =~= seq![("page"@, decimal(page as nat))]);
    params
}

} // verus!
