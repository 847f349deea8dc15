//! The requests that the client sends: one `GET` per endpoint, each an
//! absolute URL under the configured base.
//!
//! Parameters that the caller chooses freely travel as query parameters,
//! apart from the URL: the transport encodes them when it sends the request.
//! Nothing in a URL is encoded here.

use crate::text::decimal_text;
use vstd::prelude::*;

verus! {

/// One parameter of a query string, not yet encoded.
#[derive(Debug, Clone, PartialEq, Eq)]
pub struct QueryParameter {
    pub name: String,
    pub value: String,
}

/// What a [`QueryParameter`] holds.
pub struct QueryParameterView {
    pub name: Seq<char>,
    pub value: Seq<char>,
}

impl DeepView for QueryParameter {
    type V = QueryParameterView;

    open spec fn deep_view(&self) -> QueryParameterView {
        QueryParameterView { name: self.name@, value: self.value@ }
    }
}

/// A `GET` request for the transport to send.
#[derive(Debug, Clone, PartialEq, Eq)]
pub struct Request {
    /// The URL, with everything that its endpoint fixes.
    pub url: String,
    /// Parameters for the transport to encode and append to the URL.
    pub query: Vec<QueryParameter>,
}

/// What a [`Request`] holds.
pub struct RequestView {
    pub url: Seq<char>,
    pub query: Seq<QueryParameterView>,
}

impl DeepView for Request {
    type V = RequestView;

    open spec fn deep_view(&self) -> RequestView {
        RequestView { url: self.url@, query: self.query.deep_view() }
    }
}

/// A header that the transport sends with every request.
#[derive(Debug, Clone, PartialEq, Eq)]
pub struct Header {
    pub name: String,
    pub value: String,
}

/// What a [`Header`] holds.
pub struct HeaderView {
    pub name: Seq<char>,
    pub value: Seq<char>,
}

impl DeepView for Header {
    type V = HeaderView;

    open spec fn deep_view(&self) -> HeaderView {
        HeaderView { name: self.name@, value: self.value@ }
    }
}

/// The headers of every request: the client's name, and that JSON is
/// wanted.
pub open spec fn standard_headers() -> Seq<HeaderView> {
    seq![
        HeaderView { name: "User-Agent"@, value: "AniLibrix-Rust-Client"@ },
        HeaderView { name: "Accept"@, value: "application/json"@ },
    ]
}

/// The headers for the transport to send with every request.
pub fn default_headers() -> (r: Vec<Header>)
    ensures
        r.deep_view() == standard_headers(),
{
    let mut r: Vec<Header> = Vec::new();
    r.push(Header { name: "User-Agent".to_owned(), value: "AniLibrix-Rust-Client".to_owned() });
    r.push(Header { name: "Accept".to_owned(), value: "application/json".to_owned() });
    r
}

/// The request for `url` as it stands, with no query parameters.
pub open spec fn plain(url: Seq<char>) -> RequestView {
    RequestView { url, query: Seq::empty() }
}

/// The request for `url` with one query parameter.
pub open spec fn with_parameter(url: Seq<char>, name: Seq<char>, value: Seq<char>) -> RequestView {
    RequestView { url, query: seq![QueryParameterView { name, value }] }
}

/// URL of the latest releases: a list of fixed length.
pub open spec fn latest_catalog_url(base: Seq<char>) -> Seq<char> {
    base + "/anime/releases/latest?limit=15"@
}

/// The page number that the remote API knows a page by: it counts from one,
/// callers count from zero.
pub open spec fn remote_page(page: u32) -> nat {
    (page + 1) as nat
}

/// URL of one page of the catalog, `page` counted from zero.
pub open spec fn catalog_page_url(base: Seq<char>, page: u32) -> Seq<char> {
    base + "/anime/catalog/releases?limit=15&page="@ + decimal_text(remote_page(page))
}

/// URL of the episodes of the release `id`.
pub open spec fn release_episodes_url(base: Seq<char>, id: Seq<char>) -> Seq<char> {
    base + "/anime/releases/episodes/"@ + id
}

/// URL of the release `id`.
pub open spec fn release_url(base: Seq<char>, id: Seq<char>) -> Seq<char> {
    base + "/anime/releases/"@ + id
}

/// URL of the franchises that the release `id` belongs to.
pub open spec fn franchise_url(base: Seq<char>, id: Seq<char>) -> Seq<char> {
    base + "/anime/franchises/release/"@ + id
}

/// URL of the search; what is searched for travels as the query parameter
/// `query`.
pub open spec fn search_url(base: Seq<char>) -> Seq<char> {
    base + "/app/search/releases"@
}

/// The request for the URL made of `base` and `path`.
pub(crate) fn request_for(base: &str, path: &str) -> (r: Request)
    ensures
        r.deep_view() == plain(base@ + path@),
{
    let mut url = base.to_owned();
    url.append(path);
    let r = Request { url, query: Vec::new() };
    assert(r.deep_view().query =~= Seq::empty());
    r
}

/// The request for the URL made of `base`, `path` and `item`.
pub(crate) fn request_for_item(base: &str, path: &str, item: &str) -> (r: Request)
    ensures
        r.deep_view() == plain(base@ + path@ + item@),
{
    let mut r = request_for(base, path);
    r.url.append(item);
    r
}

} // verus!
