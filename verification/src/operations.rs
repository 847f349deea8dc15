//! The operations of the client.
//!
//! An operation has two halves, and the host's transport works between them.
//! The first half reads the base URL from the settings store, at the moment
//! it is called, and plans the request. The second half takes what came of
//! the request and gives the operation's result. The full release needs two
//! requests, so it has a half more.

use crate::decode::{decode_page, decode_releases, page_of, releases_of};
use crate::error::{ApiError, ApiErrorView};
use crate::json::{array_of, content, contents, member_of, parsed, set_member, JsonValue};
use crate::model::{Anime, AnimeView};
use crate::request::{
    catalog_page_url, franchise_url, latest_catalog_url, plain, release_episodes_url, release_url,
    request_for, request_for_item, search_url, with_parameter, QueryParameter, Request, RequestView,
};
use crate::response::{
    accept, classified, document_of, has_status, is_success, shape_error, Outcome, OutcomeView,
};
use crate::settings::{after_save, AppSettings, AppSettingsView, ConfigState};
use crate::text::push_decimal;
use vstd::prelude::*;

verus! {

/// What a result that lists releases holds.
pub open spec fn releases_view(r: Result<Vec<Anime>, ApiError>) -> Result<
    Seq<AnimeView>,
    ApiErrorView,
> {
    match r {
        Ok(list) => Ok(list.deep_view()),
        Err(e) => Err(e.deep_view()),
    }
}

/// What a result that passes a document on holds.
pub open spec fn document_view(r: Result<serde_json::Value, ApiError>) -> Result<
    JsonValue,
    ApiErrorView,
> {
    match r {
        Ok(v) => Ok(content(v)),
        Err(e) => Err(e.deep_view()),
    }
}

/// The settings as they are now: a copy, taken without any I/O.
pub fn get_settings(state: &ConfigState) -> (r: AppSettings)
    ensures
        r.deep_view() == state.deep_view(),
{
    AppSettings { api_url: state.read() }
}

/// Replaces the settings. Nothing is validated, and nothing outlives the
/// store.
pub fn save_settings(state: &mut ConfigState, new_settings: AppSettings)
    ensures
        final(state).deep_view() == after_save(old(state).deep_view(), new_settings.deep_view()),
{
    state.write(new_settings.api_url);
}

/// Latest releases: the request.
pub fn get_catalog_request(state: &ConfigState) -> (r: Request)
    ensures
        r.deep_view() == plain(latest_catalog_url(state.deep_view().api_url)),
{
    let base = state.read();
    request_for(base.as_str(), "/anime/releases/latest?limit=15")
}

/// Latest releases: the list that the answer holds.
pub fn get_catalog(outcome: Outcome) -> (r: Result<Vec<Anime>, ApiError>)
    ensures
        releases_view(r) == classified(outcome.deep_view(), |j: JsonValue| releases_of(j)),
{
    match accept(outcome) {
        Ok(answer) => match decode_releases(&answer.document) {
            Some(list) => Ok(list),
            None => Err(shape_error(answer.body)),
        },
        Err(e) => Err(e),
    }
}

/// One page of the catalog: the request. Pages are counted from zero here
/// and from one by the remote API.
pub fn get_catalog_paginated_request(state: &ConfigState, page: u32) -> (r: Request)
    ensures
        r.deep_view() == plain(catalog_page_url(state.deep_view().api_url, page)),
{
    let base = state.read();
    let remote: u64 = page as u64 + 1;
    let mut number = String::new();
    push_decimal(&mut number, remote);
    request_for_item(base.as_str(), "/anime/catalog/releases?limit=15&page=", number.as_str())
}

/// One page of the catalog: the releases under `data` in the answer's
/// envelope.
pub fn get_catalog_paginated(outcome: Outcome) -> (r: Result<Vec<Anime>, ApiError>)
    ensures
        releases_view(r) == classified(outcome.deep_view(), |j: JsonValue| page_of(j)),
{
    match accept(outcome) {
        Ok(answer) => match decode_page(&answer.document) {
            Some(list) => Ok(list),
            None => Err(shape_error(answer.body)),
        },
        Err(e) => Err(e),
    }
}

/// Episodes of a release: the request.
pub fn get_anime_details_request(state: &ConfigState, id: &str) -> (r: Request)
    ensures
        r.deep_view() == plain(release_episodes_url(state.deep_view().api_url, id@)),
{
    let base = state.read();
    request_for_item(base.as_str(), "/anime/releases/episodes/", id)
}

/// Episodes of a release: the answer's document, whatever its shape.
pub fn get_anime_details(outcome: Outcome) -> (r: Result<serde_json::Value, ApiError>)
    ensures
        document_view(r) == document_of(outcome.deep_view()),
{
    match accept(outcome) {
        Ok(answer) => Ok(answer.document),
        Err(e) => Err(e),
    }
}

/// Search: the request. What is searched for is a query parameter, never a
/// part of the path.
pub fn search_releases_request(state: &ConfigState, query: &str) -> (r: Request)
    ensures
        r.deep_view() == with_parameter(search_url(state.deep_view().api_url), "query"@, query@),
{
    let base = state.read();
    let mut r = request_for(base.as_str(), "/app/search/releases");
    let mut parameters: Vec<QueryParameter> = Vec::new();
    parameters.push(QueryParameter { name: "query".to_owned(), value: query.to_owned() });
    r.query = parameters;
    assert(r.deep_view().query =~= with_parameter(
        search_url(state.deep_view().api_url),
        "query"@,
        query@,
    ).query);
    r
}

/// Search: the list that the answer holds.
pub fn search_releases(outcome: Outcome) -> (r: Result<Vec<Anime>, ApiError>)
    ensures
        releases_view(r) == classified(outcome.deep_view(), |j: JsonValue| releases_of(j)),
{
    get_catalog(outcome)
}

/// The key under which a full release carries its franchises.
pub open spec fn franchise_key() -> Seq<char> {
    "related_franchise"@
}

/// A release document is a JSON object.
pub open spec fn object_only(j: JsonValue) -> Option<JsonValue> {
    if j is Object {
        Some(j)
    } else {
        None
    }
}

/// The franchises that the outcome of the franchise request gives: the
/// answer's document where it is an array, and the empty array for every
/// other outcome.
pub open spec fn franchise_of(outcome: OutcomeView) -> JsonValue {
    match document_of(outcome) {
        Ok(JsonValue::Array(items)) => JsonValue::Array(items),
        _ => JsonValue::Array(Seq::empty()),
    }
}

/// The release `release` with `franchise` under [`franchise_key`]; every
/// other member stays.
pub open spec fn with_franchise(release: JsonValue, franchise: JsonValue) -> JsonValue {
    JsonValue::Object(release->Object_0.insert(franchise_key(), franchise))
}

/// The full release, given what came of the release request and what came
/// of the franchise request.
pub open spec fn full_release(release: OutcomeView, franchise: OutcomeView) -> Result<
    JsonValue,
    ApiErrorView,
> {
    match classified(release, |j: JsonValue| object_only(j)) {
        Ok(j) => Ok(with_franchise(j, franchise_of(franchise))),
        Err(e) => Err(e),
    }
}

/// The empty JSON array.
fn empty_array() -> (r: serde_json::Value)
    ensures
        content(r) == JsonValue::Array(Seq::empty()),
{
    let items: Vec<serde_json::Value> = Vec::new();
    assert(contents(items@) =~= Seq::empty());
    array_of(items)
}

/// A full release whose release request is under way.
#[derive(Debug)]
pub struct AwaitingRelease {
    franchise: Request,
}

/// A full release whose release has arrived and whose franchise request is
/// under way.
#[derive(Debug)]
pub struct AwaitingFranchise {
    release: serde_json::Value,
}

/// Full release: the first request, for the release itself. The franchise
/// request is planned here as well, from the same base URL.
pub fn get_full_release_request(state: &ConfigState, id: &str) -> (r: (Request, AwaitingRelease))
    ensures
        r.0.deep_view() == plain(release_url(state.deep_view().api_url, id@)),
        r.1.planned() == plain(franchise_url(state.deep_view().api_url, id@)),
{
    let base = state.read();
    let release = request_for_item(base.as_str(), "/anime/releases/", id);
    let franchise = request_for_item(base.as_str(), "/anime/franchises/release/", id);
    (release, AwaitingRelease { franchise })
}

/// Reads the answer to the release request: the release, a JSON object.
fn accept_release(outcome: Outcome) -> (r: Result<serde_json::Value, ApiError>)
    ensures
        document_view(r) == classified(outcome.deep_view(), |j: JsonValue| object_only(j)),
{
    match accept(outcome) {
        Ok(answer) => if answer.document.is_object() {
            Ok(answer.document)
        } else {
            Err(shape_error(answer.body))
        },
        Err(e) => Err(e),
    }
}

/// Puts the franchises that `outcome` gives into `release`.
fn merge_franchise(release: serde_json::Value, outcome: Outcome) -> (r: serde_json::Value)
    requires
        content(release) is Object,
    ensures
        content(r) == with_franchise(content(release), franchise_of(outcome.deep_view())),
{
    let franchise = match accept(outcome) {
        Ok(answer) => if answer.document.as_array().is_some() {
            answer.document
        } else {
            empty_array()
        },
        Err(_) => empty_array(),
    };
    let mut release = release;
    set_member(&mut release, "related_franchise", franchise);
    release
}

impl AwaitingRelease {
    /// The franchise request that follows a release.
    pub closed spec fn planned(&self) -> RequestView {
        self.franchise.deep_view()
    }

    /// Full release: what follows the release request. A release that did
    /// not arrive, or is no JSON object, ends the operation with its
    /// failure. Else the franchise request is next.
    pub fn release_received(self, outcome: Outcome) -> (r: Result<
        (Request, AwaitingFranchise),
        ApiError,
    >)
        ensures
            match classified(outcome.deep_view(), |j: JsonValue| object_only(j)) {
                Ok(j) => r matches Ok(next) && next.0.deep_view() == self.planned()
                    && next.1.release() == j,
                Err(e) => r matches Err(x) && x.deep_view() == e,
            },
    {
        match accept_release(outcome) {
            Ok(release) => Ok((self.franchise, AwaitingFranchise { release })),
            Err(e) => Err(e),
        }
    }
}

impl AwaitingFranchise {
    #[verifier::type_invariant]
    spec fn well_formed(self) -> bool {
        content(self.release) is Object
    }

    /// The release that has arrived.
    pub closed spec fn release(&self) -> JsonValue {
        content(self.release)
    }

    /// Full release: the result. Whatever came of the franchise request,
    /// the release is returned, with its franchises under
    /// `related_franchise`.
    pub fn franchise_received(self, outcome: Outcome) -> (r: serde_json::Value)
        ensures
            content(r) == with_franchise(self.release(), franchise_of(outcome.deep_view())),
            member_of(content(r), franchise_key()) == Some(franchise_of(outcome.deep_view())),
            franchise_of(outcome.deep_view()) is Array,
    {
        proof {
            use_type_invariant(&self);
        }
        merge_franchise(self.release, outcome)
    }
}

/// Full release, for a host that holds what came of both requests: the
/// result that [`AwaitingRelease::release_received`] and
/// [`AwaitingFranchise::franchise_received`] give in turn. Where the release
/// request failed, what came of the franchise request is not looked at.
pub fn get_full_release(release: Outcome, franchise: Outcome) -> (r: Result<
    serde_json::Value,
    ApiError,
>)
    ensures
        document_view(r) == full_release(release.deep_view(), franchise.deep_view()),
{
    match accept_release(release) {
        Ok(release) => Ok(merge_franchise(release, franchise)),
        Err(e) => Err(e),
    }
}

/// A full release always has the member `related_franchise`, and the member
/// is always an array: the franchises that the franchise request gave.
pub proof fn lemma_full_release_has_franchise(release: OutcomeView, franchise: OutcomeView)
    ensures
        franchise_of(franchise) is Array,
        full_release(release, franchise) matches Ok(j) ==> j is Object && member_of(
            j,
            franchise_key(),
        ) == Some(franchise_of(franchise)),
{
}

/// Where the franchise request got no answer, a response with a status
/// outside 200..=299, a body that could not be read or a body that is no
/// JSON, the franchises of the full release are the empty array, and the
/// operation does not fail for it.
pub proof fn lemma_failed_franchise_is_empty(release: OutcomeView, franchise: OutcomeView)
    requires
        franchise is Failed || franchise is Unread || (franchise matches OutcomeView::Received {
            status,
            body,
        } && (!is_success(status) || parsed(body) is Err)),
    ensures
        franchise_of(franchise) == JsonValue::Array(Seq::empty()),
        full_release(release, franchise) matches Ok(j) ==> member_of(j, franchise_key()) == Some(
            JsonValue::Array(Seq::empty()),
        ),
        full_release(release, franchise) is Ok <==> classified(
            release,
            |j: JsonValue| object_only(j),
        ) is Ok,
{
}

/// Where the release request fails, the full release fails in the same
/// way, whatever comes of the franchise request: there is no partial result.
pub proof fn lemma_release_failure_is_final(release: OutcomeView, franchise: OutcomeView)
    requires
        classified(release, |j: JsonValue| object_only(j)) is Err,
    ensures
        full_release(release, franchise) == Err::<JsonValue, ApiErrorView>(
            classified(release, |j: JsonValue| object_only(j))->Err_0,
        ),
{
}

/// The members of a release other than `related_franchise` reach the full
/// release unchanged.
pub proof fn lemma_full_release_keeps_release(
    release: JsonValue,
    franchise: JsonValue,
    key: Seq<char>,
)
    requires
        release is Object,
        key != franchise_key(),
    ensures
        member_of(with_franchise(release, franchise), key) == member_of(release, key),
{
}

/// A response whose status is outside 200..=299 fails every operation that
/// reads it as its result, with a server failure that carries this status.
/// For the full release this is the response to the release request.
pub proof fn lemma_failure_status_fails_every_operation(
    outcome: OutcomeView,
    status: u16,
    franchise: OutcomeView,
)
    requires
        has_status(outcome, status),
        !is_success(status),
    ensures
        classified(outcome, |j: JsonValue| releases_of(j)) == Err::<Seq<AnimeView>, ApiErrorView>(
            ApiErrorView::Server { status },
        ),
        classified(outcome, |j: JsonValue| page_of(j)) == Err::<Seq<AnimeView>, ApiErrorView>(
            ApiErrorView::Server { status },
        ),
        document_of(outcome) == Err::<JsonValue, ApiErrorView>(ApiErrorView::Server { status }),
        full_release(outcome, franchise) == Err::<JsonValue, ApiErrorView>(
            ApiErrorView::Server { status },
        ),
{
}

/// Every request that is planned after settings were saved goes to the
/// saved base URL: the base URL of the request is the one that was saved
/// last, whatever the store held before.
pub proof fn lemma_requests_follow_saved_settings(
    held: AppSettingsView,
    new: AppSettingsView,
    page: u32,
    id: Seq<char>,
)
    ensures
        after_save(held, new).api_url == new.api_url,
        new.api_url.is_prefix_of(latest_catalog_url(after_save(held, new).api_url)),
        new.api_url.is_prefix_of(catalog_page_url(after_save(held, new).api_url, page)),
        new.api_url.is_prefix_of(release_episodes_url(after_save(held, new).api_url, id)),
        new.api_url.is_prefix_of(release_url(after_save(held, new).api_url, id)),
        new.api_url.is_prefix_of(franchise_url(after_save(held, new).api_url, id)),
        new.api_url.is_prefix_of(search_url(after_save(held, new).api_url)),
{
}

} // verus!
