//! What came of a request, and what it means.
//!
//! Every operation reads an answer in the same three steps. A request that
//! got no answer is a transport failure. An answer whose status is outside
//! 200..=299 is a server failure with that status, whether or not its body
//! could be read. Otherwise a body that could not be read is a transport
//! failure, and a body that was read is parsed as JSON and read as the shape
//! that the operation expects; where either fails, the failure carries the
//! body as it was received.

use crate::error::{ApiError, ApiErrorView};
use crate::json::{content, parse, parsed, JsonValue};
use vstd::prelude::*;

verus! {

/// What came of sending a request.
#[derive(Debug, Clone, PartialEq, Eq)]
pub enum Outcome {
    /// The request could not be sent, or no response was received.
    Failed { reason: String },
    /// A response was received.
    Received { status: u16, body: String },
    /// A response arrived, but its body could not be read to the end.
    Unread { status: u16, reason: String },
}

/// What an [`Outcome`] holds.
pub enum OutcomeView {
    Failed { reason: Seq<char> },
    Received { status: u16, body: Seq<char> },
    Unread { status: u16, reason: Seq<char> },
}

impl DeepView for Outcome {
    type V = OutcomeView;

    open spec fn deep_view(&self) -> OutcomeView {
        match self {
            Outcome::Failed { reason } => OutcomeView::Failed { reason: reason@ },
            Outcome::Received { status, body } => OutcomeView::Received {
                status: *status,
                body: body@,
            },
            Outcome::Unread { status, reason } => OutcomeView::Unread {
                status: *status,
                reason: reason@,
            },
        }
    }
}

/// Whether `status` reports success.
pub open spec fn is_success(status: u16) -> bool {
    200 <= status <= 299
}

/// Whether `status` reports success.
pub fn status_is_success(status: u16) -> (r: bool)
    ensures
        r == is_success(status),
{
    200 <= status && status <= 299
}

/// The message of a decoding failure on a body that is JSON, but not of the
/// expected shape.
pub open spec fn shape_message() -> Seq<char> {
    "the document does not have the expected shape"@
}

/// The body that was received; empty where none was.
pub open spec fn body_of(outcome: OutcomeView) -> Seq<char> {
    match outcome {
        OutcomeView::Received { body, .. } => body,
        _ => Seq::empty(),
    }
}

/// The document that an outcome carries: the body of a success-status
/// answer, parsed. Else the failure: of the transport, of the server with
/// its status, or of decoding with the parser's message and the body.
pub open spec fn document_of(outcome: OutcomeView) -> Result<JsonValue, ApiErrorView> {
    match outcome {
        OutcomeView::Failed { reason } => Err(ApiErrorView::Transport { message: reason }),
        OutcomeView::Received { status, body } => if !is_success(status) {
            Err(ApiErrorView::Server { status })
        } else {
            match parsed(body) {
                Ok(j) => Ok(j),
                Err(message) => Err(ApiErrorView::Decode { message, raw_body: body }),
            }
        },
        OutcomeView::Unread { status, reason } => if !is_success(status) {
            Err(ApiErrorView::Server { status })
        } else {
            Err(ApiErrorView::Transport { message: reason })
        },
    }
}

/// What an outcome means to an operation that reads its documents with
/// `decode`: what `decode` reads out of the outcome's document. Where the
/// outcome carries none, or `decode` reads nothing, the failure.
pub open spec fn classified<T>(
    outcome: OutcomeView,
    decode: spec_fn(JsonValue) -> Option<T>,
) -> Result<T, ApiErrorView> {
    match document_of(outcome) {
        Err(e) => Err(e),
        Ok(j) => match decode(j) {
            Some(t) => Ok(t),
            None => Err(
                ApiErrorView::Decode { message: shape_message(), raw_body: body_of(outcome) },
            ),
        },
    }
}

/// A success-status answer whose body is JSON: the document and the body it
/// was parsed from.
#[derive(Debug)]
pub struct Answer {
    pub document: serde_json::Value,
    pub body: String,
}

/// The first steps of reading any answer: the transport's failure, the
/// status, and whether the body is JSON at all.
pub fn accept(outcome: Outcome) -> (r: Result<Answer, ApiError>)
    ensures
        match r {
            Ok(a) => document_of(outcome.deep_view()) == Ok::<JsonValue, ApiErrorView>(
                content(a.document),
            ) && a.body@ == body_of(outcome.deep_view()),
            Err(e) => document_of(outcome.deep_view()) == Err::<JsonValue, ApiErrorView>(
                e.deep_view(),
            ),
        },
{
    match outcome {
        Outcome::Failed { reason } => Err(ApiError::Transport { message: reason }),
        Outcome::Received { status, body } => {
            if !status_is_success(status) {
                return Err(ApiError::Server { status });
            }
            match parse(body.as_str()) {
                Ok(document) => Ok(Answer { document, body }),
                Err(message) => Err(ApiError::Decode { message, raw_body: body }),
            }
        },
        Outcome::Unread { status, reason } => {
            if !status_is_success(status) {
                return Err(ApiError::Server { status });
            }
            Err(ApiError::Transport { message: reason })
        },
    }
}

/// The decoding failure for a body that is JSON of another shape than
/// expected.
pub(crate) fn shape_error(body: String) -> (r: ApiError)
    ensures
        r.deep_view() == (ApiErrorView::Decode { message: shape_message(), raw_body: body@ }),
{
    ApiError::Decode {
        message: "the document does not have the expected shape".to_owned(),
        raw_body: body,
    }
}

/// The outcomes that hold a response with the status `status`.
pub open spec fn has_status(outcome: OutcomeView, status: u16) -> bool {
    match outcome {
        OutcomeView::Failed { .. } => false,
        OutcomeView::Received { status: s, .. } => s == status,
        OutcomeView::Unread { status: s, .. } => s == status,
    }
}

/// A response whose status is outside 200..=299 is a server failure that
/// carries this status, whatever the body holds and whatever shape the
/// operation expects.
pub proof fn lemma_failure_status_is_reported<T>(
    outcome: OutcomeView,
    status: u16,
    decode: spec_fn(JsonValue) -> Option<T>,
)
    requires
        has_status(outcome, status),
        !is_success(status),
    ensures
        document_of(outcome) == Err::<JsonValue, ApiErrorView>(ApiErrorView::Server { status }),
        classified(outcome, decode) == Err::<T, ApiErrorView>(ApiErrorView::Server { status }),
{
}

/// A success-status answer whose body is no JSON, or is JSON of another
/// shape than the operation expects, is a decoding failure that carries the
/// body exactly as it was received.
pub proof fn lemma_decoding_failure_keeps_body<T>(
    status: u16,
    body: Seq<char>,
    decode: spec_fn(JsonValue) -> Option<T>,
)
    requires
        is_success(status),
        parsed(body) is Err || decode(parsed(body)->Ok_0) is None,
    ensures
        classified(OutcomeView::Received { status, body }, decode) matches Err(
            ApiErrorView::Decode { raw_body, .. },
        ) && raw_body == body,
{
}

/// A request that got no answer, and a success-status response whose body
/// could not be read, are transport failures in the transport's own words.
pub proof fn lemma_transport_failure_is_reported<T>(
    status: u16,
    reason: Seq<char>,
    decode: spec_fn(JsonValue) -> Option<T>,
)
    ensures
        classified(OutcomeView::Failed { reason }, decode) == Err::<T, ApiErrorView>(
            ApiErrorView::Transport { message: reason },
        ),
        is_success(status) ==> classified(OutcomeView::Unread { status, reason }, decode) == Err::<
            T,
            ApiErrorView,
        >(ApiErrorView::Transport { message: reason }),
{
}

} // verus!
