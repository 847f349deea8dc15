//! The ways in which an operation of the client fails.

use crate::text::{decimal_text, push_decimal};
use vstd::prelude::*;

verus! {

/// A failed operation. Each failure belongs to the one call that met it;
/// none is retried and none is remembered.
#[derive(Debug, Clone, PartialEq, Eq)]
pub enum ApiError {
    /// The request could not be sent, or no response came back. The message
    /// is the transport's own.
    Transport { message: String },
    /// A response came back with a status outside 200..=299.
    Server { status: u16 },
    /// A response with a success status whose body is not what the operation
    /// expects. The body is kept as it was received.
    Decode { message: String, raw_body: String },
}

/// What an [`ApiError`] holds.
pub enum ApiErrorView {
    Transport { message: Seq<char> },
    Server { status: u16 },
    Decode { message: Seq<char>, raw_body: Seq<char> },
}

impl DeepView for ApiError {
    type V = ApiErrorView;

    open spec fn deep_view(&self) -> ApiErrorView {
        match self {
            ApiError::Transport { message } => ApiErrorView::Transport { message: message@ },
            ApiError::Server { status } => ApiErrorView::Server { status: *status },
            ApiError::Decode { message, raw_body } => ApiErrorView::Decode {
                message: message@,
                raw_body: raw_body@,
            },
        }
    }
}

/// The failure as a line for people: a transport failure in the transport's
/// own words, a server failure with its status code, a decoding failure with
/// its message and the whole body that was received.
pub open spec fn description(e: ApiErrorView) -> Seq<char> {
    match e {
        ApiErrorView::Transport { message } => message,
        ApiErrorView::Server { status } => "API error: "@ + decimal_text(status as nat),
        ApiErrorView::Decode { message, raw_body } => "Failed to decode the response: "@ + message
            + ". Response body: "@ + raw_body,
    }
}

impl ApiError {
    /// Renders the failure for display.
    pub fn describe(&self) -> (r: String)
        ensures
            r@ == description(self.deep_view()),
    {
        match self {
            ApiError::Transport { message } => message.clone(),
            ApiError::Server { status } => {
                let mut out = "API error: ".to_owned();
                push_decimal(&mut out, *status as u64);
                out
            },
            ApiError::Decode { message, raw_body } => {
                let mut out = "Failed to decode the response: ".to_owned();
                out.append(message.as_str());
                out.append(". Response body: ");
                out.append(raw_body.as_str());
                out
            },
        }
    }
}

} // verus!
