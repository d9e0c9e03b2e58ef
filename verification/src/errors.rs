//! The error model of the session layer.
//!
//! Every failing operation yields an [`ApiError`]; externally invoked
//! operations flatten it to an [`ApiErrorDto`] triple suitable for direct
//! display, with `Unauthenticated` distinguished as an HTTP-like 401 so a
//! frontend can force re-authentication.

use vstd::prelude::*;
use vstd::string::*;
use crate::text::{dec_rep, u32_string};

verus! {

/// Failure of an operation against the remote API or the credential store.
#[derive(Debug, PartialEq, Eq)]
pub enum ApiError {
    /// Transport-level failure (DNS, connect, TLS); not retried by this
    /// layer.
    Network(String),
    /// Structured remote rejection.
    Http { status: u16, error: String, message: String },
    /// No valid credential, or a refresh conclusively failed.
    Unauthenticated,
    /// Malformed or undecodable response body.
    InvalidResponse(String),
    /// Credential persistence failure.
    Storage(String),
    /// Realtime handshake or connection construction failure.
    Realtime(String),
}

/// Mathematical image of an [`ApiError`].
pub enum ApiErrorView {
    Network(Seq<char>),
    Http { status: u16, error: Seq<char>, message: Seq<char> },
    Unauthenticated,
    InvalidResponse(Seq<char>),
    Storage(Seq<char>),
    Realtime(Seq<char>),
}

impl View for ApiError {
    type V = ApiErrorView;

    open spec fn view(&self) -> ApiErrorView {
        match self {
            ApiError::Network(d) => ApiErrorView::Network(d@),
            ApiError::Http { status, error, message } => ApiErrorView::Http {
                status: *status,
                error: error@,
                message: message@,
            },
            ApiError::Unauthenticated => ApiErrorView::Unauthenticated,
            ApiError::InvalidResponse(d) => ApiErrorView::InvalidResponse(d@),
            ApiError::Storage(d) => ApiErrorView::Storage(d@),
            ApiError::Realtime(d) => ApiErrorView::Realtime(d@),
        }
    }
}

/// Flattened `{status, error, message}` triple shown to the frontend.
#[derive(Debug)]
pub struct ApiErrorDto {
    pub status: u16,
    pub error: String,
    pub message: String,
}

/// Mathematical image of an [`ApiErrorDto`].
pub struct ApiErrorDtoView {
    pub status: u16,
    pub error: Seq<char>,
    pub message: Seq<char>,
}

impl View for ApiErrorDto {
    type V = ApiErrorDtoView;

    open spec fn view(&self) -> ApiErrorDtoView {
        ApiErrorDtoView { status: self.status, error: self.error@, message: self.message@ }
    }
}

/// The one-line description of an error.
pub open spec fn describe_spec(e: ApiErrorView) -> Seq<char> {
    match e {
        ApiErrorView::Network(d) => "network request failed: "@ + d,
        ApiErrorView::Http { status, error, message } => "api returned error ("@ + dec_rep(
            status as nat,
        ) + "): "@ + error + " "@ + message,
        ApiErrorView::Unauthenticated => "unauthenticated"@,
        ApiErrorView::InvalidResponse(d) => "invalid response: "@ + d,
        ApiErrorView::Storage(d) => "storage error: "@ + d,
        ApiErrorView::Realtime(d) => "realtime error: "@ + d,
    }
}

/// The flattened triple for an error: `Http` keeps its fields,
/// `Unauthenticated` becomes a 401, everything else an internal 500 carrying
/// the description.
pub open spec fn dto_spec(e: ApiErrorView) -> ApiErrorDtoView {
    match e {
        ApiErrorView::Http { status, error, message } => ApiErrorDtoView {
            status,
            error,
            message,
        },
        ApiErrorView::Unauthenticated => ApiErrorDtoView {
            status: 401,
            error: "unauthorized"@,
            message: "You must sign in again."@,
        },
        other => ApiErrorDtoView {
            status: 500,
            error: "internal_error"@,
            message: describe_spec(other),
        },
    }
}

impl ApiError {
    /// Render the one-line description.
    pub fn describe(&self) -> (r: String)
        ensures
            r@ == describe_spec(self@),
    {
        match self {
            ApiError::Network(d) => {
                let mut s = String::from_str("network request failed: ");
                s.append(d.as_str());
                s
            },
            ApiError::Http { status, error, message } => {
                let mut s = String::from_str("api returned error (");
                s.append(u32_string(*status as u32).as_str());
                s.append("): ");
                s.append(error.as_str());
                s.append(" ");
                s.append(message.as_str());
                s
            },
            ApiError::Unauthenticated => String::from_str("unauthenticated"),
            ApiError::InvalidResponse(d) => {
                let mut s = String::from_str("invalid response: ");
                s.append(d.as_str());
                s
            },
            ApiError::Storage(d) => {
                let mut s = String::from_str("storage error: ");
                s.append(d.as_str());
                s
            },
            ApiError::Realtime(d) => {
                let mut s = String::from_str("realtime error: ");
                s.append(d.as_str());
                s
            },
        }
    }

    /// Flatten to the display triple.
    pub fn into_dto(self) -> (r: ApiErrorDto)
        ensures
            r@ == dto_spec(self@),
    {
        match self {
            ApiError::Http { status, error, message } => ApiErrorDto { status, error, message },
            ApiError::Unauthenticated => ApiErrorDto {
                status: 401,
                error: String::from_str("unauthorized"),
                message: String::from_str("You must sign in again."),
            },
            other => {
                let message = other.describe();
                ApiErrorDto { status: 500, error: String::from_str("internal_error"), message }
            },
        }
    }
}

} // verus!
