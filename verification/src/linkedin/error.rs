//! Why a post could not be created.

use crate::text::joined;
use vstd::prelude::*;

verus! {

/// Why the client failed.
#[derive(Debug, Clone, PartialEq, Eq)]
pub enum LinkedInClientError {
    /// The client could not be set up from its settings.
    ConfigError(String),
    /// The remote service answered and refused; the detail is the status code,
    /// a colon and the body of the answer as it came.
    ApiError(String),
    /// No usable answer came back: the request failed on the way, or the
    /// answer was not of the expected shape. The detail is the cause.
    HttpError(String),
}

/// What a `LinkedInClientError` holds.
pub enum LinkedInClientErrorView {
    ConfigError(Seq<char>),
    ApiError(Seq<char>),
    HttpError(Seq<char>),
}

impl View for LinkedInClientError {
    type V = LinkedInClientErrorView;

    open spec fn view(&self) -> LinkedInClientErrorView {
        match self {
            LinkedInClientError::ConfigError(detail) => LinkedInClientErrorView::ConfigError(
                detail@,
            ),
            LinkedInClientError::ApiError(detail) => LinkedInClientErrorView::ApiError(detail@),
            LinkedInClientError::HttpError(detail) => LinkedInClientErrorView::HttpError(detail@),
        }
    }
}

impl LinkedInClientErrorView {
    /// The text shown for the error: what kind it is, then its detail.
    pub open spec fn message(self) -> Seq<char> {
        match self {
            LinkedInClientErrorView::ConfigError(detail) => "Configuration error: "@ + detail,
            LinkedInClientErrorView::ApiError(detail) => "LinkedIn API error: "@ + detail,
            LinkedInClientErrorView::HttpError(detail) => "HTTP client error: "@ + detail,
        }
    }
}

impl LinkedInClientError {
    /// The text shown for the error.
    pub fn message(&self) -> (text: String)
        ensures
            text@ == self@.message(),
    {
        match self {
            LinkedInClientError::ConfigError(detail) => joined(
                "Configuration error: ",
                detail.as_str(),
            ),
            LinkedInClientError::ApiError(detail) => joined(
                "LinkedIn API error: ",
                detail.as_str(),
            ),
            LinkedInClientError::HttpError(detail) => joined(
                "HTTP client error: ",
                detail.as_str(),
            ),
        }
    }
}

} // verus!
