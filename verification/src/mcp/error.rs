//! Faults that are reported on the protocol itself, and the reason a tool
//! call is turned down with.

use crate::text::joined;
use vstd::prelude::*;

verus! {

/// A fault of the server as a whole. `InvalidRequest` and `MethodNotFound`
/// tell the caller that the session or the dispatcher was misused; they are
/// answered as protocol errors, never as tool results.
#[derive(Debug, Clone, PartialEq, Eq)]
pub enum McpServerError {
    ConfigError(String),
    LinkedInApiError(String),
    InvalidRequest(String),
    MethodNotFound(String),
}

/// What a `McpServerError` holds.
pub enum McpServerErrorView {
    ConfigError(Seq<char>),
    LinkedInApiError(Seq<char>),
    InvalidRequest(Seq<char>),
    MethodNotFound(Seq<char>),
}

impl View for McpServerError {
    type V = McpServerErrorView;

    open spec fn view(&self) -> McpServerErrorView {
        match self {
            McpServerError::ConfigError(detail) => McpServerErrorView::ConfigError(detail@),
            McpServerError::LinkedInApiError(detail) => McpServerErrorView::LinkedInApiError(
                detail@,
            ),
            McpServerError::InvalidRequest(detail) => McpServerErrorView::InvalidRequest(detail@),
            McpServerError::MethodNotFound(detail) => McpServerErrorView::MethodNotFound(detail@),
        }
    }
}

impl McpServerErrorView {
    /// The text shown for the fault: what kind it is, then its detail.
    pub open spec fn message(self) -> Seq<char> {
        match self {
            McpServerErrorView::ConfigError(detail) => "Configuration error: "@ + detail,
            McpServerErrorView::LinkedInApiError(detail) => "LinkedIn API error: "@ + detail,
            McpServerErrorView::InvalidRequest(detail) => "Invalid request: "@ + detail,
            McpServerErrorView::MethodNotFound(detail) => "Method not found: "@ + detail,
        }
    }
}

impl McpServerError {
    /// The text shown for the fault.
    pub fn message(&self) -> (text: String)
        ensures
            text@ == self@.message(),
    {
        match self {
            McpServerError::ConfigError(detail) => joined("Configuration error: ", detail.as_str()),
            McpServerError::LinkedInApiError(detail) => joined(
                "LinkedIn API error: ",
                detail.as_str(),
            ),
            McpServerError::InvalidRequest(detail) => joined("Invalid request: ", detail.as_str()),
            McpServerError::MethodNotFound(detail) => joined(
                "Method not found: ",
                detail.as_str(),
            ),
        }
    }
}

/// Why a tool call was turned down before anything was sent.
#[derive(Debug, Clone, PartialEq, Eq)]
pub struct LinkedInError(pub String);

impl View for LinkedInError {
    type V = Seq<char>;

    open spec fn view(&self) -> Seq<char> {
        self.0@
    }
}

impl LinkedInError {
    /// The text shown for the error: a fixed prefix, then the reason.
    pub fn message(&self) -> (text: String)
        ensures
            text@ == "LinkedIn API Error: "@ + self@,
    {
        joined("LinkedIn API Error: ", self.0.as_str())
    }
}

} // verus!
