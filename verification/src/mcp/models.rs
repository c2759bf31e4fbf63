//! The request and the result of the one tool.

use crate::json::{json_string_literal, string_literal};
use crate::text::optional_text;
use crate::text::owned;
use vstd::prelude::*;

verus! {

/// A tool call with its fields typed but not yet checked.
#[derive(Debug, Clone, PartialEq, Eq)]
pub struct LinkedInPostRequest {
    /// The text content for the LinkedIn post
    pub content: String,
    /// Optional ISO 8601 timestamp for scheduling the post
    pub schedule_time: Option<String>,
}

/// What a `LinkedInPostRequest` holds.
pub struct LinkedInPostRequestView {
    pub content: Seq<char>,
    pub schedule_time: Option<Seq<char>>,
}

impl View for LinkedInPostRequest {
    type V = LinkedInPostRequestView;

    open spec fn view(&self) -> LinkedInPostRequestView {
        LinkedInPostRequestView {
            content: self.content@,
            schedule_time: optional_text(self.schedule_time),
        }
    }
}

/// A tool call that passed validation: the text is not empty, and the time
/// at which to publish, where one was asked for, is an instant in milliseconds
/// since the Unix epoch.
#[derive(Debug, Clone, PartialEq, Eq)]
pub struct PostRequest {
    pub content: String,
    pub schedule_millis: Option<i64>,
}

/// What a `PostRequest` holds.
pub struct PostRequestView {
    pub content: Seq<char>,
    pub schedule_millis: Option<i64>,
}

impl View for PostRequest {
    type V = PostRequestView;

    open spec fn view(&self) -> PostRequestView {
        PostRequestView { content: self.content@, schedule_millis: self.schedule_millis }
    }
}

/// The result of a tool call, the only value its caller gets back.
#[derive(Debug, Clone, PartialEq, Eq)]
pub struct LinkedInPostResponse {
    /// Whether the post was successfully created
    pub success: bool,
    /// The ID of the created LinkedIn post if successful
    pub post_id: Option<String>,
    /// A message describing the result of the operation
    pub message: String,
}

/// What a `LinkedInPostResponse` holds.
pub struct LinkedInPostResponseView {
    pub success: bool,
    pub post_id: Option<Seq<char>>,
    pub message: Seq<char>,
}

impl View for LinkedInPostResponse {
    type V = LinkedInPostResponseView;

    open spec fn view(&self) -> LinkedInPostResponseView {
        LinkedInPostResponseView {
            success: self.success,
            post_id: optional_text(self.post_id),
            message: self.message@,
        }
    }
}

impl LinkedInPostResponseView {
    /// A result names a post exactly when it reports success.
    pub open spec fn wf(self) -> bool {
        self.success <==> self.post_id is Some
    }

    /// The result of a call that created the post `post_id`.
    pub open spec fn created(post_id: Seq<char>) -> LinkedInPostResponseView {
        LinkedInPostResponseView {
            success: true,
            post_id: Some(post_id),
            message: "Post created successfully"@,
        }
    }

    /// The result of a call that created nothing, for the given reason.
    pub open spec fn failed(message: Seq<char>) -> LinkedInPostResponseView {
        LinkedInPostResponseView { success: false, post_id: None, message }
    }

    /// The result as a compact JSON object with its members in the order of
    /// their keys: `message`, `post_id`, which is `null` where no post was
    /// created, and `success`.
    pub open spec fn json(self) -> Seq<char> {
        "{\"message\":"@ + json_string_literal(self.message) + ",\"post_id\":"@ + (match self.post_id {
            Some(id) => json_string_literal(id),
            None => "null"@,
        }) + ",\"success\":"@ + (if self.success {
            "true"@
        } else {
            "false"@
        }) + "}"@
    }
}

impl LinkedInPostResponse {
    /// The result of a call that created the post `post_id`.
    pub fn created(post_id: String) -> (response: LinkedInPostResponse)
        ensures
            response@ == LinkedInPostResponseView::created(post_id@),
            response@.wf(),
    {
        LinkedInPostResponse {
            success: true,
            post_id: Some(post_id),
            message: owned("Post created successfully"),
        }
    }

    /// The result of a call that created nothing, for the given reason.
    pub fn failed(message: String) -> (response: LinkedInPostResponse)
        ensures
            response@ == LinkedInPostResponseView::failed(message@),
            response@.wf(),
    {
        LinkedInPostResponse { success: false, post_id: None, message }
    }

    /// Writes the result as a JSON object, the text that is handed to the
    /// caller of the tool.
    pub fn to_json(&self) -> (text: String)
        ensures
            text@ == self@.json(),
    {
        let mut text = owned("{\"message\":");
        text.append(string_literal(self.message.as_str()).as_str());
        text.append(",\"post_id\":");
        match &self.post_id {
            Some(id) => text.append(string_literal(id.as_str()).as_str()),
            None => text.append("null"),
        }
        text.append(",\"success\":");
        if self.success {
            text.append("true");
        } else {
            text.append("false");
        }
        text.append("}");
        text
    }
}

} // verus!
