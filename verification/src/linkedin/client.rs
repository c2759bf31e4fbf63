//! The client: what it sends to publish a post, and what it makes of the
//! answer. It sends nothing itself. `create_post` says what is to be done, the
//! caller does it, and `finish_post` reads what came of it.

use super::error::{LinkedInClientError, LinkedInClientErrorView};
use super::header::{accepts, header_text_ok, lemma_header_text_joined};
use super::models::{
    post_payload, PostPayload, PostPayloadView, PostResponse, PostVisibility, ShareCommentary,
    ShareContent, SpecificContent,
};
use crate::config::Config;
use crate::json::{json_text_member, text_member};
use crate::text::{decimal_string, decimal_text, joined, optional_text, owned};
use vstd::prelude::*;
use vstd::string::*;

verus! {

/// Seconds after which a publish request is given up.
pub const REQUEST_TIMEOUT_SECS: u64 = 30;

/// Milliseconds that a simulated publish takes.
pub const SIMULATED_DELAY_MILLIS: u64 = 500;

/// Where posts are published.
pub open spec fn publish_url() -> Seq<char> {
    "https://api.linkedin.com/v2/ugcPosts"@
}

/// The identifier that every simulated publish reports.
pub open spec fn simulated_post_id() -> Seq<char> {
    "debug-post-12345"@
}

/// The value of the `Authorization` header for the access token `token`.
pub open spec fn bearer(token: Seq<char>) -> Seq<char> {
    "Bearer "@ + token
}

/// The client of the publish service. Nothing changes it once it is made, so
/// any number of calls may share one. Its credential can always stand in a
/// header.
#[derive(PartialEq, Eq)]
pub struct LinkedInClient {
    person_id: String,
    debug_mode: bool,
    authorization: String,
}

/// What a `LinkedInClient` holds.
pub struct LinkedInClientView {
    /// The member in whose name posts are created.
    pub person_id: Seq<char>,
    /// Whether publishing is only simulated.
    pub debug_mode: bool,
    /// The value of the `Authorization` header of every request.
    pub authorization: Seq<char>,
}

/// One request to the publish service: a POST to `url` with the two headers,
/// `payload` as its JSON body, to be given up after `timeout_secs`.
#[derive(Clone, PartialEq, Eq)]
pub struct PublishRequest {
    pub url: String,
    pub authorization: String,
    pub content_type: String,
    pub timeout_secs: u64,
    pub payload: PostPayload,
}

/// What a `PublishRequest` holds.
pub struct PublishRequestView {
    pub url: Seq<char>,
    pub authorization: Seq<char>,
    pub content_type: Seq<char>,
    pub timeout_secs: u64,
    pub payload: PostPayloadView,
}

impl View for PublishRequest {
    type V = PublishRequestView;

    open spec fn view(&self) -> PublishRequestView {
        PublishRequestView {
            url: self.url@,
            authorization: self.authorization@,
            content_type: self.content_type@,
            timeout_secs: self.timeout_secs,
            payload: self.payload@,
        }
    }
}

/// What is to be done to publish one post.
#[derive(Clone, PartialEq, Eq)]
pub enum PostSubmission {
    /// Send nothing: wait `delay_millis`, then report `Completion::Simulated`.
    Simulated { delay_millis: u64 },
    /// Send `request`, once, and report what came of it.
    Outbound { request: PublishRequest },
}

/// What a `PostSubmission` holds.
pub enum PostSubmissionView {
    Simulated { delay_millis: u64 },
    Outbound { request: PublishRequestView },
}

impl View for PostSubmission {
    type V = PostSubmissionView;

    open spec fn view(&self) -> PostSubmissionView {
        match self {
            PostSubmission::Simulated { delay_millis } => PostSubmissionView::Simulated {
                delay_millis: *delay_millis,
            },
            PostSubmission::Outbound { request } => PostSubmissionView::Outbound {
                request: request@,
            },
        }
    }
}

impl PublishRequest {
    /// The body of the request: its payload as JSON.
    pub fn body(&self) -> (text: String)
        ensures
            text@ == self@.payload.json(),
    {
        self.payload.to_json()
    }
}

impl PostSubmissionView {
    /// How many requests the submission sends to the publish service.
    pub open spec fn outbound_calls(self) -> nat {
        match self {
            PostSubmissionView::Simulated { .. } => 0,
            PostSubmissionView::Outbound { .. } => 1,
        }
    }
}

/// What came of a submission.
#[derive(Debug, Clone, PartialEq, Eq)]
pub enum Completion {
    /// The simulated delay has passed.
    Simulated,
    /// The request failed on the way, or ran out of time; `cause` says how.
    TransportFailed { cause: String },
    /// The service answered with `status`; `body` is the answer's body as
    /// text, `None` where it could not be read.
    Responded { status: u16, body: Option<String> },
}

/// What a `Completion` holds.
pub enum CompletionView {
    Simulated,
    TransportFailed { cause: Seq<char> },
    Responded { status: u16, body: Option<Seq<char>> },
}

impl View for Completion {
    type V = CompletionView;

    open spec fn view(&self) -> CompletionView {
        match self {
            Completion::Simulated => CompletionView::Simulated,
            Completion::TransportFailed { cause } => CompletionView::TransportFailed {
                cause: cause@,
            },
            Completion::Responded { status, body } => CompletionView::Responded {
                status: *status,
                body: optional_text(*body),
            },
        }
    }
}

/// The identifier in an optional answer.
pub open spec fn response_id(response: Option<PostResponse>) -> Option<Seq<char>> {
    match response {
        Some(answer) => Some(answer@),
        None => None,
    }
}

/// The view of what `finish_post` and `read_response` return.
pub open spec fn post_result(result: Result<String, LinkedInClientError>) -> Result<
    Seq<char>,
    LinkedInClientErrorView,
> {
    match result {
        Ok(post_id) => Ok(post_id@),
        Err(error) => Err(error@),
    }
}

/// The view of what `LinkedInClient::new` returns.
pub open spec fn client_result(result: Result<LinkedInClient, LinkedInClientError>) -> Result<
    LinkedInClientView,
    LinkedInClientErrorView,
> {
    match result {
        Ok(client) => Ok(client@),
        Err(error) => Err(error@),
    }
}

/// Whether the service accepted the request: any status from 200 to 299.
pub open spec fn is_success(status: u16) -> bool {
    200 <= status <= 299
}

/// What an answer with `status` and `body` amounts to, `post_id` being the
/// text member `id` of the body where it has one.
///
/// An accepted request gives that identifier, and where there is none, an
/// `HttpError`: the service did not answer as agreed. A refused one gives an
/// `ApiError` with the status code and the body as it came.
pub open spec fn response_outcome(
    status: u16,
    body: Option<Seq<char>>,
    post_id: Option<Seq<char>>,
) -> Result<Seq<char>, LinkedInClientErrorView> {
    if is_success(status) {
        match post_id {
            Some(id) => Ok(id),
            None => Err(LinkedInClientErrorView::HttpError("error decoding response body"@)),
        }
    } else {
        Err(
            LinkedInClientErrorView::ApiError(
                decimal_text(status as nat) + ": "@ + match body {
                    Some(text) => text,
                    None => "Unknown error"@,
                },
            ),
        )
    }
}

/// The text member `id` of an answer's body, where it has one.
pub open spec fn body_post_id(body: Option<Seq<char>>) -> Option<Seq<char>> {
    match body {
        Some(text) => json_text_member(text, "id"@),
        None => None,
    }
}

/// What `completion` amounts to: the identifier of the post, or the error.
pub open spec fn completion_outcome(completion: CompletionView) -> Result<
    Seq<char>,
    LinkedInClientErrorView,
> {
    match completion {
        CompletionView::Simulated => Ok(simulated_post_id()),
        CompletionView::TransportFailed { cause } => Err(
            LinkedInClientErrorView::HttpError(cause),
        ),
        CompletionView::Responded { status, body } => response_outcome(
            status,
            body,
            body_post_id(body),
        ),
    }
}

impl LinkedInClientView {
    /// The client that the settings `token`, `person_id` and `debug_mode` give,
    /// or the error where the token cannot stand in a header: where it holds
    /// a control character of ASCII that is no tab.
    pub open spec fn configured(
        token: Seq<char>,
        person_id: Seq<char>,
        debug_mode: bool,
    ) -> Result<LinkedInClientView, LinkedInClientErrorView> {
        if header_text_ok(token) {
            Ok(LinkedInClientView { person_id, debug_mode, authorization: bearer(token) })
        } else {
            Err(LinkedInClientErrorView::ConfigError("Failed to create auth header"@))
        }
    }

    /// What is to be done to publish `content`, at `schedule` where one is
    /// given. A simulating client sends nothing; any other sends one request.
    pub open spec fn submission(self, content: Seq<char>, schedule: Option<i64>) -> PostSubmissionView {
        if self.debug_mode {
            PostSubmissionView::Simulated { delay_millis: SIMULATED_DELAY_MILLIS }
        } else {
            PostSubmissionView::Outbound {
                request: PublishRequestView {
                    url: publish_url(),
                    authorization: self.authorization,
                    content_type: "application/json"@,
                    timeout_secs: REQUEST_TIMEOUT_SECS,
                    payload: post_payload(self.person_id, content, schedule),
                },
            }
        }
    }
}

impl View for LinkedInClient {
    type V = LinkedInClientView;

    closed spec fn view(&self) -> LinkedInClientView {
        LinkedInClientView {
            person_id: self.person_id@,
            debug_mode: self.debug_mode,
            authorization: self.authorization@,
        }
    }
}

impl Clone for LinkedInClient {
    fn clone(&self) -> (copy: Self)
        ensures
            copy@ == self@,
    {
        proof {
            use_type_invariant(self);
        }
        LinkedInClient {
            person_id: self.person_id.clone(),
            debug_mode: self.debug_mode,
            authorization: self.authorization.clone(),
        }
    }
}

impl LinkedInClient {
    #[verifier::type_invariant]
    spec fn well_formed(self) -> bool {
        header_text_ok(self.authorization@)
    }

    /// Makes the client for the given settings. It fails, with a
    /// `ConfigError`, exactly when the access token holds a character that
    /// cannot stand in a header.
    pub fn new(config: &Config) -> (result: Result<LinkedInClient, LinkedInClientError>)
        ensures
            client_result(result) == LinkedInClientView::configured(
                config.linkedin_access_token@,
                config.linkedin_person_id@,
                config.debug_mode,
            ),
    {
        let authorization = joined("Bearer ", config.linkedin_access_token.as_str());
        proof {
            reveal_strlit("Bearer ");
            lemma_header_text_joined("Bearer "@, config.linkedin_access_token@);
        }
        if !accepts(authorization.as_str()) {
            return Err(LinkedInClientError::ConfigError(owned("Failed to create auth header")));
        }
        Ok(
            LinkedInClient {
                person_id: config.linkedin_person_id.clone(),
                debug_mode: config.debug_mode,
                authorization,
            },
        )
    }

    /// Whether the client only simulates publishing.
    pub fn debug_mode(&self) -> (on: bool)
        ensures
            on == self@.debug_mode,
    {
        self.debug_mode
    }

    /// The member in whose name posts are created.
    pub fn person_id(&self) -> (id: &String)
        ensures
            id@ == self@.person_id,
    {
        &self.person_id
    }

    /// The value of the `Authorization` header of every request.
    pub fn authorization(&self) -> (value: &String)
        ensures
            value@ == self@.authorization,
            header_text_ok(value@),
    {
        proof {
            use_type_invariant(self);
        }
        &self.authorization
    }

    /// Says what is to be done to publish `content`, at `schedule_time`
    /// (milliseconds since the Unix epoch) where one is given.
    ///
    /// A simulating client asks for a wait and no request. Any other asks for
    /// one POST to the publish endpoint, with its credential and the body for
    /// this post.
    pub fn create_post(&self, content: String, schedule_time: Option<i64>) -> (submission:
        PostSubmission)
        ensures
            submission@ == self@.submission(content@, schedule_time),
            submission@.outbound_calls() == if self@.debug_mode {
                0nat
            } else {
                1nat
            },
            submission@ matches PostSubmissionView::Outbound { request } ==> header_text_ok(
                request.authorization,
            ),
    {
        proof {
            use_type_invariant(self);
        }
        if self.debug_mode {
            return PostSubmission::Simulated { delay_millis: SIMULATED_DELAY_MILLIS };
        }
        let payload = PostPayload {
            author: joined("urn:li:person:", self.person_id.as_str()),
            lifecycleState: owned("PUBLISHED"),
            specificContent: SpecificContent {
                share_content: ShareContent {
                    shareCommentary: ShareCommentary { text: content },
                    shareMediaCategory: owned("NONE"),
                },
            },
            visibility: PostVisibility { visibility: owned("PUBLIC") },
            scheduledAt: schedule_time,
        };
        PostSubmission::Outbound {
            request: PublishRequest {
                url: owned("https://api.linkedin.com/v2/ugcPosts"),
                authorization: self.authorization.clone(),
                content_type: owned("application/json"),
                timeout_secs: REQUEST_TIMEOUT_SECS,
                payload,
            },
        }
    }

    /// Reads the body of an accepted request: a JSON object that holds the
    /// identifier of the post as a string under `id`. Anything else gives
    /// `None`.
    pub fn decode_response(body: &str) -> (response: Option<PostResponse>)
        ensures
            response_id(response) == json_text_member(body@, "id"@),
    {
        match text_member(body, "id") {
            Some(id) => Some(PostResponse { id }),
            None => None,
        }
    }

    /// Reads an answer of the publish service, `response` being what its body
    /// was decoded to, if it could be.
    pub fn read_response(status: u16, body: Option<String>, response: Option<PostResponse>) -> (result:
        Result<String, LinkedInClientError>)
        ensures
            post_result(result) == response_outcome(
                status,
                optional_text(body),
                response_id(response),
            ),
    {
        if 200 <= status && status <= 299 {
            match response {
                Some(answer) => Ok(answer.id),
                None => Err(LinkedInClientError::HttpError(owned("error decoding response body"))),
            }
        } else {
            let mut detail = decimal_string(status as u64);
            detail.append(": ");
            match body {
                Some(text) => detail.append(text.as_str()),
                None => detail.append("Unknown error"),
            }
            Err(LinkedInClientError::ApiError(detail))
        }
    }

    /// Turns what came of a submission into the identifier of the post, or
    /// into the error that says why there is none.
    pub fn finish_post(completion: Completion) -> (result: Result<String, LinkedInClientError>)
        ensures
            post_result(result) == completion_outcome(completion@),
    {
        match completion {
            Completion::Simulated => Ok(owned("debug-post-12345")),
            Completion::TransportFailed { cause } => Err(LinkedInClientError::HttpError(cause)),
            Completion::Responded { status, body } => {
                let response = match &body {
                    Some(text) => LinkedInClient::decode_response(text.as_str()),
                    None => None,
                };
                LinkedInClient::read_response(status, body, response)
            },
        }
    }
}

} // verus!
