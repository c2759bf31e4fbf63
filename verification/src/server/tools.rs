//! The one tool of the server, `create_post`: what it advertises, how the raw
//! arguments of a call are validated, and how a call is dispatched and
//! concluded.

use crate::linkedin::client::{
    completion_outcome, post_result, Completion, LinkedInClient,
    LinkedInClientView, PostSubmission, PostSubmissionView,
};
use crate::linkedin::error::{LinkedInClientError, LinkedInClientErrorView};
use crate::mcp::error::{LinkedInError, McpServerError, McpServerErrorView};
use crate::text::optional_text;
use crate::mcp::models::{
    LinkedInPostRequest, LinkedInPostResponse, LinkedInPostResponseView,
    PostRequest, PostRequestView,
};
use crate::schedule::{utc_millis, utc_millis_of};
use crate::text::{joined, owned, same_text};
use std::sync::Arc;
use vstd::prelude::*;

verus! {

/// One value of a raw argument mapping, as far as the tool looks at it.
#[derive(Debug, Clone, PartialEq, Eq)]
pub enum RawValue {
    /// The JSON `null`.
    Null,
    /// A JSON string.
    Text(String),
    /// Anything else: a number, a boolean, an array or an object.
    Other,
}

/// What a `RawValue` holds.
pub enum RawValueView {
    Null,
    Text(Seq<char>),
    Other,
}

impl View for RawValue {
    type V = RawValueView;

    open spec fn view(&self) -> RawValueView {
        match self {
            RawValue::Null => RawValueView::Null,
            RawValue::Text(text) => RawValueView::Text(text@),
            RawValue::Other => RawValueView::Other,
        }
    }
}

/// The arguments of a tool call as they arrived: keys and untyped values, in
/// the order of arrival.
#[derive(Debug, Clone, PartialEq, Eq)]
pub struct RawArguments {
    pub entries: Vec<(String, RawValue)>,
}

impl View for RawArguments {
    type V = Seq<(Seq<char>, RawValueView)>;

    open spec fn view(&self) -> Seq<(Seq<char>, RawValueView)> {
        Seq::new(self.entries@.len(), |i: int| (self.entries@[i].0@, self.entries@[i].1@))
    }
}

/// The value that `entries` holds under `key`: that of the first entry with
/// this key, `None` where there is no such entry.
pub open spec fn member(entries: Seq<(Seq<char>, RawValueView)>, key: Seq<char>) -> Option<
    RawValueView,
>
    decreases entries.len(),
{
    if entries.len() == 0 {
        None
    } else if entries[0].0 == key {
        Some(entries[0].1)
    } else {
        member(entries.drop_first(), key)
    }
}

impl RawArguments {
    /// The value held under `key`, that of the first entry with this key.
    pub fn get(&self, key: &str) -> (found: Option<&RawValue>)
        ensures
            match found {
                Some(value) => member(self@, key@) == Some(value@),
                None => member(self@, key@) is None,
            },
    {
        let wanted = owned(key);
        let mut i: usize = 0;
        assert(self@.skip(0) =~= self@);
        while i < self.entries.len()
            invariant
                i <= self.entries.len(),
                wanted@ == key@,
                member(self@, key@) == member(self@.skip(i as int), key@),
            decreases self.entries.len() - i,
        {
            let ghost rest = self@.skip(i as int);
            assert(rest[0] == self@[i as int]);
            if self.entries[i].0 == wanted {
                return Some(&self.entries[i].1);
            }
            assert(rest.drop_first() =~= self@.skip(i + 1));
            i += 1;
        }
        None
    }
}

/// The reason given when the text of the post is missing, is no string, or is
/// empty.
pub open spec fn content_reason() -> Seq<char> {
    "content must be a non-empty string"@
}

/// The reason given when the time to publish at cannot be read.
pub open spec fn schedule_reason() -> Seq<char> {
    "invalid schedule time format"@
}

/// The request that a text and a reading of the time to publish at amount
/// to. `content` is `None` where no text was given. `schedule` is `None` where
/// no time was asked for, `Some(None)` where one was asked for and could not be
/// read, and the instant where it could.
///
/// An unreadable time is turned down first, whatever the text.
pub open spec fn checked_request(content: Option<Seq<char>>, schedule: Option<Option<i64>>) -> Result<
    PostRequestView,
    Seq<char>,
> {
    if schedule == Some(None::<i64>) {
        Err(schedule_reason())
    } else {
        match content {
            Some(text) => if text.len() == 0 {
                Err(content_reason())
            } else {
                Ok(
                    PostRequestView {
                        content: text,
                        schedule_millis: match schedule {
                            Some(at) => at,
                            None => None,
                        },
                    },
                )
            },
            None => Err(content_reason()),
        }
    }
}

/// The text that raw arguments give for the post, where they give one.
pub open spec fn raw_content(args: Seq<(Seq<char>, RawValueView)>) -> Option<Seq<char>> {
    match member(args, "content"@) {
        Some(RawValueView::Text(text)) => Some(text),
        _ => None,
    }
}

/// The reading of the time to publish at in raw arguments. No member, or
/// `null`, asks for none; a string is read as a timestamp; anything else is
/// unreadable.
pub open spec fn raw_schedule(args: Seq<(Seq<char>, RawValueView)>) -> Option<Option<i64>> {
    match member(args, "schedule_time"@) {
        None => None,
        Some(RawValueView::Null) => None,
        Some(RawValueView::Text(text)) => Some(utc_millis_of(text)),
        Some(RawValueView::Other) => Some(None),
    }
}

/// What validating raw arguments gives: the request, or the reason it is
/// turned down with.
pub open spec fn validation(args: Seq<(Seq<char>, RawValueView)>) -> Result<
    PostRequestView,
    Seq<char>,
> {
    checked_request(raw_content(args), raw_schedule(args))
}

/// What validating a typed request gives.
pub open spec fn request_validation(content: Seq<char>, schedule_time: Option<Seq<char>>) -> Result<
    PostRequestView,
    Seq<char>,
> {
    checked_request(
        Some(content),
        match schedule_time {
            Some(text) => Some(utc_millis_of(text)),
            None => None,
        },
    )
}

/// The view of what the validating functions return.
pub open spec fn validated(result: Result<PostRequest, LinkedInError>) -> Result<
    PostRequestView,
    Seq<char>,
> {
    match result {
        Ok(request) => Ok(request@),
        Err(error) => Err(error@),
    }
}

/// What a field of the tool holds.
#[derive(Debug, Clone, Copy, PartialEq, Eq, Structural)]
pub enum FieldKind {
    Text,
    Flag,
}

/// One field of the input or of the output of a tool.
#[derive(Debug, Clone, PartialEq, Eq)]
pub struct ToolField {
    pub name: String,
    pub kind: FieldKind,
    pub required: bool,
    pub description: String,
}

/// What a `ToolField` holds.
pub struct ToolFieldView {
    pub name: Seq<char>,
    pub kind: FieldKind,
    pub required: bool,
    pub description: Seq<char>,
}

impl View for ToolField {
    type V = ToolFieldView;

    open spec fn view(&self) -> ToolFieldView {
        ToolFieldView {
            name: self.name@,
            kind: self.kind,
            required: self.required,
            description: self.description@,
        }
    }
}

/// What a tool tells of itself to a host that knows nothing else of it.
#[derive(Debug, Clone, PartialEq, Eq)]
pub struct ToolSpec {
    pub name: String,
    pub description: String,
    pub inputs: Vec<ToolField>,
    pub outputs: Vec<ToolField>,
}

/// What a `ToolSpec` holds.
pub struct ToolSpecView {
    pub name: Seq<char>,
    pub description: Seq<char>,
    pub inputs: Seq<ToolFieldView>,
    pub outputs: Seq<ToolFieldView>,
}

impl View for ToolSpec {
    type V = ToolSpecView;

    open spec fn view(&self) -> ToolSpecView {
        ToolSpecView {
            name: self.name@,
            description: self.description@,
            inputs: Seq::new(self.inputs@.len(), |i: int| self.inputs@[i]@),
            outputs: Seq::new(self.outputs@.len(), |i: int| self.outputs@[i]@),
        }
    }
}

/// The name of the one tool.
pub open spec fn tool_name() -> Seq<char> {
    "create_post"@
}

/// What the tool `create_post` advertises: a required text `content` and an
/// optional text `schedule_time` go in; a flag `success`, an optional text
/// `post_id` and a text `message` come out.
pub open spec fn create_post_tool() -> ToolSpecView {
    ToolSpecView {
        name: tool_name(),
        description: "Create a LinkedIn post. Optionally schedule it for a future time."@,
        inputs: seq![
            ToolFieldView {
                name: "content"@,
                kind: FieldKind::Text,
                required: true,
                description: "The text content for the LinkedIn post"@,
            },
            ToolFieldView {
                name: "schedule_time"@,
                kind: FieldKind::Text,
                required: false,
                description: "Optional ISO 8601 timestamp for scheduling the post (ISO 8601 format)"@,
            },
        ],
        outputs: seq![
            ToolFieldView {
                name: "success"@,
                kind: FieldKind::Flag,
                required: true,
                description: "Whether the post was successfully created"@,
            },
            ToolFieldView {
                name: "post_id"@,
                kind: FieldKind::Text,
                required: false,
                description: "The ID of the created LinkedIn post if successful"@,
            },
            ToolFieldView {
                name: "message"@,
                kind: FieldKind::Text,
                required: true,
                description: "A message describing the result of the operation"@,
            },
        ],
    }
}

/// How far a tool call has come.
#[derive(Clone, PartialEq, Eq)]
pub enum ToolStep {
    /// The call is over, and this is its result.
    Finished(LinkedInPostResponse),
    /// The call waits for this submission to be carried out.
    Pending(PostSubmission),
}

/// What a `ToolStep` holds.
pub enum ToolStepView {
    Finished(LinkedInPostResponseView),
    Pending(PostSubmissionView),
}

impl View for ToolStep {
    type V = ToolStepView;

    open spec fn view(&self) -> ToolStepView {
        match self {
            ToolStep::Finished(response) => ToolStepView::Finished(response@),
            ToolStep::Pending(submission) => ToolStepView::Pending(submission@),
        }
    }
}

/// The step that a validated, or turned down, call takes with `client`. A
/// call that is turned down ends at once, as a failed result with the reason
/// for its message, and the client is not asked for anything.
pub open spec fn first_step(
    client: LinkedInClientView,
    checked: Result<PostRequestView, Seq<char>>,
) -> ToolStepView {
    match checked {
        Ok(request) => ToolStepView::Pending(
            client.submission(request.content, request.schedule_millis),
        ),
        Err(reason) => ToolStepView::Finished(LinkedInPostResponseView::failed(reason)),
    }
}

/// What calling the tool `name` with `args` gives: `MethodNotFound` for any
/// name but that of the one tool, else the first step of the call.
pub open spec fn dispatch(
    client: LinkedInClientView,
    name: Seq<char>,
    args: Seq<(Seq<char>, RawValueView)>,
) -> Result<ToolStepView, McpServerErrorView> {
    if name == tool_name() {
        Ok(first_step(client, validation(args)))
    } else {
        Err(McpServerErrorView::MethodNotFound(name))
    }
}

/// The result of a call whose submission came to `outcome`.
pub open spec fn conclusion(outcome: Result<Seq<char>, LinkedInClientErrorView>) -> LinkedInPostResponseView {
    match outcome {
        Ok(post_id) => LinkedInPostResponseView::created(post_id),
        Err(error) => LinkedInPostResponseView::failed(
            "Failed to create post: "@ + error.message(),
        ),
    }
}

/// The view of what `invoke` returns.
pub open spec fn dispatched(result: Result<ToolStep, McpServerError>) -> Result<
    ToolStepView,
    McpServerErrorView,
> {
    match result {
        Ok(step) => Ok(step@),
        Err(error) => Err(error@),
    }
}

/// The tools of the server, which is one, and the client they publish with.
#[derive(Clone, PartialEq, Eq)]
pub struct LinkedInTools {
    client: Arc<LinkedInClient>,
}

impl LinkedInTools {
    /// The client that the tools publish with.
    pub closed spec fn client(&self) -> LinkedInClientView {
        self.client@
    }

    pub fn new(client: LinkedInClient) -> (tools: LinkedInTools)
        ensures
            tools.client() == client@,
    {
        LinkedInTools { client: Arc::new(client) }
    }

    /// What the server advertises: the one tool.
    pub fn list() -> (tools: Vec<ToolSpec>)
        ensures
            tools@.len() == 1,
            tools@[0]@ == create_post_tool(),
    {
        let mut inputs: Vec<ToolField> = Vec::new();
        inputs.push(
            ToolField {
                name: owned("content"),
                kind: FieldKind::Text,
                required: true,
                description: owned("The text content for the LinkedIn post"),
            },
        );
        inputs.push(
            ToolField {
                name: owned("schedule_time"),
                kind: FieldKind::Text,
                required: false,
                description: owned(
                    "Optional ISO 8601 timestamp for scheduling the post (ISO 8601 format)",
                ),
            },
        );
        let mut outputs: Vec<ToolField> = Vec::new();
        outputs.push(
            ToolField {
                name: owned("success"),
                kind: FieldKind::Flag,
                required: true,
                description: owned("Whether the post was successfully created"),
            },
        );
        outputs.push(
            ToolField {
                name: owned("post_id"),
                kind: FieldKind::Text,
                required: false,
                description: owned("The ID of the created LinkedIn post if successful"),
            },
        );
        outputs.push(
            ToolField {
                name: owned("message"),
                kind: FieldKind::Text,
                required: true,
                description: owned("A message describing the result of the operation"),
            },
        );
        let tool = ToolSpec {
            name: owned("create_post"),
            description: owned("Create a LinkedIn post. Optionally schedule it for a future time."),
            inputs,
            outputs,
        };
        assert(tool@.inputs =~= create_post_tool().inputs);
        assert(tool@.outputs =~= create_post_tool().outputs);
        let mut tools: Vec<ToolSpec> = Vec::new();
        tools.push(tool);
        tools
    }

    /// Makes the request out of a text and a reading of the time to publish
    /// at, or turns it down. See `checked_request` for what the arguments mean.
    pub fn check_request(content: Option<String>, schedule: Option<Option<i64>>) -> (result: Result<
        PostRequest,
        LinkedInError,
    >)
        ensures
            validated(result) == checked_request(optional_text(content), schedule),
    {
        let schedule_millis = match schedule {
            Some(None) => {
                return Err(LinkedInError(owned("invalid schedule time format")));
            },
            Some(Some(at)) => Some(at),
            None => None,
        };
        match content {
            Some(text) => {
                if text.as_str().is_empty() {
                    Err(LinkedInError(owned("content must be a non-empty string")))
                } else {
                    Ok(PostRequest { content: text, schedule_millis })
                }
            },
            None => Err(LinkedInError(owned("content must be a non-empty string"))),
        }
    }

    /// Validates the raw arguments of a call. The text must be there, a
    /// string and not empty; the time to publish at, where there is one, must
    /// be a timestamp. No limit is put on the length of the text.
    pub fn validate(raw: &RawArguments) -> (result: Result<PostRequest, LinkedInError>)
        ensures
            validated(result) == validation(raw@),
    {
        let content = match raw.get("content") {
            Some(RawValue::Text(text)) => Some(text.clone()),
            _ => None,
        };
        let schedule = match raw.get("schedule_time") {
            None => None,
            Some(RawValue::Null) => None,
            Some(RawValue::Text(text)) => Some(utc_millis(text.as_str())),
            Some(RawValue::Other) => Some(None),
        };
        LinkedInTools::check_request(content, schedule)
    }

    /// Validates a request whose fields are typed already.
    pub fn validate_request(request: LinkedInPostRequest) -> (result: Result<
        PostRequest,
        LinkedInError,
    >)
        ensures
            validated(result) == request_validation(request@.content, request@.schedule_time),
    {
        let schedule = match &request.schedule_time {
            Some(text) => Some(utc_millis(text.as_str())),
            None => None,
        };
        LinkedInTools::check_request(Some(request.content), schedule)
    }

    /// Takes a validated, or turned down, call its first step.
    pub fn begin(&self, checked: Result<PostRequest, LinkedInError>) -> (step: ToolStep)
        ensures
            step@ == first_step(self.client(), validated(checked)),
    {
        match checked {
            Ok(request) => ToolStep::Pending(
                self.client.create_post(request.content, request.schedule_millis),
            ),
            Err(reason) => ToolStep::Finished(LinkedInPostResponse::failed(reason.0)),
        }
    }

    /// Runs the tool on a typed request as far as it goes without sending
    /// anything: to a failed result where the request is turned down, else to
    /// the submission that publishes the post.
    pub fn create_post(&self, req: LinkedInPostRequest) -> (step: ToolStep)
        ensures
            step@ == first_step(
                self.client(),
                request_validation(req@.content, req@.schedule_time),
            ),
    {
        self.begin(LinkedInTools::validate_request(req))
    }

    /// Calls the tool `name` with the raw arguments `raw`. A name that is not
    /// that of a tool gives `MethodNotFound`. Every failure of the tool itself
    /// comes back as a result, not as an error.
    pub fn invoke(&self, name: &str, raw: &RawArguments) -> (result: Result<
        ToolStep,
        McpServerError,
    >)
        ensures
            dispatched(result) == dispatch(self.client(), name@, raw@),
    {
        if same_text(name, "create_post") {
            Ok(self.begin(LinkedInTools::validate(raw)))
        } else {
            Err(McpServerError::MethodNotFound(owned(name)))
        }
    }

    /// The result of a call whose submission gave the post `outcome`, or
    /// failed with it.
    pub fn conclude(outcome: Result<String, LinkedInClientError>) -> (response:
        LinkedInPostResponse)
        ensures
            response@ == conclusion(post_result(outcome)),
            response@.wf(),
    {
        match outcome {
            Ok(post_id) => LinkedInPostResponse::created(post_id),
            Err(error) => {
                let message = joined("Failed to create post: ", error.message().as_str());
                LinkedInPostResponse::failed(message)
            },
        }
    }

    /// The result of a call, from what came of its submission.
    pub fn complete(completion: Completion) -> (response: LinkedInPostResponse)
        ensures
            response@ == conclusion(completion_outcome(completion@)),
            response@.wf(),
    {
        LinkedInTools::conclude(LinkedInClient::finish_post(completion))
    }
}

} // verus!
