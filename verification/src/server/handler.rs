//! The session of one client: a state machine that takes one event at a time
//! and answers each with at most one action.
//!
//! A session starts `Uninitialized`, becomes `Ready` with the handshake and
//! ends `Closed`. It sends and awaits nothing itself: a tool call that needs
//! the publish service comes back as `SessionAction::Submit`, and whoever
//! carries the submission out reports with `SessionEvent::Completed`. Any
//! number of calls may wait for the publish service at a time.

use super::tools::{
    conclusion, create_post_tool, dispatch, LinkedInTools, RawArguments, RawValueView, ToolSpec,
    ToolSpecView, ToolStep, ToolStepView,
};
use crate::linkedin::client::{
    completion_outcome, Completion, CompletionView, LinkedInClient, LinkedInClientView,
    PostSubmission, PostSubmissionView,
};
use crate::mcp::error::{McpServerError, McpServerErrorView};
use crate::mcp::models::{LinkedInPostResponse, LinkedInPostResponseView};
use crate::text::{optional_text, owned};
use vstd::prelude::*;

verus! {

/// Where a session is in its life.
#[derive(Debug, Clone, Copy, PartialEq, Eq, Structural)]
pub enum SessionState {
    /// No handshake yet.
    Uninitialized,
    /// The handshake is done; tools may be listed and called.
    Ready,
    /// Over. Nothing is processed any more.
    Closed,
}

/// The identifier that a client gives a request.
#[derive(Debug, Clone, PartialEq, Eq)]
pub enum RequestId {
    Number(u32),
    Text(String),
}

/// What a `RequestId` holds.
pub enum RequestIdView {
    Number(u32),
    Text(Seq<char>),
}

impl View for RequestId {
    type V = RequestIdView;

    open spec fn view(&self) -> RequestIdView {
        match self {
            RequestId::Number(n) => RequestIdView::Number(*n),
            RequestId::Text(text) => RequestIdView::Text(text@),
        }
    }
}

impl RequestId {
    /// Whether two identifiers are the same.
    pub fn same_as(&self, other: &RequestId) -> (same: bool)
        ensures
            same == (self@ == other@),
    {
        match (self, other) {
            (RequestId::Number(a), RequestId::Number(b)) => *a == *b,
            (RequestId::Text(a), RequestId::Text(b)) => *a == *b,
            _ => false,
        }
    }

    /// A copy of the identifier.
    pub fn duplicate(&self) -> (copy: RequestId)
        ensures
            copy@ == self@,
    {
        match self {
            RequestId::Number(n) => RequestId::Number(*n),
            RequestId::Text(text) => RequestId::Text(text.clone()),
        }
    }
}

/// What a client says of itself in the handshake.
#[derive(Debug, Clone, PartialEq, Eq)]
pub struct PeerInfo {
    /// The protocol version the client asks for.
    pub protocol_version: String,
    pub client_name: String,
    pub client_version: String,
}

/// What a `PeerInfo` holds.
pub struct PeerInfoView {
    pub protocol_version: Seq<char>,
    pub client_name: Seq<char>,
    pub client_version: Seq<char>,
}

impl View for PeerInfo {
    type V = PeerInfoView;

    open spec fn view(&self) -> PeerInfoView {
        PeerInfoView {
            protocol_version: self.protocol_version@,
            client_name: self.client_name@,
            client_version: self.client_version@,
        }
    }
}

/// What the server says of itself in the handshake.
#[derive(Debug, Clone, PartialEq, Eq)]
pub struct ServerInfo {
    pub protocol_version: String,
    pub server_name: String,
    pub server_version: String,
    pub instructions: Option<String>,
    /// Whether the server offers tools.
    pub tools_enabled: bool,
}

/// What a `ServerInfo` holds.
pub struct ServerInfoView {
    pub protocol_version: Seq<char>,
    pub server_name: Seq<char>,
    pub server_version: Seq<char>,
    pub instructions: Option<Seq<char>>,
    pub tools_enabled: bool,
}

impl View for ServerInfo {
    type V = ServerInfoView;

    open spec fn view(&self) -> ServerInfoView {
        ServerInfoView {
            protocol_version: self.protocol_version@,
            server_name: self.server_name@,
            server_version: self.server_version@,
            instructions: optional_text(self.instructions),
            tools_enabled: self.tools_enabled,
        }
    }
}

/// The protocol version that the server speaks, and that every handshake
/// settles on.
pub open spec fn protocol_version() -> Seq<char> {
    "2024-11-05"@
}

/// What the server says of itself: its name and version, the protocol
/// version, and that it offers tools.
pub open spec fn server_info() -> ServerInfoView {
    ServerInfoView {
        protocol_version: protocol_version(),
        server_name: "LinkedIn Post Server"@,
        server_version: "1.0.0"@,
        instructions: Some("A server for creating LinkedIn posts"@),
        tools_enabled: true,
    }
}

/// A request of the client.
#[derive(Debug, Clone, PartialEq, Eq)]
pub enum ClientRequest {
    /// The handshake.
    Initialize { peer: PeerInfo },
    /// Asks which tools there are.
    ListTools,
    /// Calls the tool `name` with `arguments`.
    CallTool { name: String, arguments: RawArguments },
    /// Any other request, by the name of its method.
    Other { method: String },
}

/// What a `ClientRequest` holds.
pub enum ClientRequestView {
    Initialize { peer: PeerInfoView },
    ListTools,
    CallTool { name: Seq<char>, arguments: Seq<(Seq<char>, RawValueView)> },
    Other { method: Seq<char> },
}

impl View for ClientRequest {
    type V = ClientRequestView;

    open spec fn view(&self) -> ClientRequestView {
        match self {
            ClientRequest::Initialize { peer } => ClientRequestView::Initialize { peer: peer@ },
            ClientRequest::ListTools => ClientRequestView::ListTools,
            ClientRequest::CallTool { name, arguments } => ClientRequestView::CallTool {
                name: name@,
                arguments: arguments@,
            },
            ClientRequest::Other { method } => ClientRequestView::Other { method: method@ },
        }
    }
}

/// A notification of the client. None is answered.
#[derive(Debug, Clone, PartialEq, Eq)]
pub enum ClientNotification {
    /// The client no longer waits for the answer to `request_id`.
    Cancelled { request_id: RequestId },
    /// Any other notification, by the name of its method.
    Other { method: String },
}

/// What a `ClientNotification` holds.
pub enum ClientNotificationView {
    Cancelled { request_id: RequestIdView },
    Other { method: Seq<char> },
}

impl View for ClientNotification {
    type V = ClientNotificationView;

    open spec fn view(&self) -> ClientNotificationView {
        match self {
            ClientNotification::Cancelled { request_id } => ClientNotificationView::Cancelled {
                request_id: request_id@,
            },
            ClientNotification::Other { method } => ClientNotificationView::Other {
                method: method@,
            },
        }
    }
}

/// What can happen to a session.
#[derive(Debug, Clone, PartialEq, Eq)]
pub enum SessionEvent {
    /// A request arrived.
    Request { id: RequestId, request: ClientRequest },
    /// A notification arrived.
    Notification { notification: ClientNotification },
    /// The submission that the session asked for on behalf of the request
    /// `id` has been carried out.
    Completed { id: RequestId, completion: Completion },
    /// The transport was closed.
    TransportClosed,
    /// A message arrived that could not be decoded, and the stream cannot be
    /// trusted any more.
    DecodeFailed,
}

/// What a `SessionEvent` holds.
pub enum SessionEventView {
    Request { id: RequestIdView, request: ClientRequestView },
    Notification { notification: ClientNotificationView },
    Completed { id: RequestIdView, completion: CompletionView },
    TransportClosed,
    DecodeFailed,
}

impl View for SessionEvent {
    type V = SessionEventView;

    open spec fn view(&self) -> SessionEventView {
        match self {
            SessionEvent::Request { id, request } => SessionEventView::Request {
                id: id@,
                request: request@,
            },
            SessionEvent::Notification { notification } => SessionEventView::Notification {
                notification: notification@,
            },
            SessionEvent::Completed { id, completion } => SessionEventView::Completed {
                id: id@,
                completion: completion@,
            },
            SessionEvent::TransportClosed => SessionEventView::TransportClosed,
            SessionEvent::DecodeFailed => SessionEventView::DecodeFailed,
        }
    }
}

/// What a request is answered with.
#[derive(Debug, Clone, PartialEq, Eq)]
pub enum ReplyBody {
    /// The answer to the handshake.
    Initialized(ServerInfo),
    /// The tools there are.
    Tools(Vec<ToolSpec>),
    /// The result of a tool call, success or failure.
    ToolResult(LinkedInPostResponse),
    /// A fault of the protocol.
    Fault(McpServerError),
}

/// What a `ReplyBody` holds.
pub enum ReplyBodyView {
    Initialized(ServerInfoView),
    Tools(Seq<ToolSpecView>),
    ToolResult(LinkedInPostResponseView),
    Fault(McpServerErrorView),
}

impl View for ReplyBody {
    type V = ReplyBodyView;

    open spec fn view(&self) -> ReplyBodyView {
        match self {
            ReplyBody::Initialized(info) => ReplyBodyView::Initialized(info@),
            ReplyBody::Tools(tools) => ReplyBodyView::Tools(
                Seq::new(tools@.len(), |i: int| tools@[i]@),
            ),
            ReplyBody::ToolResult(response) => ReplyBodyView::ToolResult(response@),
            ReplyBody::Fault(fault) => ReplyBodyView::Fault(fault@),
        }
    }
}

/// What the session asks to be done after an event.
#[derive(Clone, PartialEq, Eq)]
pub enum SessionAction {
    /// Answer the request `id` with `body`.
    Reply { id: RequestId, body: ReplyBody },
    /// Carry out `submission` for the request `id`, then report with
    /// `SessionEvent::Completed`.
    Submit { id: RequestId, submission: PostSubmission },
    /// Do nothing.
    Nothing,
}

/// What a `SessionAction` holds.
pub enum SessionActionView {
    Reply { id: RequestIdView, body: ReplyBodyView },
    Submit { id: RequestIdView, submission: PostSubmissionView },
    Nothing,
}

impl View for SessionAction {
    type V = SessionActionView;

    open spec fn view(&self) -> SessionActionView {
        match self {
            SessionAction::Reply { id, body } => SessionActionView::Reply {
                id: id@,
                body: body@,
            },
            SessionAction::Submit { id, submission } => SessionActionView::Submit {
                id: id@,
                submission: submission@,
            },
            SessionAction::Nothing => SessionActionView::Nothing,
        }
    }
}

/// A tool call whose submission is being carried out.
#[derive(Debug, Clone, PartialEq, Eq)]
pub struct InFlight {
    /// The request that made the call.
    pub request_id: RequestId,
    /// Whether the client has given the request up since.
    pub abandoned: bool,
}

/// What an `InFlight` holds.
pub struct InFlightView {
    pub request_id: RequestIdView,
    pub abandoned: bool,
}

impl View for InFlight {
    type V = InFlightView;

    open spec fn view(&self) -> InFlightView {
        InFlightView { request_id: self.request_id@, abandoned: self.abandoned }
    }
}

/// The detail of the fault for a request that comes before the handshake.
pub open spec fn not_initialized() -> Seq<char> {
    "session is not initialized"@
}

/// The detail of the fault for a second handshake.
pub open spec fn already_initialized() -> Seq<char> {
    "session is already initialized"@
}

/// The life of a session, with what it holds in each part of it. Only a
/// session past its handshake knows its peer, and only such a session has
/// tool calls in flight.
#[derive(Debug, Clone, PartialEq, Eq)]
pub enum Lifecycle {
    /// No handshake yet.
    Uninitialized,
    /// Bound to `peer` by the handshake; `in_flight` are the tool calls that
    /// wait for the publish service, the longest waiting first.
    Ready { peer: PeerInfo, in_flight: Vec<InFlight> },
    /// Over.
    Closed,
}

/// What a `Lifecycle` holds.
pub enum LifecycleView {
    Uninitialized,
    Ready { peer: PeerInfoView, in_flight: Seq<InFlightView> },
    Closed,
}

/// What a list of calls in flight holds.
pub open spec fn in_flight_view(in_flight: Vec<InFlight>) -> Seq<InFlightView> {
    Seq::new(in_flight@.len(), |i: int| in_flight@[i]@)
}

impl View for Lifecycle {
    type V = LifecycleView;

    open spec fn view(&self) -> LifecycleView {
        match self {
            Lifecycle::Uninitialized => LifecycleView::Uninitialized,
            Lifecycle::Ready { peer, in_flight } => LifecycleView::Ready {
                peer: peer@,
                in_flight: in_flight_view(*in_flight),
            },
            Lifecycle::Closed => LifecycleView::Closed,
        }
    }
}

/// A call in flight after the client gave up the request `request_id`: it is
/// marked abandoned if it is this request's, and is as before if not.
pub open spec fn given_up(call: InFlightView, request_id: RequestIdView) -> InFlightView {
    if call.request_id == request_id {
        InFlightView { request_id: call.request_id, abandoned: true }
    } else {
        call
    }
}

/// The calls in flight after the client gave up the request `request_id`.
pub open spec fn after_cancellation(
    in_flight: Seq<InFlightView>,
    request_id: RequestIdView,
) -> Seq<InFlightView> {
    Seq::new(in_flight.len(), |i: int| given_up(in_flight[i], request_id))
}

/// The calls in flight after a notification. Only a cancellation leaves a
/// trace.
pub open spec fn after_notification(
    in_flight: Seq<InFlightView>,
    notification: ClientNotificationView,
) -> Seq<InFlightView> {
    match notification {
        ClientNotificationView::Cancelled { request_id } => after_cancellation(
            in_flight,
            request_id,
        ),
        ClientNotificationView::Other { .. } => in_flight,
    }
}

/// Where the first call of the request `request_id` stands among the calls
/// in flight; their number, where it has none.
pub open spec fn position(in_flight: Seq<InFlightView>, request_id: RequestIdView) -> int
    decreases in_flight.len(),
{
    if in_flight.len() == 0 {
        0
    } else if in_flight[0].request_id == request_id {
        0
    } else {
        1 + position(in_flight.drop_first(), request_id)
    }
}

/// What follows when the submission asked for on behalf of the request
/// `request_id` has been carried out: the call leaves the calls in flight, and
/// it is answered unless the client gave it up. A completion that belongs to no
/// call in flight changes nothing and is not answered.
pub open spec fn after_completion(
    in_flight: Seq<InFlightView>,
    request_id: RequestIdView,
    completion: CompletionView,
) -> (Seq<InFlightView>, SessionActionView) {
    let at = position(in_flight, request_id);
    if at < in_flight.len() {
        (
            in_flight.remove(at),
            if in_flight[at].abandoned {
                SessionActionView::Nothing
            } else {
                SessionActionView::Reply {
                    id: in_flight[at].request_id,
                    body: ReplyBodyView::ToolResult(conclusion(completion_outcome(completion))),
                }
            },
        )
    } else {
        (in_flight, SessionActionView::Nothing)
    }
}

/// A fault as the answer to the request `id`.
pub open spec fn fault_reply(id: RequestIdView, fault: McpServerErrorView) -> SessionActionView {
    SessionActionView::Reply { id, body: ReplyBodyView::Fault(fault) }
}

/// A request before the handshake: the handshake is answered and binds the
/// peer; anything else is an `InvalidRequest` and leaves the session as it was.
pub open spec fn greeted(id: RequestIdView, request: ClientRequestView) -> (
    LifecycleView,
    SessionActionView,
) {
    match request {
        ClientRequestView::Initialize { peer } => (
            LifecycleView::Ready { peer, in_flight: Seq::empty() },
            SessionActionView::Reply { id, body: ReplyBodyView::Initialized(server_info()) },
        ),
        _ => (
            LifecycleView::Uninitialized,
            fault_reply(id, McpServerErrorView::InvalidRequest(not_initialized())),
        ),
    }
}

/// A tool call past the handshake: the calls in flight afterwards, and what
/// is asked for. The dispatcher decides; the session only routes. A call that
/// needs the publish service joins the calls in flight.
pub open spec fn called(
    client: LinkedInClientView,
    in_flight: Seq<InFlightView>,
    id: RequestIdView,
    name: Seq<char>,
    arguments: Seq<(Seq<char>, RawValueView)>,
) -> (Seq<InFlightView>, SessionActionView) {
    match dispatch(client, name, arguments) {
        Err(fault) => (in_flight, fault_reply(id, fault)),
        Ok(ToolStepView::Finished(response)) => (
            in_flight,
            SessionActionView::Reply { id, body: ReplyBodyView::ToolResult(response) },
        ),
        Ok(ToolStepView::Pending(submission)) => (
            in_flight.push(InFlightView { request_id: id, abandoned: false }),
            SessionActionView::Submit { id, submission },
        ),
    }
}

/// A request past the handshake: the calls in flight afterwards, and what is
/// asked for. A second handshake is an `InvalidRequest`; a method that the
/// session does not know is a `MethodNotFound`.
pub open spec fn served(
    client: LinkedInClientView,
    in_flight: Seq<InFlightView>,
    id: RequestIdView,
    request: ClientRequestView,
) -> (Seq<InFlightView>, SessionActionView) {
    match request {
        ClientRequestView::Initialize { .. } => (
            in_flight,
            fault_reply(id, McpServerErrorView::InvalidRequest(already_initialized())),
        ),
        ClientRequestView::ListTools => (
            in_flight,
            SessionActionView::Reply { id, body: ReplyBodyView::Tools(seq![create_post_tool()]) },
        ),
        ClientRequestView::CallTool { name, arguments } => called(
            client,
            in_flight,
            id,
            name,
            arguments,
        ),
        ClientRequestView::Other { method } => (
            in_flight,
            fault_reply(id, McpServerErrorView::MethodNotFound(method)),
        ),
    }
}

/// What a session holds.
pub struct SessionView {
    /// The client that the tools publish with.
    pub client: LinkedInClientView,
    pub lifecycle: LifecycleView,
}

impl SessionView {
    /// A session before its handshake.
    pub open spec fn fresh(client: LinkedInClientView) -> SessionView {
        SessionView { client, lifecycle: LifecycleView::Uninitialized }
    }

    /// Where the session is in its life.
    pub open spec fn state(self) -> SessionState {
        match self.lifecycle {
            LifecycleView::Uninitialized => SessionState::Uninitialized,
            LifecycleView::Ready { .. } => SessionState::Ready,
            LifecycleView::Closed => SessionState::Closed,
        }
    }

    /// The client at the other end, once the handshake has named it.
    pub open spec fn peer(self) -> Option<PeerInfoView> {
        match self.lifecycle {
            LifecycleView::Ready { peer, .. } => Some(peer),
            _ => None,
        }
    }

    /// The protocol version that the handshake settled on: the one the server
    /// speaks.
    pub open spec fn protocol_version(self) -> Option<Seq<char>> {
        match self.lifecycle {
            LifecycleView::Ready { .. } => Some(protocol_version()),
            _ => None,
        }
    }

    /// The tool calls that wait for the publish service, the longest waiting
    /// first.
    pub open spec fn in_flight(self) -> Seq<InFlightView> {
        match self.lifecycle {
            LifecycleView::Ready { in_flight, .. } => in_flight,
            _ => Seq::empty(),
        }
    }

    /// The session with `peer` bound to it. Only a session before its
    /// handshake takes a peer; it is `Ready` from then on.
    pub open spec fn bound(self, peer: PeerInfoView) -> SessionView {
        match self.lifecycle {
            LifecycleView::Uninitialized => SessionView {
                client: self.client,
                lifecycle: LifecycleView::Ready { peer, in_flight: Seq::empty() },
            },
            _ => self,
        }
    }

    /// The session after `event`, and what it asks to be done.
    ///
    /// A closed session takes nothing in. The end of the transport and an
    /// undecodable message close the session, whatever its state, and with
    /// that it lets go of what it held for its client. Notifications are never
    /// answered and never fail.
    pub open spec fn step(self, event: SessionEventView) -> (SessionView, SessionActionView) {
        let (lifecycle, action) = match self.lifecycle {
            LifecycleView::Closed => (LifecycleView::Closed, SessionActionView::Nothing),
            LifecycleView::Uninitialized => match event {
                SessionEventView::TransportClosed => (
                    LifecycleView::Closed,
                    SessionActionView::Nothing,
                ),
                SessionEventView::DecodeFailed => (
                    LifecycleView::Closed,
                    SessionActionView::Nothing,
                ),
                SessionEventView::Request { id, request } => greeted(id, request),
                _ => (LifecycleView::Uninitialized, SessionActionView::Nothing),
            },
            LifecycleView::Ready { peer, in_flight } => match event {
                SessionEventView::TransportClosed => (
                    LifecycleView::Closed,
                    SessionActionView::Nothing,
                ),
                SessionEventView::DecodeFailed => (
                    LifecycleView::Closed,
                    SessionActionView::Nothing,
                ),
                SessionEventView::Notification { notification } => (
                    LifecycleView::Ready {
                        peer,
                        in_flight: after_notification(in_flight, notification),
                    },
                    SessionActionView::Nothing,
                ),
                SessionEventView::Completed { id, completion } => {
                    let (in_flight, action) = after_completion(in_flight, id, completion);
                    (LifecycleView::Ready { peer, in_flight }, action)
                },
                SessionEventView::Request { id, request } => {
                    let (in_flight, action) = served(self.client, in_flight, id, request);
                    (LifecycleView::Ready { peer, in_flight }, action)
                },
            },
        };
        (SessionView { client: self.client, lifecycle }, action)
    }
}

/// The server's end of one session.
#[derive(Clone, PartialEq, Eq)]
pub struct LinkedInPostServer {
    tools: LinkedInTools,
    lifecycle: Lifecycle,
}

impl View for LinkedInPostServer {
    type V = SessionView;

    closed spec fn view(&self) -> SessionView {
        SessionView { client: self.tools.client(), lifecycle: self.lifecycle@ }
    }
}

/// A fault as the answer to the request `id`.
fn fault_for(id: RequestId, fault: McpServerError) -> (action: SessionAction)
    ensures
        action@ == fault_reply(id@, fault@),
{
    SessionAction::Reply { id, body: ReplyBody::Fault(fault) }
}

/// Marks abandoned the calls in flight that are the request `request_id`'s.
fn cancel(in_flight: Vec<InFlight>, request_id: &RequestId) -> (after: Vec<InFlight>)
    ensures
        in_flight_view(after) == after_cancellation(in_flight_view(in_flight), request_id@),
{
    let ghost before = in_flight_view(in_flight);
    let mut calls = in_flight;
    let mut i: usize = 0;
    while i < calls.len()
        invariant
            i <= calls.len(),
            calls.len() == before.len(),
            forall|j: int| 0 <= j < i ==> calls@[j]@ == given_up(before[j], request_id@),
            forall|j: int| i <= j < calls.len() ==> calls@[j]@ == before[j],
        decreases calls.len() - i,
    {
        if calls[i].request_id.same_as(request_id) {
            let call = calls.remove(i);
            calls.insert(i, InFlight { request_id: call.request_id, abandoned: true });
        }
        i += 1;
    }
    assert(in_flight_view(calls) =~= after_cancellation(before, request_id@));
    calls
}

/// Where the first call of the request `request_id` stands among the calls
/// in flight; their number, where it has none.
fn find(in_flight: &Vec<InFlight>, request_id: &RequestId) -> (at: usize)
    ensures
        at == position(in_flight_view(*in_flight), request_id@),
        at <= in_flight.len(),
{
    let ghost calls = in_flight_view(*in_flight);
    let mut i: usize = 0;
    assert(calls.skip(0) =~= calls);
    while i < in_flight.len()
        invariant
            i <= in_flight.len(),
            calls == in_flight_view(*in_flight),
            position(calls, request_id@) == i + position(calls.skip(i as int), request_id@),
        decreases in_flight.len() - i,
    {
        let ghost rest = calls.skip(i as int);
        assert(rest[0] == calls[i as int]);
        if in_flight[i].request_id.same_as(request_id) {
            return i;
        }
        assert(rest.drop_first() =~= calls.skip(i + 1));
        i += 1;
    }
    i
}

/// Ends the call of the request `request_id` with what came of its
/// submission.
fn complete(in_flight: Vec<InFlight>, request_id: &RequestId, completion: Completion) -> (after: (
    Vec<InFlight>,
    SessionAction,
))
    ensures
        (in_flight_view(after.0), after.1@) == after_completion(
            in_flight_view(in_flight),
            request_id@,
            completion@,
        ),
{
    let ghost before = in_flight_view(in_flight);
    let mut calls = in_flight;
    let at = find(&calls, request_id);
    if at < calls.len() {
        let call = calls.remove(at);
        assert(in_flight_view(calls) =~= before.remove(at as int));
        let action = if call.abandoned {
            SessionAction::Nothing
        } else {
            SessionAction::Reply {
                id: call.request_id,
                body: ReplyBody::ToolResult(LinkedInTools::complete(completion)),
            }
        };
        (calls, action)
    } else {
        (calls, SessionAction::Nothing)
    }
}

impl LinkedInPostServer {
    /// A session before its handshake, publishing with `client`.
    pub fn new(client: LinkedInClient) -> (server: LinkedInPostServer)
        ensures
            server@ == SessionView::fresh(client@),
    {
        LinkedInPostServer { tools: LinkedInTools::new(client), lifecycle: Lifecycle::Uninitialized }
    }

    /// What the server says of itself in the handshake.
    pub fn get_info(&self) -> (info: ServerInfo)
        ensures
            info@ == server_info(),
    {
        ServerInfo {
            protocol_version: owned("2024-11-05"),
            server_name: owned("LinkedIn Post Server"),
            server_version: owned("1.0.0"),
            instructions: Some(owned("A server for creating LinkedIn posts")),
            tools_enabled: true,
        }
    }

    /// The client at the other end, once the handshake has named it.
    pub fn get_peer(&self) -> (peer: Option<&PeerInfo>)
        ensures
            match peer {
                Some(info) => self@.peer() == Some(info@),
                None => self@.peer() is None,
            },
    {
        match &self.lifecycle {
            Lifecycle::Ready { peer, in_flight: _ } => Some(peer),
            _ => None,
        }
    }

    /// Binds `peer` to a session that has none yet, which makes it `Ready`.
    /// A session that is `Ready` or `Closed` stays as it is.
    pub fn set_peer(&mut self, peer: PeerInfo)
        ensures
            final(self)@ == old(self)@.bound(peer@),
    {
        match self.lifecycle {
            Lifecycle::Uninitialized => {
                let in_flight: Vec<InFlight> = Vec::new();
                assert(in_flight_view(in_flight) =~= Seq::<InFlightView>::empty());
                self.lifecycle = Lifecycle::Ready { peer, in_flight };
            },
            _ => {},
        }
    }

    /// Where the session is in its life.
    pub fn state(&self) -> (state: SessionState)
        ensures
            state == self@.state(),
    {
        match self.lifecycle {
            Lifecycle::Uninitialized => SessionState::Uninitialized,
            Lifecycle::Ready { .. } => SessionState::Ready,
            Lifecycle::Closed => SessionState::Closed,
        }
    }

    /// The protocol version that the handshake settled on.
    pub fn protocol_version(&self) -> (version: Option<String>)
        ensures
            optional_text(version) == self@.protocol_version(),
    {
        match self.lifecycle {
            Lifecycle::Ready { .. } => Some(owned("2024-11-05")),
            _ => None,
        }
    }

    /// The tool calls that wait for the publish service, the longest waiting
    /// first; `None` where the session is not `Ready`.
    pub fn in_flight(&self) -> (calls: Option<&Vec<InFlight>>)
        ensures
            match calls {
                Some(waiting) => self@.state() == SessionState::Ready && self@.in_flight()
                    == in_flight_view(*waiting),
                None => self@.state() != SessionState::Ready,
            },
    {
        match &self.lifecycle {
            Lifecycle::Ready { peer: _, in_flight } => Some(in_flight),
            _ => None,
        }
    }

    /// Routes a tool call to the dispatcher.
    fn call(&self, in_flight: Vec<InFlight>, id: RequestId, name: String, arguments: RawArguments) -> (after: (
        Vec<InFlight>,
        SessionAction,
    ))
        ensures
            (in_flight_view(after.0), after.1@) == called(
                self@.client,
                in_flight_view(in_flight),
                id@,
                name@,
                arguments@,
            ),
    {
        match self.tools.invoke(name.as_str(), &arguments) {
            Err(fault) => (in_flight, fault_for(id, fault)),
            Ok(ToolStep::Finished(response)) => (
                in_flight,
                SessionAction::Reply { id, body: ReplyBody::ToolResult(response) },
            ),
            Ok(ToolStep::Pending(submission)) => {
                let ghost before = in_flight_view(in_flight);
                let mut calls = in_flight;
                calls.push(InFlight { request_id: id.duplicate(), abandoned: false });
                assert(in_flight_view(calls) =~= before.push(
                    InFlightView { request_id: id@, abandoned: false },
                ));
                (calls, SessionAction::Submit { id, submission })
            },
        }
    }

    /// Answers a request past the handshake.
    fn serve(&self, in_flight: Vec<InFlight>, id: RequestId, request: ClientRequest) -> (after: (
        Vec<InFlight>,
        SessionAction,
    ))
        ensures
            (in_flight_view(after.0), after.1@) == served(
                self@.client,
                in_flight_view(in_flight),
                id@,
                request@,
            ),
    {
        match request {
            ClientRequest::Initialize { peer: _ } => {
                let fault = McpServerError::InvalidRequest(owned("session is already initialized"));
                (in_flight, fault_for(id, fault))
            },
            ClientRequest::ListTools => {
                let tools = LinkedInTools::list();
                let body = ReplyBody::Tools(tools);
                assert(body@ == ReplyBodyView::Tools(seq![create_post_tool()])) by {
                    assert(Seq::new(tools@.len(), |i: int| tools@[i]@) =~= seq![
                        create_post_tool(),
                    ]);
                }
                (in_flight, SessionAction::Reply { id, body })
            },
            ClientRequest::CallTool { name, arguments } => self.call(in_flight, id, name, arguments),
            ClientRequest::Other { method } => (
                in_flight,
                fault_for(id, McpServerError::MethodNotFound(method)),
            ),
        }
    }

    /// Answers a request before the handshake.
    fn greet(&self, id: RequestId, request: ClientRequest) -> (after: (Lifecycle, SessionAction))
        ensures
            (after.0@, after.1@) == greeted(id@, request@),
    {
        match request {
            ClientRequest::Initialize { peer } => {
                let in_flight: Vec<InFlight> = Vec::new();
                assert(in_flight_view(in_flight) =~= Seq::<InFlightView>::empty());
                (
                    Lifecycle::Ready { peer, in_flight },
                    SessionAction::Reply { id, body: ReplyBody::Initialized(self.get_info()) },
                )
            },
            _ => {
                let fault = McpServerError::InvalidRequest(owned("session is not initialized"));
                (Lifecycle::Uninitialized, fault_for(id, fault))
            },
        }
    }

    /// Takes one event in and says what is to be done.
    ///
    /// This never fails: every fault is an answer, and a session that cannot
    /// go on is closed.
    pub fn handle(&mut self, event: SessionEvent) -> (action: SessionAction)
        ensures
            (final(self)@, action@) == old(self)@.step(event@),
    {
        let mut lifecycle = Lifecycle::Closed;
        core::mem::swap(&mut self.lifecycle, &mut lifecycle);
        let (next, action) = match lifecycle {
            Lifecycle::Closed => (Lifecycle::Closed, SessionAction::Nothing),
            Lifecycle::Uninitialized => match event {
                SessionEvent::TransportClosed => (Lifecycle::Closed, SessionAction::Nothing),
                SessionEvent::DecodeFailed => (Lifecycle::Closed, SessionAction::Nothing),
                SessionEvent::Request { id, request } => self.greet(id, request),
                _ => (Lifecycle::Uninitialized, SessionAction::Nothing),
            },
            Lifecycle::Ready { peer, in_flight } => match event {
                SessionEvent::TransportClosed => (Lifecycle::Closed, SessionAction::Nothing),
                SessionEvent::DecodeFailed => (Lifecycle::Closed, SessionAction::Nothing),
                SessionEvent::Notification { notification } => {
                    let in_flight = match notification {
                        ClientNotification::Cancelled { request_id } => cancel(
                            in_flight,
                            &request_id,
                        ),
                        ClientNotification::Other { method: _ } => in_flight,
                    };
                    (Lifecycle::Ready { peer, in_flight }, SessionAction::Nothing)
                },
                SessionEvent::Completed { id, completion } => {
                    let (in_flight, action) = complete(in_flight, &id, completion);
                    (Lifecycle::Ready { peer, in_flight }, action)
                },
                SessionEvent::Request { id, request } => {
                    let (in_flight, action) = self.serve(in_flight, id, request);
                    (Lifecycle::Ready { peer, in_flight }, action)
                },
            },
        };
        self.lifecycle = next;
        action
    }
}

} // verus!
