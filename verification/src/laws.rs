//! What holds of the tool and of the session whatever the inputs: the laws
//! that their callers may rely on, each proved from the definitions.

use crate::linkedin::client::{
    body_post_id, completion_outcome, is_success, simulated_post_id, CompletionView,
    LinkedInClientView, PostSubmissionView, SIMULATED_DELAY_MILLIS,
};
use crate::mcp::error::McpServerErrorView;
use crate::mcp::models::{LinkedInPostResponseView, PostRequestView};
use crate::schedule::utc_millis_of;
use crate::server::handler::{
    after_cancellation, not_initialized, position, server_info, ClientNotificationView,
    ClientRequestView, InFlightView, PeerInfoView,
    ReplyBodyView, RequestIdView, SessionActionView, SessionEventView, SessionState, SessionView,
};
use crate::server::tools::{
    conclusion, create_post_tool, dispatch, member, tool_name, validation, RawValueView,
    ToolStepView,
};
use vstd::prelude::*;

verus! {

/// A simulating client publishes any text without a time, and sends nothing
/// for it: the call waits out the fixed delay, and its result is a success
/// with the one identifier that every simulated publish reports.
pub proof fn law_simulation_succeeds_without_a_call(
    client: LinkedInClientView,
    args: Seq<(Seq<char>, RawValueView)>,
    content: Seq<char>,
)
    requires
        client.debug_mode,
        content.len() > 0,
        member(args, "content"@) == Some(RawValueView::Text(content)),
        member(args, "schedule_time"@) is None,
    ensures
        client.submission(content, None) == (PostSubmissionView::Simulated {
            delay_millis: SIMULATED_DELAY_MILLIS,
        }),
        client.submission(content, None).outbound_calls() == 0,
        dispatch(client, tool_name(), args) == Ok::<ToolStepView, McpServerErrorView>(
            ToolStepView::Pending(client.submission(content, None)),
        ),
        conclusion(completion_outcome(CompletionView::Simulated))
            == LinkedInPostResponseView::created(simulated_post_id()),
        conclusion(completion_outcome(CompletionView::Simulated)).success,
{
}

/// A simulated publish cannot be told from a real one but by the identifier:
/// the result reports success with the same message as the result of a
/// request that the service accepted.
pub proof fn law_simulation_looks_like_success(status: u16, body: Seq<char>)
    requires
        is_success(status),
        body_post_id(Some(body)) is Some,
    ensures
        ({
            let simulated = conclusion(completion_outcome(CompletionView::Simulated));
            let published = conclusion(
                completion_outcome(CompletionView::Responded { status, body: Some(body) }),
            );
            &&& published.success == simulated.success
            &&& published.message == simulated.message
            &&& published.post_id == body_post_id(Some(body))
            &&& simulated.post_id == Some(simulated_post_id())
        }),
{
}

/// An empty text is turned down, whatever else the arguments hold: the call
/// ends at once in a result without success and without a post, and the client
/// is asked for nothing.
pub proof fn law_empty_content_is_turned_down(
    client: LinkedInClientView,
    args: Seq<(Seq<char>, RawValueView)>,
)
    requires
        member(args, "content"@) == Some(RawValueView::Text(Seq::<char>::empty())),
    ensures
        validation(args) is Err,
        dispatch(client, tool_name(), args) == Ok::<ToolStepView, McpServerErrorView>(
            ToolStepView::Finished(LinkedInPostResponseView::failed(validation(args)->Err_0)),
        ),
        !LinkedInPostResponseView::failed(validation(args)->Err_0).success,
        LinkedInPostResponseView::failed(validation(args)->Err_0).post_id is None,
{
}

/// A time to publish at that is a string and no timestamp is turned down with
/// the message `invalid schedule time format`, whatever else the arguments
/// hold, and the client is asked for nothing.
pub proof fn law_malformed_schedule_is_turned_down(
    client: LinkedInClientView,
    args: Seq<(Seq<char>, RawValueView)>,
    schedule_time: Seq<char>,
)
    requires
        member(args, "schedule_time"@) == Some(RawValueView::Text(schedule_time)),
        utc_millis_of(schedule_time) is None,
    ensures
        validation(args) == Err::<PostRequestView, Seq<char>>("invalid schedule time format"@),
        dispatch(client, tool_name(), args) == Ok::<ToolStepView, McpServerErrorView>(
            ToolStepView::Finished(
                LinkedInPostResponseView::failed("invalid schedule time format"@),
            ),
        ),
{
}

/// Arguments that are turned down never reach the client, and arguments
/// that pass reach it once: a tool call sends one request to the publish
/// service where the client publishes, and none where it simulates.
pub proof fn law_calls_per_request(client: LinkedInClientView, args: Seq<(Seq<char>, RawValueView)>)
    ensures
        match dispatch(client, tool_name(), args) {
            Ok(ToolStepView::Pending(submission)) => validation(args) is Ok
                && submission.outbound_calls() == if client.debug_mode {
                0nat
            } else {
                1nat
            },
            Ok(ToolStepView::Finished(response)) => validation(args) is Err && !response.success,
            Err(_) => false,
        },
{
}

/// What the tool advertises of its input is what validation asks for: raw
/// arguments that lack a field advertised as required are turned down.
pub proof fn law_required_fields_are_required(args: Seq<(Seq<char>, RawValueView)>, i: int)
    requires
        0 <= i < create_post_tool().inputs.len(),
        create_post_tool().inputs[i].required,
        member(args, create_post_tool().inputs[i].name) is None,
    ensures
        validation(args) is Err,
{
}

/// Validation reads the advertised fields and nothing else: raw arguments
/// that agree on every advertised input field are validated alike.
pub proof fn law_validation_reads_advertised_fields_only(
    args: Seq<(Seq<char>, RawValueView)>,
    other: Seq<(Seq<char>, RawValueView)>,
)
    requires
        forall|i: int|
            0 <= i < create_post_tool().inputs.len() ==> member(
                args,
                #[trigger] create_post_tool().inputs[i].name,
            ) == member(other, create_post_tool().inputs[i].name),
    ensures
        validation(args) == validation(other),
{
    assert(create_post_tool().inputs[0].name == "content"@);
    assert(create_post_tool().inputs[1].name == "schedule_time"@);
}

/// The credential never shows in what a call is answered with: whether a
/// call is turned down, and with which result, is the same for every client,
/// and so is the result that a completed submission is concluded with, which
/// no client has a part in.
pub proof fn law_answers_do_not_depend_on_the_client(
    client: LinkedInClientView,
    other: LinkedInClientView,
    name: Seq<char>,
    args: Seq<(Seq<char>, RawValueView)>,
)
    ensures
        match (dispatch(client, name, args), dispatch(other, name, args)) {
            (Ok(ToolStepView::Finished(a)), Ok(ToolStepView::Finished(b))) => a == b,
            (Ok(ToolStepView::Pending(_)), Ok(ToolStepView::Pending(_))) => true,
            (Err(a), Err(b)) => a == b,
            _ => false,
        },
{
}

/// Every result of a concluded call names a post exactly when it reports
/// success.
pub proof fn law_result_names_a_post_iff_success(completion: CompletionView)
    ensures
        conclusion(completion_outcome(completion)).wf(),
{
}

/// A request that comes before the handshake, be it a tool call or anything
/// but the handshake itself, is answered with `InvalidRequest` and leaves the
/// session as it was; the handshake that follows is answered and makes the
/// session ready.
pub proof fn law_request_before_handshake(
    session: SessionView,
    id: RequestIdView,
    request: ClientRequestView,
    handshake_id: RequestIdView,
    peer: PeerInfoView,
)
    requires
        session.state() == SessionState::Uninitialized,
        !(request is Initialize),
    ensures
        session.step(SessionEventView::Request { id, request }) == (
            session,
            SessionActionView::Reply {
                id,
                body: ReplyBodyView::Fault(McpServerErrorView::InvalidRequest(not_initialized())),
            },
        ),
        ({
            let after = session.step(SessionEventView::Request { id, request }).0;
            let handshake = after.step(
                SessionEventView::Request {
                    id: handshake_id,
                    request: ClientRequestView::Initialize { peer },
                },
            );
            &&& handshake.0.state() == SessionState::Ready
            &&& handshake.0.peer() == Some(peer)
            &&& handshake.1 == SessionActionView::Reply {
                id: handshake_id,
                body: ReplyBodyView::Initialized(server_info()),
            }
        }),
{
}

/// A call of a tool that there is not is answered with `MethodNotFound`, and
/// the session is afterwards what it was before.
pub proof fn law_unknown_tool(
    session: SessionView,
    id: RequestIdView,
    name: Seq<char>,
    arguments: Seq<(Seq<char>, RawValueView)>,
)
    requires
        session.state() == SessionState::Ready,
        name != tool_name(),
    ensures
        session.step(
            SessionEventView::Request { id, request: ClientRequestView::CallTool { name, arguments } },
        ) == (
            session,
            SessionActionView::Reply {
                id,
                body: ReplyBodyView::Fault(McpServerErrorView::MethodNotFound(name)),
            },
        ),
{
}

/// A request whose method the session does not know is answered with
/// `MethodNotFound`, and the session stays ready.
pub proof fn law_unknown_method(session: SessionView, id: RequestIdView, method: Seq<char>)
    requires
        session.state() == SessionState::Ready,
    ensures
        session.step(
            SessionEventView::Request { id, request: ClientRequestView::Other { method } },
        ) == (
            session,
            SessionActionView::Reply {
                id,
                body: ReplyBodyView::Fault(McpServerErrorView::MethodNotFound(method)),
            },
        ),
{
}

/// Nothing is remembered of a call once it is answered: the same valid call,
/// made again, sends its own request, the same as the first, and each of the
/// two is answered from what came of its own request alone.
pub proof fn law_no_deduplication(
    session: SessionView,
    first_id: RequestIdView,
    second_id: RequestIdView,
    arguments: Seq<(Seq<char>, RawValueView)>,
    first_completion: CompletionView,
    second_completion: CompletionView,
)
    requires
        session.state() == SessionState::Ready,
        session.in_flight().len() == 0,
        !session.client.debug_mode,
        validation(arguments) is Ok,
    ensures
        ({
            let request = validation(arguments)->Ok_0;
            let submission = session.client.submission(request.content, request.schedule_millis);
            let first_call = SessionEventView::Request {
                id: first_id,
                request: ClientRequestView::CallTool { name: tool_name(), arguments },
            };
            let second_call = SessionEventView::Request {
                id: second_id,
                request: ClientRequestView::CallTool { name: tool_name(), arguments },
            };
            let called = session.step(first_call);
            let answered = called.0.step(
                SessionEventView::Completed { id: first_id, completion: first_completion },
            );
            let called_again = answered.0.step(second_call);
            let answered_again = called_again.0.step(
                SessionEventView::Completed { id: second_id, completion: second_completion },
            );
            &&& submission.outbound_calls() == 1
            &&& called.1 == SessionActionView::Submit { id: first_id, submission }
            &&& answered.1 == SessionActionView::Reply {
                id: first_id,
                body: ReplyBodyView::ToolResult(conclusion(completion_outcome(first_completion))),
            }
            &&& answered.0 == session
            &&& called_again.1 == SessionActionView::Submit { id: second_id, submission }
            &&& answered_again.1 == SessionActionView::Reply {
                id: second_id,
                body: ReplyBodyView::ToolResult(
                    conclusion(completion_outcome(second_completion)),
                ),
            }
            &&& answered_again.0 == session
        }),
{
    let first = InFlightView { request_id: first_id, abandoned: false };
    let second = InFlightView { request_id: second_id, abandoned: false };
    assert(session.in_flight() =~= Seq::<InFlightView>::empty());
    assert(session.in_flight().push(first) =~= seq![first]);
    assert(seq![first].remove(0) =~= Seq::<InFlightView>::empty());
    assert(session.in_flight().push(second) =~= seq![second]);
    assert(seq![second].remove(0) =~= Seq::<InFlightView>::empty());
}

/// Two calls may wait for the publish service at once, and neither has a
/// part in the other: each sends its own request, and each is answered from
/// what came of its own request, in whatever order the two complete.
pub proof fn law_calls_in_flight_are_independent(
    session: SessionView,
    first_id: RequestIdView,
    second_id: RequestIdView,
    arguments: Seq<(Seq<char>, RawValueView)>,
    first_completion: CompletionView,
    second_completion: CompletionView,
)
    requires
        session.state() == SessionState::Ready,
        session.in_flight().len() == 0,
        !session.client.debug_mode,
        validation(arguments) is Ok,
        first_id != second_id,
    ensures
        ({
            let request = validation(arguments)->Ok_0;
            let submission = session.client.submission(request.content, request.schedule_millis);
            let first_call = SessionEventView::Request {
                id: first_id,
                request: ClientRequestView::CallTool { name: tool_name(), arguments },
            };
            let second_call = SessionEventView::Request {
                id: second_id,
                request: ClientRequestView::CallTool { name: tool_name(), arguments },
            };
            let called = session.step(first_call);
            let called_again = called.0.step(second_call);
            let answered = called_again.0.step(
                SessionEventView::Completed { id: second_id, completion: second_completion },
            );
            let answered_again = answered.0.step(
                SessionEventView::Completed { id: first_id, completion: first_completion },
            );
            &&& called.1 == SessionActionView::Submit { id: first_id, submission }
            &&& called_again.1 == SessionActionView::Submit { id: second_id, submission }
            &&& answered.1 == SessionActionView::Reply {
                id: second_id,
                body: ReplyBodyView::ToolResult(
                    conclusion(completion_outcome(second_completion)),
                ),
            }
            &&& answered_again.1 == SessionActionView::Reply {
                id: first_id,
                body: ReplyBodyView::ToolResult(conclusion(completion_outcome(first_completion))),
            }
            &&& answered_again.0 == session
        }),
{
    let first = InFlightView { request_id: first_id, abandoned: false };
    let second = InFlightView { request_id: second_id, abandoned: false };
    let both = seq![first, second];
    assert(session.in_flight() =~= Seq::<InFlightView>::empty());
    assert(session.in_flight().push(first) =~= seq![first]);
    assert(seq![first].push(second) =~= both);
    assert(both.drop_first() =~= seq![second]);
    assert(position(both, second_id) == 1) by {
        reveal_with_fuel(position, 3);
    }
    assert(both.remove(1) =~= seq![first]);
    assert(seq![first].remove(0) =~= Seq::<InFlightView>::empty());
}

/// A notification is never answered and never closes the session, whatever
/// its kind and whatever the state.
pub proof fn law_notifications_never_fail(session: SessionView, notification: ClientNotificationView)
    ensures
        session.step(SessionEventView::Notification { notification }).1
            == SessionActionView::Nothing,
        session.step(SessionEventView::Notification { notification }).0.state() == session.state(),
{
}

/// Giving up a request changes no call's place among the calls in flight.
proof fn lemma_cancellation_keeps_positions(
    in_flight: Seq<InFlightView>,
    cancelled: RequestIdView,
    request_id: RequestIdView,
)
    ensures
        position(after_cancellation(in_flight, cancelled), request_id) == position(
            in_flight,
            request_id,
        ),
    decreases in_flight.len(),
{
    if in_flight.len() > 0 {
        let after = after_cancellation(in_flight, cancelled);
        assert(after[0].request_id == in_flight[0].request_id);
        assert(after.drop_first() =~= after_cancellation(in_flight.drop_first(), cancelled));
        lemma_cancellation_keeps_positions(in_flight.drop_first(), cancelled, request_id);
    }
}

/// The place that `position` gives is that of a call of the request, where
/// it is a place at all.
proof fn lemma_position_finds_the_request(in_flight: Seq<InFlightView>, request_id: RequestIdView)
    ensures
        0 <= position(in_flight, request_id) <= in_flight.len(),
        position(in_flight, request_id) < in_flight.len() ==> in_flight[position(
            in_flight,
            request_id,
        )].request_id == request_id,
    decreases in_flight.len(),
{
    if in_flight.len() > 0 && in_flight[0].request_id != request_id {
        lemma_position_finds_the_request(in_flight.drop_first(), request_id);
    }
}

/// Once the client has given up a request, the session does not answer it,
/// whatever comes of its submission.
pub proof fn law_abandoned_call_is_not_answered(
    session: SessionView,
    request_id: RequestIdView,
    completion: CompletionView,
)
    ensures
        ({
            let cancelled = session.step(
                SessionEventView::Notification {
                    notification: ClientNotificationView::Cancelled { request_id },
                },
            ).0;
            let done = cancelled.step(SessionEventView::Completed { id: request_id, completion });
            &&& done.1 == SessionActionView::Nothing
            &&& done.0.state() == session.state()
        }),
{
    let in_flight = session.in_flight();
    lemma_cancellation_keeps_positions(in_flight, request_id, request_id);
    lemma_position_finds_the_request(in_flight, request_id);
}

/// A closed session stays closed and asks for nothing, and the end of the
/// transport or an undecodable message closes any session.
pub proof fn law_closed_is_final(session: SessionView, event: SessionEventView)
    ensures
        session.state() == SessionState::Closed ==> session.step(event) == (
            session,
            SessionActionView::Nothing,
        ),
        event is TransportClosed || event is DecodeFailed ==> session.step(event).0.state()
            == SessionState::Closed && session.step(event).1 == SessionActionView::Nothing,
{
}

/// How far a session is in its life.
pub open spec fn age(state: SessionState) -> nat {
    match state {
        SessionState::Uninitialized => 0,
        SessionState::Ready => 1,
        SessionState::Closed => 2,
    }
}

/// A session never goes back in its life, and never changes the client it
/// publishes with: no event makes a ready session uninitialized again, or
/// reopens a closed one.
pub proof fn law_session_never_goes_back(session: SessionView, event: SessionEventView)
    ensures
        age(session.state()) <= age(session.step(event).0.state()),
        session.step(event).0.client == session.client,
{
}

/// Only the handshake makes a session ready, and only the end of the
/// transport or an undecodable message closes it.
pub proof fn law_what_moves_a_session(session: SessionView, event: SessionEventView)
    requires
        session.step(event).0.state() != session.state(),
    ensures
        session.step(event).0.state() == SessionState::Ready ==> (event matches SessionEventView::Request {
            request,
            ..
        } && request is Initialize),
        session.step(event).0.state() == SessionState::Closed ==> event is TransportClosed
            || event is DecodeFailed,
{
}

/// A submission is asked for only by a tool call to a ready session, and the
/// call then joins the calls in flight.
pub proof fn law_what_asks_for_a_submission(session: SessionView, event: SessionEventView)
    requires
        session.step(event).1 is Submit,
    ensures
        session.state() == SessionState::Ready,
        (event matches SessionEventView::Request { id, request } && request is CallTool
            && session.step(event).0.in_flight() == session.in_flight().push(
            InFlightView { request_id: id, abandoned: false },
        )),
{
}

} // verus!
