use linkedin_mcp::config::Config;
use linkedin_mcp::linkedin::client::{Completion, LinkedInClient, PostSubmission};
use linkedin_mcp::mcp::error::McpServerError;
use linkedin_mcp::mcp::models::LinkedInPostResponse;
use linkedin_mcp::server::handler::{
    ClientNotification, ClientRequest, InFlight, LinkedInPostServer, PeerInfo, ReplyBody,
    RequestId,
    SessionAction, SessionEvent, SessionState,
};
use linkedin_mcp::server::tools::{LinkedInTools, RawArguments, RawValue};

fn same<T: PartialEq>(left: T, right: T) {
    assert!(left == right);
}

fn server(debug_mode: bool) -> LinkedInPostServer {
    let config = Config {
        linkedin_access_token: "token-1".to_string(),
        linkedin_person_id: "abc123".to_string(),
        server_address: "0.0.0.0:3000".to_string(),
        debug_mode,
    };
    LinkedInPostServer::new(match LinkedInClient::new(&config) {
        Ok(client) => client,
        Err(error) => panic!("unexpected error: {:?}", error),
    })
}

fn peer() -> PeerInfo {
    PeerInfo {
        protocol_version: "2024-11-05".to_string(),
        client_name: "host".to_string(),
        client_version: "0.3.0".to_string(),
    }
}

fn ready(debug_mode: bool) -> LinkedInPostServer {
    let mut server = server(debug_mode);
    server.handle(request(0, ClientRequest::Initialize { peer: peer() }));
    same(server.state(), SessionState::Ready);
    server
}

fn request(id: u32, request: ClientRequest) -> SessionEvent {
    SessionEvent::Request { id: RequestId::Number(id), request }
}

fn call(name: &str, content: &str) -> ClientRequest {
    ClientRequest::CallTool {
        name: name.to_string(),
        arguments: RawArguments {
            entries: vec![("content".to_string(), RawValue::Text(content.to_string()))],
        },
    }
}

fn fault(id: u32, error: McpServerError) -> SessionAction {
    SessionAction::Reply { id: RequestId::Number(id), body: ReplyBody::Fault(error) }
}

fn result(id: u32, response: LinkedInPostResponse) -> SessionAction {
    SessionAction::Reply { id: RequestId::Number(id), body: ReplyBody::ToolResult(response) }
}

fn created(id: &str) -> Completion {
    Completion::Responded { status: 201, body: Some(format!("{{\"id\":\"{}\"}}", id)) }
}

fn completed(id: u32, completion: Completion) -> SessionEvent {
    SessionEvent::Completed { id: RequestId::Number(id), completion }
}

fn waiting(id: u32, abandoned: bool) -> InFlight {
    InFlight { request_id: RequestId::Number(id), abandoned }
}

#[test]
fn new_session_awaits_its_handshake() {
    let server = server(false);
    same(server.state(), SessionState::Uninitialized);
    same(server.get_peer(), None);
    same(server.protocol_version(), None);
    same(server.in_flight(), None);
}

#[test]
fn call_in_flight_is_kept_until_it_completes() {
    let mut server = ready(false);
    same(server.in_flight(), Some(&vec![]));
    server.handle(request(1, call("create_post", "Hello")));
    same(server.in_flight(), Some(&vec![waiting(1, false)]));
    server.handle(request(2, call("create_post", "Again")));
    same(server.in_flight(), Some(&vec![waiting(1, false), waiting(2, false)]));
    server.handle(SessionEvent::Notification {
        notification: ClientNotification::Cancelled { request_id: RequestId::Number(1) },
    });
    same(server.in_flight(), Some(&vec![waiting(1, true), waiting(2, false)]));
    server.handle(completed(1, created("p-1")));
    same(server.in_flight(), Some(&vec![waiting(2, false)]));
    server.handle(completed(2, created("p-2")));
    same(server.in_flight(), Some(&vec![]));
}

#[test]
fn server_info() {
    let info = server(false).get_info();
    assert_eq!(info.protocol_version, "2024-11-05");
    assert_eq!(info.server_name, "LinkedIn Post Server");
    assert_eq!(info.server_version, "1.0.0");
    assert_eq!(info.instructions, Some("A server for creating LinkedIn posts".to_string()));
    assert!(info.tools_enabled);
}

#[test]
fn handshake_makes_the_session_ready() {
    let mut server = server(false);
    let action = server.handle(request(1, ClientRequest::Initialize { peer: peer() }));
    let info = server.get_info();
    same(
        action,
        SessionAction::Reply { id: RequestId::Number(1), body: ReplyBody::Initialized(info) }
    );
    same(server.state(), SessionState::Ready);
    same(server.get_peer(), Some(&peer()));
    same(server.protocol_version(), Some("2024-11-05".to_string()));
}

#[test]
fn call_before_handshake_is_an_invalid_request() {
    let mut server = server(false);
    let action = server.handle(request(1, call("create_post", "Hello")));
    same(
        action,
        fault(1, McpServerError::InvalidRequest("session is not initialized".to_string()))
    );
    same(server.state(), SessionState::Uninitialized);
    same(server.get_peer(), None);
    let action = server.handle(request(2, ClientRequest::Initialize { peer: peer() }));
    assert!(matches!(
        action,
        SessionAction::Reply { id: RequestId::Number(2), body: ReplyBody::Initialized(_) }
    ));
    same(server.state(), SessionState::Ready);
}

#[test]
fn any_request_before_handshake_is_an_invalid_request() {
    for early in [ClientRequest::ListTools, ClientRequest::Other { method: "ping".to_string() }] {
        let mut server = server(false);
        same(
            server.handle(request(7, early)),
            fault(7, McpServerError::InvalidRequest("session is not initialized".to_string()))
        );
        same(server.state(), SessionState::Uninitialized);
    }
}

#[test]
fn second_handshake_is_an_invalid_request() {
    let mut server = ready(false);
    let other = PeerInfo {
        protocol_version: "2025-01-01".to_string(),
        client_name: "other".to_string(),
        client_version: "9".to_string(),
    };
    same(
        server.handle(request(3, ClientRequest::Initialize { peer: other })),
        fault(3, McpServerError::InvalidRequest("session is already initialized".to_string()))
    );
    same(server.get_peer(), Some(&peer()));
    same(server.state(), SessionState::Ready);
}

#[test]
fn set_peer_binds_once() {
    let mut server = server(false);
    server.set_peer(peer());
    same(server.state(), SessionState::Ready);
    same(server.get_peer(), Some(&peer()));
    let other = PeerInfo {
        protocol_version: "x".to_string(),
        client_name: "y".to_string(),
        client_version: "z".to_string(),
    };
    server.set_peer(other);
    same(server.get_peer(), Some(&peer()));
}

#[test]
fn list_tools_names_the_one_tool() {
    let mut server = ready(false);
    let action = server.handle(request(4, ClientRequest::ListTools));
    same(
        action,
        SessionAction::Reply {
            id: RequestId::Number(4),
            body: ReplyBody::Tools(LinkedInTools::list()),
        }
    );
    same(server.state(), SessionState::Ready);
}

#[test]
fn unknown_tool_is_method_not_found_and_changes_nothing() {
    let mut server = ready(false);
    let before = server.clone();
    let action = server.handle(request(5, call("delete_post", "Hello")));
    same(action, fault(5, McpServerError::MethodNotFound("delete_post".to_string())));
    same(&server, &before);
}

#[test]
fn unknown_method_is_method_not_found() {
    let mut server = ready(false);
    let before = server.clone();
    let action =
        server.handle(request(6, ClientRequest::Other { method: "resources/list".to_string() }));
    same(action, fault(6, McpServerError::MethodNotFound("resources/list".to_string())));
    same(&server, &before);
}

#[test]
fn invalid_call_is_answered_at_once() {
    let mut server = ready(false);
    let action = server.handle(request(8, call("create_post", "")));
    same(
        action,
        result(
            8,
            LinkedInPostResponse {
                success: false,
                post_id: None,
                message: "content must be a non-empty string".to_string(),
            }
        )
    );
}

#[test]
fn simulated_call_from_request_to_reply() {
    let mut server = ready(true);
    let action = server.handle(request(9, call("create_post", "Hello")));
    same(
        action,
        SessionAction::Submit {
            id: RequestId::Number(9),
            submission: PostSubmission::Simulated { delay_millis: 500 },
        }
    );
    let action = server.handle(completed(9, Completion::Simulated));
    same(
        action,
        result(
            9,
            LinkedInPostResponse {
                success: true,
                post_id: Some("debug-post-12345".to_string()),
                message: "Post created successfully".to_string(),
            }
        )
    );
    same(server.state(), SessionState::Ready);
}

#[test]
fn published_call_from_request_to_reply() {
    let mut server = ready(false);
    let action = server.handle(SessionEvent::Request {
        id: RequestId::Text("req-a".to_string()),
        request: call("create_post", "Hello"),
    });
    match action {
        SessionAction::Submit {
            id: RequestId::Text(id),
            submission: PostSubmission::Outbound { request },
        } => {
            assert_eq!(id, "req-a");
            assert_eq!(request.payload.specificContent.share_content.shareCommentary.text, "Hello");
        }
        _ => panic!("expected a submission"),
    }
    let action = server.handle(SessionEvent::Completed {
        id: RequestId::Text("req-a".to_string()),
        completion: created("urn:li:share:123"),
    });
    same(
        action,
        SessionAction::Reply {
            id: RequestId::Text("req-a".to_string()),
            body: ReplyBody::ToolResult(LinkedInPostResponse {
                success: true,
                post_id: Some("urn:li:share:123".to_string()),
                message: "Post created successfully".to_string(),
            }),
        }
    );
}

#[test]
fn same_call_twice_is_sent_twice() {
    let mut server = ready(false);
    let before = server.clone();
    let first = server.handle(request(1, call("create_post", "Hello")));
    let first_reply = server.handle(completed(1, created("p-1")));
    same(&server, &before);
    let second = server.handle(request(2, call("create_post", "Hello")));
    let second_reply = server.handle(completed(2, created("p-2")));
    let (first_submission, second_submission) = match (first, second) {
        (
            SessionAction::Submit { id: RequestId::Number(1), submission: a },
            SessionAction::Submit { id: RequestId::Number(2), submission: b },
        ) => (a, b),
        _ => panic!("expected two submissions"),
    };
    assert!(matches!(first_submission, PostSubmission::Outbound { .. }));
    same(first_submission, second_submission);
    same(first_reply, result(1, LinkedInPostResponse::created("p-1".to_string())));
    same(second_reply, result(2, LinkedInPostResponse::created("p-2".to_string())));
}

#[test]
fn two_calls_in_flight_are_answered_each_from_its_own_request() {
    let mut server = ready(false);
    let before = server.clone();
    let first = server.handle(request(1, call("create_post", "Hello")));
    let second = server.handle(request(2, call("create_post", "Hello")));
    assert!(matches!(first, SessionAction::Submit { id: RequestId::Number(1), .. }));
    assert!(matches!(second, SessionAction::Submit { id: RequestId::Number(2), .. }));
    let action = server.handle(completed(2, created("p-2")));
    same(action, result(2, LinkedInPostResponse::created("p-2".to_string())));
    let action = server.handle(completed(
        1,
        Completion::Responded { status: 401, body: Some("unauthorized".to_string()) },
    ));
    same(
        action,
        result(
            1,
            LinkedInPostResponse::failed(
                "Failed to create post: LinkedIn API error: 401: unauthorized".to_string(),
            ),
        ),
    );
    same(&server, &before);
}

#[test]
fn calls_of_one_identifier_are_answered_in_their_order() {
    let mut server = ready(false);
    server.handle(request(1, call("create_post", "Hello")));
    server.handle(request(1, call("create_post", "Again")));
    same(server.in_flight(), Some(&vec![waiting(1, false), waiting(1, false)]));
    let action = server.handle(completed(1, created("p-1")));
    same(action, result(1, LinkedInPostResponse::created("p-1".to_string())));
    same(server.in_flight(), Some(&vec![waiting(1, false)]));
}

#[test]
fn cancelled_call_is_not_answered() {
    let mut server = ready(false);
    server.handle(request(1, call("create_post", "Hello")));
    let action = server.handle(SessionEvent::Notification {
        notification: ClientNotification::Cancelled { request_id: RequestId::Number(1) },
    });
    same(action, SessionAction::Nothing);
    let action = server.handle(completed(1, created("p-1")));
    same(action, SessionAction::Nothing);
    same(server.state(), SessionState::Ready);
    let action = server.handle(request(2, call("create_post", "Hello")));
    assert!(matches!(action, SessionAction::Submit { .. }));
}

#[test]
fn cancellation_of_another_request_changes_nothing() {
    let mut server = ready(false);
    server.handle(request(1, call("create_post", "Hello")));
    let before = server.clone();
    for id in [RequestId::Number(2), RequestId::Text("1".to_string())] {
        let action = server.handle(SessionEvent::Notification {
            notification: ClientNotification::Cancelled { request_id: id },
        });
        same(action, SessionAction::Nothing);
        same(&server, &before);
    }
    let action = server.handle(completed(1, created("p-1")));
    same(action, result(1, LinkedInPostResponse::created("p-1".to_string())));
}

#[test]
fn notifications_are_ignored_in_every_state() {
    let notifications = [
        ClientNotification::Cancelled { request_id: RequestId::Number(1) },
        ClientNotification::Other { method: "notifications/progress".to_string() },
    ];
    for mut server in [server(false), ready(false)] {
        let before = server.clone();
        for notification in notifications.iter() {
            let action =
                server.handle(SessionEvent::Notification { notification: notification.clone() });
            same(action, SessionAction::Nothing);
            same(&server, &before);
        }
    }
}

#[test]
fn completion_without_a_call_is_ignored() {
    for mut server in [server(false), ready(false)] {
        let before = server.clone();
        let action = server.handle(completed(1, created("p-1")));
        same(action, SessionAction::Nothing);
        same(&server, &before);
    }
}

#[test]
fn transport_close_ends_the_session() {
    for event in [SessionEvent::TransportClosed, SessionEvent::DecodeFailed] {
        for mut server in [server(false), ready(false)] {
            same(server.handle(event.clone()), SessionAction::Nothing);
            same(server.state(), SessionState::Closed);
            same(server.get_peer(), None);
            same(server.protocol_version(), None);
        }
    }
}

#[test]
fn closed_session_processes_nothing() {
    let mut server = ready(false);
    server.handle(request(1, call("create_post", "Hello")));
    server.handle(SessionEvent::TransportClosed);
    let before = server.clone();
    for event in [
        request(2, ClientRequest::Initialize { peer: peer() }),
        request(3, ClientRequest::ListTools),
        request(4, call("create_post", "Hello")),
        completed(1, created("p-1")),
        SessionEvent::Notification {
            notification: ClientNotification::Other { method: "x".to_string() },
        },
        SessionEvent::TransportClosed,
    ] {
        same(server.handle(event), SessionAction::Nothing);
        same(&server, &before);
    }
}

#[test]
fn request_ids_compare_by_kind_and_value() {
    assert!(RequestId::Number(1).same_as(&RequestId::Number(1)));
    assert!(!RequestId::Number(1).same_as(&RequestId::Number(2)));
    assert!(RequestId::Text("a".to_string()).same_as(&RequestId::Text("a".to_string())));
    assert!(!RequestId::Text("1".to_string()).same_as(&RequestId::Number(1)));
    assert_eq!(RequestId::Text("a".to_string()).duplicate(), RequestId::Text("a".to_string()));
}
