use linkedin_mcp::config::Config;
use linkedin_mcp::linkedin::client::{
    Completion, LinkedInClient, PostSubmission, REQUEST_TIMEOUT_SECS, SIMULATED_DELAY_MILLIS,
};
use linkedin_mcp::linkedin::error::LinkedInClientError;
use linkedin_mcp::linkedin::models::PostResponse;
use linkedin_mcp::mcp::models::LinkedInPostRequest;
use linkedin_mcp::server::tools::LinkedInTools;
use linkedin_mcp::text::{decimal_string, signed_decimal_string};

fn config(token: &str, debug_mode: bool) -> Config {
    Config {
        linkedin_access_token: token.to_string(),
        linkedin_person_id: "abc123".to_string(),
        server_address: "0.0.0.0:3000".to_string(),
        debug_mode,
    }
}

/// The instant that validation reads out of a time to publish at.
fn parse_schedule_time(text: &str) -> Option<i64> {
    let request =
        LinkedInPostRequest { content: "x".to_string(), schedule_time: Some(text.to_string()) };
    match LinkedInTools::validate_request(request) {
        Ok(request) => request.schedule_millis,
        Err(_) => None,
    }
}

fn client(debug_mode: bool) -> LinkedInClient {
    match LinkedInClient::new(&config("token-1", debug_mode)) {
        Ok(client) => client,
        Err(error) => panic!("unexpected error: {:?}", error),
    }
}

#[test]
fn new_client_keeps_the_settings() {
    let client = client(true);
    assert!(client.debug_mode());
    assert_eq!(client.person_id(), "abc123");
    assert_eq!(client.authorization(), "Bearer token-1");
}

#[test]
fn new_client_refuses_a_token_with_a_line_break() {
    let result = LinkedInClient::new(&config("bad\ntoken", false));
    assert!(
        result
            == Err(LinkedInClientError::ConfigError("Failed to create auth header".to_string()))
    );
}

#[test]
fn new_client_refuses_a_token_with_a_delete_character() {
    let result = LinkedInClient::new(&config("bad\u{7f}token", false));
    assert!(matches!(result, Err(LinkedInClientError::ConfigError(_))));
}

#[test]
fn new_client_takes_a_token_with_a_tab_or_beyond_ascii() {
    assert!(LinkedInClient::new(&config("a\tb", false)).is_ok());
    assert!(LinkedInClient::new(&config("caf\u{e9}", false)).is_ok());
    assert!(LinkedInClient::new(&config("", false)).is_ok());
}

#[test]
fn simulating_client_sends_nothing() {
    let submission = client(true).create_post("Hello".to_string(), None);
    assert!(submission == PostSubmission::Simulated { delay_millis: 500 });
    assert_eq!(SIMULATED_DELAY_MILLIS, 500);
}

#[test]
fn simulated_completion_gives_the_placeholder_id() {
    assert_eq!(
        LinkedInClient::finish_post(Completion::Simulated),
        Ok("debug-post-12345".to_string())
    );
}

#[test]
fn publishing_client_sends_one_request() {
    let submission = client(false).create_post("Hello, world".to_string(), None);
    let request = match submission {
        PostSubmission::Outbound { request } => request,
        _ => panic!("expected a request"),
    };
    assert_eq!(request.url, "https://api.linkedin.com/v2/ugcPosts");
    assert_eq!(request.authorization, "Bearer token-1");
    assert_eq!(request.content_type, "application/json");
    assert_eq!(request.timeout_secs, 30);
    assert_eq!(REQUEST_TIMEOUT_SECS, 30);
    assert_eq!(request.payload.author, "urn:li:person:abc123");
    assert_eq!(request.payload.lifecycleState, "PUBLISHED");
    assert_eq!(request.payload.specificContent.share_content.shareCommentary.text, "Hello, world");
    assert_eq!(request.payload.specificContent.share_content.shareMediaCategory, "NONE");
    assert_eq!(request.payload.visibility.visibility, "PUBLIC");
    assert_eq!(request.payload.scheduledAt, None);
}

#[test]
fn schedule_time_is_sent_as_epoch_milliseconds() {
    let at = parse_schedule_time("2025-01-01T00:00:00Z");
    assert_eq!(at, Some(1_735_689_600_000));
    let submission = client(false).create_post("Later".to_string(), at);
    match submission {
        PostSubmission::Outbound { request } => {
            assert_eq!(request.payload.scheduledAt, Some(1_735_689_600_000))
        }
        _ => panic!("expected a request"),
    }
}

#[test]
fn schedule_time_readings() {
    assert_eq!(parse_schedule_time("1970-01-01T00:00:01.444Z"), Some(1_444));
    assert_eq!(parse_schedule_time("2001-09-09T01:46:40.555+00:00"), Some(1_000_000_000_555));
    assert_eq!(parse_schedule_time("2025-01-01T01:00:00+01:00"), Some(1_735_689_600_000));
    assert_eq!(parse_schedule_time("2025-01-01 00:00:00Z"), Some(1_735_689_600_000));
    assert_eq!(parse_schedule_time("1969-12-31T23:59:59Z"), Some(-1_000));
    assert_eq!(parse_schedule_time("not-a-date"), None);
    assert_eq!(parse_schedule_time(""), None);
    assert_eq!(parse_schedule_time("2025-01-01"), None);
    assert_eq!(parse_schedule_time("2025-13-01T00:00:00Z"), None);
    assert_eq!(parse_schedule_time("1735689600000"), None);
}

#[test]
fn created_response_gives_the_post_id() {
    let completion = Completion::Responded {
        status: 201,
        body: Some("{\"id\":\"urn:li:share:123\"}".to_string()),
    };
    assert_eq!(LinkedInClient::finish_post(completion), Ok("urn:li:share:123".to_string()));
}

#[test]
fn every_2xx_status_is_a_success() {
    for status in [200u16, 201, 204, 299] {
        let completion =
            Completion::Responded { status, body: Some("{\"id\":\"p\"}".to_string()) };
        assert_eq!(LinkedInClient::finish_post(completion), Ok("p".to_string()));
    }
}

#[test]
fn refused_response_gives_status_and_body() {
    let completion = Completion::Responded { status: 401, body: Some("unauthorized".to_string()) };
    let error = LinkedInClient::finish_post(completion).unwrap_err();
    assert_eq!(error, LinkedInClientError::ApiError("401: unauthorized".to_string()));
    assert_eq!(error.message(), "LinkedIn API error: 401: unauthorized");
}

#[test]
fn status_next_to_2xx_is_refused() {
    for status in [199u16, 300] {
        let completion =
            Completion::Responded { status, body: Some("{\"id\":\"p\"}".to_string()) };
        assert_eq!(
            LinkedInClient::finish_post(completion),
            Err(LinkedInClientError::ApiError(format!("{}: {{\"id\":\"p\"}}", status)))
        );
    }
}

#[test]
fn refused_response_without_a_readable_body() {
    let completion = Completion::Responded { status: 500, body: None };
    assert_eq!(
        LinkedInClient::finish_post(completion),
        Err(LinkedInClientError::ApiError("500: Unknown error".to_string()))
    );
}

#[test]
fn accepted_response_of_another_shape_is_a_transport_error() {
    for body in ["", "not json", "{}", "{\"id\":5}", "{\"id\":null}", "[\"x\"]", "\"x\""] {
        let completion = Completion::Responded { status: 200, body: Some(body.to_string()) };
        assert_eq!(
            LinkedInClient::finish_post(completion),
            Err(LinkedInClientError::HttpError("error decoding response body".to_string()))
        );
    }
    let completion = Completion::Responded { status: 200, body: None };
    assert_eq!(
        LinkedInClient::finish_post(completion),
        Err(LinkedInClientError::HttpError("error decoding response body".to_string()))
    );
}

#[test]
fn accepted_response_may_hold_more_than_the_id() {
    let completion = Completion::Responded {
        status: 200,
        body: Some("{\"other\":[1,2],\"id\":\"urn:li:share:9\"}".to_string()),
    };
    assert_eq!(LinkedInClient::finish_post(completion), Ok("urn:li:share:9".to_string()));
}

#[test]
fn transport_failure_keeps_its_cause() {
    let completion = Completion::TransportFailed { cause: "operation timed out".to_string() };
    let error = LinkedInClient::finish_post(completion).unwrap_err();
    assert_eq!(error, LinkedInClientError::HttpError("operation timed out".to_string()));
    assert_eq!(error.message(), "HTTP client error: operation timed out");
}

#[test]
fn read_response_takes_the_decoded_answer_as_given() {
    let answer = || Some(PostResponse { id: "p-1".to_string() });
    assert_eq!(
        LinkedInClient::read_response(201, Some("ignored".to_string()), answer()),
        Ok("p-1".to_string())
    );
    assert_eq!(
        LinkedInClient::read_response(404, Some("gone".to_string()), answer()),
        Err(LinkedInClientError::ApiError("404: gone".to_string()))
    );
    assert_eq!(
        LinkedInClient::read_response(200, Some("{}".to_string()), None),
        Err(LinkedInClientError::HttpError("error decoding response body".to_string()))
    );
}

#[test]
fn decode_response_reads_the_id() {
    assert_eq!(
        LinkedInClient::decode_response("{\"id\":\"urn:li:share:123\"}"),
        Some(PostResponse { id: "urn:li:share:123".to_string() })
    );
    assert_eq!(LinkedInClient::decode_response("{\"ID\":\"x\"}"), None);
    assert_eq!(LinkedInClient::decode_response("unauthorized"), None);
}

#[test]
fn client_error_messages() {
    assert_eq!(
        LinkedInClientError::ConfigError("x".to_string()).message(),
        "Configuration error: x"
    );
    assert_eq!(LinkedInClientError::ApiError("y".to_string()).message(), "LinkedIn API error: y");
    assert_eq!(LinkedInClientError::HttpError("z".to_string()).message(), "HTTP client error: z");
}

#[test]
fn decimal_numerals() {
    assert_eq!(decimal_string(0), "0");
    assert_eq!(decimal_string(7), "7");
    assert_eq!(decimal_string(10), "10");
    assert_eq!(decimal_string(401), "401");
    assert_eq!(decimal_string(1000), "1000");
    assert_eq!(decimal_string(65535), "65535");
    for n in [0u64, 9, 99, 100, 12345, 60009, 1_735_689_600_000, u64::MAX] {
        assert_eq!(decimal_string(n), n.to_string());
    }
}

#[test]
fn signed_decimal_numerals() {
    assert_eq!(signed_decimal_string(0), "0");
    assert_eq!(signed_decimal_string(42), "42");
    assert_eq!(signed_decimal_string(-1), "-1");
    assert_eq!(signed_decimal_string(-1000), "-1000");
    assert_eq!(signed_decimal_string(i64::MAX), "9223372036854775807");
    assert_eq!(signed_decimal_string(i64::MIN), "-9223372036854775808");
    for n in [-10i64, -9, 9, 10, 1_735_689_600_000, -1_735_689_600_000] {
        assert_eq!(signed_decimal_string(n), n.to_string());
    }
}

fn text(value: &str) -> serde_json::Value {
    serde_json::Value::String(value.to_string())
}

fn object(members: Vec<(&str, serde_json::Value)>) -> serde_json::Value {
    let mut map = serde_json::Map::new();
    for (key, value) in members {
        map.insert(key.to_string(), value);
    }
    serde_json::Value::Object(map)
}

fn expected_body(content: &str, schedule: Option<i64>) -> serde_json::Value {
    let mut members = vec![
        ("author", text("urn:li:person:abc123")),
        ("lifecycleState", text("PUBLISHED")),
        (
            "specificContent",
            object(vec![(
                "com.linkedin.ugc.ShareContent",
                object(vec![
                    ("shareCommentary", object(vec![("text", text(content))])),
                    ("shareMediaCategory", text("NONE")),
                ]),
            )]),
        ),
        (
            "visibility",
            object(vec![("com.linkedin.ugc.MemberNetworkVisibility", text("PUBLIC"))]),
        ),
    ];
    if let Some(at) = schedule {
        members.push(("scheduledAt", serde_json::Value::Number(at.into())));
    }
    object(members)
}

fn body_of(content: &str, schedule: Option<i64>) -> String {
    match client(false).create_post(content.to_string(), schedule) {
        PostSubmission::Outbound { request } => {
            assert_eq!(request.body(), request.payload.to_json());
            request.body()
        }
        _ => panic!("expected a request"),
    }
}

#[test]
fn request_body_without_a_schedule_time() {
    assert_eq!(
        body_of("Hello", None),
        "{\"author\":\"urn:li:person:abc123\",\"lifecycleState\":\"PUBLISHED\",\
         \"specificContent\":{\"com.linkedin.ugc.ShareContent\":{\
         \"shareCommentary\":{\"text\":\"Hello\"},\"shareMediaCategory\":\"NONE\"}},\
         \"visibility\":{\"com.linkedin.ugc.MemberNetworkVisibility\":\"PUBLIC\"}}"
    );
}

#[test]
fn request_body_with_a_schedule_time() {
    assert_eq!(
        body_of("Hello", Some(1_735_689_600_000)),
        "{\"author\":\"urn:li:person:abc123\",\"lifecycleState\":\"PUBLISHED\",\
         \"specificContent\":{\"com.linkedin.ugc.ShareContent\":{\
         \"shareCommentary\":{\"text\":\"Hello\"},\"shareMediaCategory\":\"NONE\"}},\
         \"visibility\":{\"com.linkedin.ugc.MemberNetworkVisibility\":\"PUBLIC\"},\
         \"scheduledAt\":1735689600000}"
    );
}

#[test]
fn request_body_reads_back_as_json() {
    for (content, schedule) in [
        ("Hello", None),
        ("He said \"hi\"\nand left\\", Some(0)),
        ("snow\u{2603}man \u{1}", Some(-1_000)),
        ("", Some(i64::MAX)),
        ("x", Some(i64::MIN)),
    ] {
        let parsed: serde_json::Value =
            serde_json::from_str(&body_of(content, schedule)).unwrap();
        assert_eq!(parsed, expected_body(content, schedule));
    }
}
