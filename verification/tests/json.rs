use linkedin_mcp::linkedin::client::LinkedInClient;
use linkedin_mcp::mcp::models::LinkedInPostResponse;

/// The JSON string literal that the result writes for its message.
fn quoted(text: &str) -> String {
    let json = LinkedInPostResponse::failed(text.to_string()).to_json();
    let rest = json.strip_prefix("{\"message\":").unwrap();
    rest.strip_suffix(",\"post_id\":null,\"success\":false}").unwrap().to_string()
}

/// The identifier that is read out of the body of an answer.
fn id_in(body: &str) -> Option<String> {
    LinkedInClient::decode_response(body).map(|response| response.id)
}

#[test]
fn plain_text_is_quoted() {
    assert_eq!(quoted("hello"), "\"hello\"");
    assert_eq!(quoted(""), "\"\"");
}

#[test]
fn what_json_does_not_allow_is_escaped() {
    assert_eq!(quoted("a\"b"), "\"a\\\"b\"");
    assert_eq!(quoted("a\\b"), "\"a\\\\b\"");
    assert_eq!(quoted("line\nbreak"), "\"line\\nbreak\"");
    assert_eq!(quoted("tab\there"), "\"tab\\there\"");
    assert_eq!(quoted("\u{1}"), "\"\\u0001\"");
    assert_eq!(quoted("caf\u{e9}"), "\"caf\u{e9}\"");
}

/// How a character is written inside a JSON string.
fn escaped(c: char) -> String {
    match c {
        '"' => "\\\"".to_string(),
        '\\' => "\\\\".to_string(),
        '\u{8}' => "\\b".to_string(),
        '\t' => "\\t".to_string(),
        '\n' => "\\n".to_string(),
        '\u{c}' => "\\f".to_string(),
        '\r' => "\\r".to_string(),
        c if (c as u32) < 0x20 => format!("\\u00{:02x}", c as u32),
        c => c.to_string(),
    }
}

#[test]
fn every_character_is_written_as_stated() {
    let mut all = String::new();
    let mut expected = String::from("\"");
    for code in (0u32..0x3000).chain([0xd7ff, 0xe000, 0xfffd, 0xffff, 0x10000, 0x1f600, 0x10ffff])
    {
        let c = char::from_u32(code).unwrap();
        assert_eq!(quoted(&c.to_string()), format!("\"{}\"", escaped(c)), "U+{:04X}", code);
        all.push(c);
        expected.push_str(&escaped(c));
    }
    expected.push('"');
    assert_eq!(quoted(&all), expected);
}

#[test]
fn control_characters_are_written_in_lower_case_hex() {
    assert_eq!(quoted("\u{0}"), "\"\\u0000\"");
    assert_eq!(quoted("\u{b}"), "\"\\u000b\"");
    assert_eq!(quoted("\u{1a}"), "\"\\u001a\"");
    assert_eq!(quoted("\u{1f}"), "\"\\u001f\"");
    assert_eq!(quoted("\u{7f}"), "\"\u{7f}\"");
    assert_eq!(quoted("/"), "\"/\"");
}

#[test]
fn quoted_text_reads_back() {
    for text in ["", "plain", "a\"b\\c", "\n\r\t", "\u{0}\u{1f}", "snow\u{2603}man"] {
        let parsed: serde_json::Value = serde_json::from_str(&quoted(text)).unwrap();
        assert_eq!(parsed, serde_json::Value::String(text.to_string()));
    }
}

#[test]
fn id_of_an_object() {
    assert_eq!(id_in("{\"id\":\"urn:li:share:123\"}"), Some("urn:li:share:123".to_string()));
    assert_eq!(id_in("{\"a\":\"1\",\"id\":\"2\"}"), Some("2".to_string()));
    assert_eq!(id_in(" { \"id\" : \"x\\ny\" } "), Some("x\ny".to_string()));
    assert_eq!(id_in("{\"id\":\"\"}"), Some(String::new()));
}

#[test]
fn id_that_is_not_there() {
    assert_eq!(id_in("{\"ID\":\"x\"}"), None);
    assert_eq!(id_in("{}"), None);
    assert_eq!(id_in("{\"id\":1}"), None);
    assert_eq!(id_in("{\"id\":true}"), None);
    assert_eq!(id_in("{\"id\":null}"), None);
    assert_eq!(id_in("{\"id\":{\"id\":\"x\"}}"), None);
    assert_eq!(id_in("[\"id\"]"), None);
    assert_eq!(id_in("\"id\""), None);
}

#[test]
fn id_of_what_is_not_json() {
    assert_eq!(id_in(""), None);
    assert_eq!(id_in("id"), None);
    assert_eq!(id_in("{\"id\":\"x\""), None);
    assert_eq!(id_in("{\"id\":\"x\"} trailing"), None);
}

#[test]
fn result_as_json_success() {
    let response = LinkedInPostResponse::created("debug-post-12345".to_string());
    assert_eq!(
        response.to_json(),
        "{\"message\":\"Post created successfully\",\"post_id\":\"debug-post-12345\",\"success\":true}"
    );
}

#[test]
fn result_as_json_failure() {
    let response = LinkedInPostResponse::failed("it \"broke\"".to_string());
    assert_eq!(
        response.to_json(),
        "{\"message\":\"it \\\"broke\\\"\",\"post_id\":null,\"success\":false}"
    );
}

#[test]
fn result_as_json_is_what_serde_json_writes() {
    for response in [
        LinkedInPostResponse::created("urn:li:share:123".to_string()),
        LinkedInPostResponse::failed("Failed to create post: \n\"x\"".to_string()),
    ] {
        let mut object = serde_json::Map::new();
        object.insert("success".to_string(), serde_json::Value::Bool(response.success));
        object.insert(
            "post_id".to_string(),
            match &response.post_id {
                Some(id) => serde_json::Value::String(id.clone()),
                None => serde_json::Value::Null,
            },
        );
        object.insert(
            "message".to_string(),
            serde_json::Value::String(response.message.clone()),
        );
        let value = serde_json::Value::Object(object);
        assert_eq!(response.to_json(), value.to_string());
        let parsed: serde_json::Value = serde_json::from_str(&response.to_json()).unwrap();
        assert_eq!(parsed, value);
    }
}
