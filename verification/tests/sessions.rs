//! Session ids in queries and event streams, and the session table.

use mcp_gateway::gateway::DynamicMcpGateway;
use mcp_gateway::sessions::SessionTable;

fn in_stream(body: &[u8]) -> Option<String> {
    DynamicMcpGateway::extract_session_from_sse_body(body)
}

#[test]
fn query_gives_its_first_session() {
    let id = DynamicMcpGateway::extract_session_from_query;
    assert_eq!(id("sessionId=abc"), Some("abc"));
    assert_eq!(id("a=1&sessionid=low&sessionId=up"), Some("low"));
    assert_eq!(id("sessionId=a=b"), Some("a=b"));
    assert_eq!(id("sessionId="), Some(""));
    assert_eq!(id("sessionId=ü&x"), Some("ü"));
    assert_eq!(id("SessionId=abc"), None);
    assert_eq!(id("xsessionId=abc"), None);
    assert_eq!(id(""), None);
    assert_eq!(id("&&"), None);
}

#[test]
fn stream_announces_a_session() {
    assert_eq!(in_stream(b"data: /message?sessionId=ab-C_9").as_deref(), Some("ab-C_9"));
    assert_eq!(
        in_stream(b"event: endpoint\ndata:/m?sessionId=x1&y=2\n\n").as_deref(),
        Some("x1")
    );
    assert_eq!(in_stream(b"data: sessionId=a\r\n").as_deref(), Some("a"));
}

#[test]
fn first_announcement_of_a_stream_counts() {
    assert_eq!(
        in_stream(b"data: none\ndata: sessionId=one\ndata: sessionId=two").as_deref(),
        Some("one")
    );
    assert_eq!(in_stream(b"data: sessionId=, sessionId=b").as_deref(), Some("b"));
    assert_eq!(in_stream(b"data: sessionId=\ndata: sessionId=c").as_deref(), Some("c"));
    assert_eq!(in_stream(b"data: sessionId=sessionId=d").as_deref(), Some("sessionId"));
}

#[test]
fn only_data_lines_announce() {
    assert_eq!(in_stream(b"event: sessionId=a"), None);
    assert_eq!(in_stream(b" data: sessionId=a"), None);
    assert_eq!(in_stream(b"data: sessionid=a"), None);
    assert_eq!(in_stream(b"data: sessionId=\xc3\xbc"), None);
    assert_eq!(in_stream(b"data: sessionId="), None);
    assert_eq!(in_stream(b""), None);
    // A lone carriage return ends no line.
    assert_eq!(in_stream(b"event: x\rdata: sessionId=a"), None);
}

#[test]
fn stream_that_is_no_text_announces_nothing() {
    assert_eq!(in_stream(b"data: sessionId=a\n\xff"), None);
    assert_eq!(in_stream(b"data: \xc3\xbc sessionId=a\n").as_deref(), Some("a"));
}

#[test]
fn announced_id_is_read_from_a_query() {
    let id = in_stream(b"data: /message?sessionId=Az09-_!").unwrap();
    assert_eq!(id, "Az09-_");
    let query = format!("sessionId={}&more=1", id);
    assert_eq!(
        DynamicMcpGateway::extract_session_from_query(&query),
        Some(id.as_str())
    );
}

#[test]
fn table_gives_back_what_was_noted() {
    let mut table = SessionTable::new();
    assert!(table.get("a").is_none());
    table.insert("a".to_string(), "time".to_string());
    assert_eq!(table.get("a").map(|name| name.as_str()), Some("time"));
    assert!(table.get("A").is_none());
    table.insert("b".to_string(), "files".to_string());
    assert_eq!(table.get("a").map(|name| name.as_str()), Some("time"));
    table.insert("a".to_string(), "other".to_string());
    assert_eq!(table.get("a").map(|name| name.as_str()), Some("other"));
    assert_eq!(table.get("b").map(|name| name.as_str()), Some("files"));
}
