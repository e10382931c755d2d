//! Routing, and what becomes of requests and answers on their way.

use http::{HeaderMap, HeaderValue};
use mcp_gateway::config::{McpConfig, McpServerConfig};
use mcp_gateway::gateway::{
    DynamicMcpGateway, McpCtx, PeerTarget, RouteError, SessionEntry, UpstreamStep,
};
use mcp_gateway::sessions::SessionTable;

fn server(name: &str, url: &str, strip_slug: bool, use_tls: bool, mcp: bool) -> McpServerConfig {
    McpServerConfig {
        name: name.to_string(),
        url: url.to_string(),
        strip_slug,
        use_tls,
        mcp,
    }
}

fn config() -> McpConfig {
    McpConfig {
        servers: vec![
            server("time", "127.0.0.1:8111/http", true, false, true),
            server("files", "10.0.0.2:9000/api/v1/", true, true, false),
            server("plain", "10.0.0.3:9001", false, false, false),
            server("files", "10.0.0.9:1/other", false, false, false),
            server("both", "10.0.0.4:1/a", false, false, false),
            server("both", "10.0.0.5:1/b", false, true, true),
        ],
    }
}

fn fields(pairs: &[(&'static str, &[u8])]) -> HeaderMap<HeaderValue> {
    let mut headers = HeaderMap::new();
    for (name, value) in pairs {
        headers.append(*name, HeaderValue::from_bytes(value).unwrap());
    }
    headers
}

fn no_fields() -> HeaderMap<HeaderValue> {
    HeaderMap::new()
}

fn step(path: &str, query: Option<&str>, headers: &HeaderMap<HeaderValue>) -> (UpstreamStep, McpCtx) {
    let conf = config();
    let gateway = DynamicMcpGateway { conf: &conf };
    let mut ctx = DynamicMcpGateway::new_ctx();
    let step = gateway.upstream_peer(path, query, headers, &mut ctx);
    (step, ctx)
}

fn connected(path: &str) -> (PeerTarget, McpCtx) {
    match step(path, None, &no_fields()) {
        (UpstreamStep::Connect(peer), ctx) => (peer, ctx),
        _ => panic!("{} reaches no server", path),
    }
}

fn rejected(path: &str, query: Option<&str>, headers: &HeaderMap<HeaderValue>) -> RouteError {
    match step(path, query, headers) {
        (UpstreamStep::Reject(error), _) => error,
        _ => panic!("{} is not rejected", path),
    }
}

fn looked_up(path: &str, query: Option<&str>, headers: &HeaderMap<HeaderValue>) -> String {
    match step(path, query, headers) {
        (UpstreamStep::LookUp(id), _) => id,
        _ => panic!("{} looks no session up", path),
    }
}

#[test]
fn slug_is_first_segment() {
    assert_eq!(DynamicMcpGateway::extract_slug("/time/sse"), "time");
    assert_eq!(DynamicMcpGateway::extract_slug("time/sse"), "time");
    assert_eq!(DynamicMcpGateway::extract_slug("/time"), "time");
    assert_eq!(DynamicMcpGateway::extract_slug("/"), "");
    assert_eq!(DynamicMcpGateway::extract_slug(""), "");
    assert_eq!(DynamicMcpGateway::extract_slug("//time"), "");
    assert_eq!(DynamicMcpGateway::extract_slug("/zeitß/ü"), "zeitß");
}

#[test]
fn slug_is_taken_off() {
    assert_eq!(DynamicMcpGateway::strip_slug_from_path("/time/sse"), "/sse");
    assert_eq!(DynamicMcpGateway::strip_slug_from_path("/time/a/b/"), "/a/b/");
    assert_eq!(DynamicMcpGateway::strip_slug_from_path("/time/"), "/");
    assert_eq!(DynamicMcpGateway::strip_slug_from_path("/time"), "/");
    assert_eq!(DynamicMcpGateway::strip_slug_from_path("time/sse"), "/");
    assert_eq!(DynamicMcpGateway::strip_slug_from_path("//sse"), "/sse");
    assert_eq!(DynamicMcpGateway::strip_slug_from_path(""), "/");
    assert_eq!(DynamicMcpGateway::strip_slug_from_path("/ü/ß"), "/ß");
}

#[test]
fn vs_prefix_is_taken_off() {
    assert_eq!(DynamicMcpGateway::strip_vs_prefix("/vs/time/http", "time"), "/http");
    assert_eq!(DynamicMcpGateway::strip_vs_prefix("/vs/time", "time"), "/");
    assert_eq!(DynamicMcpGateway::strip_vs_prefix("/vs/time/", "time"), "/");
    assert_eq!(DynamicMcpGateway::strip_vs_prefix("/vs/timer/http", "time"), "r/http");
    assert_eq!(DynamicMcpGateway::strip_vs_prefix("/other/http", "time"), "/other/http");
    assert_eq!(DynamicMcpGateway::strip_vs_prefix("//vs/time", "time"), "//vs/time");
}

#[test]
fn new_context_is_blank() {
    let ctx = DynamicMcpGateway::new_ctx();
    assert!(!ctx.should_strip);
    assert!(!ctx.use_tls);
    assert_eq!(ctx.server_name, "");
    assert_eq!(ctx.path_len, 0);
    assert_eq!(ctx.base_path, "");
    assert!(!ctx.is_mcp);
}

#[test]
fn vs_path_reaches_mcp_server() {
    let (peer, ctx) = connected("/vs/time/http");
    assert_eq!(peer.address, "127.0.0.1:8111");
    assert_eq!(peer.sni, "127.0.0.1:8111");
    assert!(!peer.tls);
    assert!(ctx.should_strip);
    assert!(!ctx.use_tls);
    assert_eq!(ctx.server_name, "time");
    assert_eq!(ctx.path_len, 13);
    assert_eq!(ctx.base_path, "/http");
    assert!(ctx.is_mcp);
    let edit =
        DynamicMcpGateway::upstream_request_filter(&ctx, "POST", "/vs/time/http", &no_fields());
    assert_eq!(edit.path.as_deref(), Some("/http"));
    let edit = DynamicMcpGateway::upstream_request_filter(&ctx, "POST", "/vs/time", &no_fields());
    assert_eq!(edit.path.as_deref(), Some("/"));
}

#[test]
fn empty_segments_do_not_count() {
    let (peer, ctx) = connected("//vs///time/http");
    assert_eq!(peer.address, "127.0.0.1:8111");
    let edit =
        DynamicMcpGateway::upstream_request_filter(&ctx, "GET", "//vs///time/http", &no_fields());
    assert_eq!(edit.path.as_deref(), Some("//vs///time/http"));
}

#[test]
fn slug_path_reaches_first_server_of_that_name() {
    let (peer, ctx) = connected("/files/a/b");
    assert_eq!(peer.address, "10.0.0.2:9000");
    assert!(peer.tls);
    assert!(ctx.should_strip);
    assert!(ctx.use_tls);
    assert_eq!(ctx.server_name, "files");
    assert_eq!(ctx.base_path, "/api/v1/");
    assert!(!ctx.is_mcp);
    let edit = DynamicMcpGateway::upstream_request_filter(&ctx, "GET", "/files/a/b", &no_fields());
    assert_eq!(edit.path.as_deref(), Some("/a/b"));
    let edit = DynamicMcpGateway::upstream_request_filter(&ctx, "GET", "/", &no_fields());
    assert_eq!(edit.path.as_deref(), Some("/"));
    let edit = DynamicMcpGateway::upstream_request_filter(&ctx, "GET", "files", &no_fields());
    assert_eq!(edit.path.as_deref(), Some("files"));
}

#[test]
fn path_stays_where_the_slug_is_kept() {
    let (peer, ctx) = connected("/plain/x");
    assert_eq!(peer.address, "10.0.0.3:9001");
    assert!(!ctx.should_strip);
    assert_eq!(ctx.base_path, "/");
    let edit = DynamicMcpGateway::upstream_request_filter(&ctx, "GET", "/plain/x", &no_fields());
    assert_eq!(edit.path, None);
}

#[test]
fn path_length_is_in_bytes() {
    let (_, ctx) = connected("/plain/ß");
    assert_eq!(ctx.path_len, 9);
}

#[test]
fn mcp_servers_are_reached_under_vs_only() {
    let (peer, ctx) = connected("/both");
    assert_eq!(peer.address, "10.0.0.4:1");
    assert!(!ctx.is_mcp);
    let (peer, ctx) = connected("/vs/both");
    assert_eq!(peer.address, "10.0.0.5:1");
    assert!(peer.tls);
    assert!(ctx.is_mcp);
    assert_eq!(rejected("/time", None, &no_fields()), RouteError::ServerNotFound);
    assert_eq!(rejected("/vs/plain", None, &no_fields()), RouteError::McpServerNotFound);
}

#[test]
fn vs_alone_is_an_ordinary_slug() {
    assert_eq!(rejected("/vs", None, &no_fields()), RouteError::ServerNotFound);
    assert_eq!(rejected("/vs/", None, &no_fields()), RouteError::ServerNotFound);
}

#[test]
fn each_route_error_has_its_text() {
    let unknown = rejected("/vs/nobody/x", None, &no_fields());
    assert_eq!(unknown, RouteError::McpServerNotFound);
    assert_eq!(unknown.explanation(), "MCP server not found");
    let sessionless = rejected("/message", None, &no_fields());
    assert_eq!(sessionless, RouteError::SessionNotFound);
    assert_eq!(sessionless.explanation(), "Session not found");
    let lost = rejected("/nobody", None, &no_fields());
    assert_eq!(lost, RouteError::ServerNotFound);
    assert_eq!(lost.explanation(), "Server not found");
    assert_eq!(unknown.code(), "404");
    assert_eq!(sessionless.code(), "404");
    assert_eq!(lost.code(), "404");
}

#[test]
fn rejected_request_leaves_context_but_for_the_length() {
    let (_, ctx) = step("/nobody", None, &no_fields());
    assert_eq!(ctx.path_len, 7);
    assert_eq!(ctx.server_name, "");
    assert!(!ctx.should_strip);
}

#[test]
fn sessions_are_looked_up_on_their_endpoints() {
    assert_eq!(looked_up("/message", Some("a=b&sessionId=s-1&x"), &no_fields()), "s-1");
    assert_eq!(looked_up("/http", Some("sessionid=s-2"), &no_fields()), "s-2");
    assert_eq!(looked_up("/http/deep", Some("sessionId="), &no_fields()), "");
    // The root is the path slug of a server without a path.
    assert_eq!(looked_up("/", Some("sessionId=s-3"), &no_fields()), "s-3");
    // A path of several segments is no slug.
    assert_eq!(
        rejected("/api/v1", Some("sessionId=s-4"), &no_fields()),
        RouteError::ServerNotFound
    );
}

#[test]
fn session_of_the_header_comes_first() {
    let headers = fields(&[("mcp-session-id", b"from header"), ("Mcp-Session-Id", b"second")]);
    assert_eq!(looked_up("/message", Some("sessionId=q"), &headers), "from header");
    assert_eq!(looked_up("/message", None, &headers), "from header");
    // A header that is no text counts for nothing.
    let headers = fields(&[("Mcp-Session-Id", b"caf\xe9")]);
    assert_eq!(looked_up("/message", Some("sessionId=q"), &headers), "q");
    assert_eq!(rejected("/message", None, &headers), RouteError::SessionNotFound);
}

#[test]
fn session_stays_with_its_server() {
    let conf = config();
    let gateway = DynamicMcpGateway { conf: &conf };
    let mut sessions = SessionTable::new();
    sessions.insert("s".to_string(), "time".to_string());
    sessions.insert("t".to_string(), "files".to_string());
    let mut ctx = DynamicMcpGateway::new_ctx();
    let peer = gateway.session_peer(&sessions, "s", &mut ctx).ok().unwrap();
    assert_eq!(peer.address, "127.0.0.1:8111");
    assert!(!ctx.should_strip);
    assert!(ctx.is_mcp);
    assert_eq!(ctx.server_name, "time");
    assert_eq!(ctx.base_path, "/http");
    let peer = gateway.session_peer(&sessions, "t", &mut ctx).ok().unwrap();
    assert_eq!(peer.address, "10.0.0.2:9000");
    assert!(peer.tls);
    assert!(!ctx.is_mcp);
}

#[test]
fn unknown_sessions_lead_nowhere() {
    let conf = config();
    let gateway = DynamicMcpGateway { conf: &conf };
    let mut sessions = SessionTable::new();
    sessions.insert("gone".to_string(), "removed".to_string());
    let mut ctx = DynamicMcpGateway::new_ctx();
    assert_eq!(
        gateway.session_peer(&sessions, "none", &mut ctx).err(),
        Some(RouteError::SessionNotFound)
    );
    assert_eq!(
        gateway.session_peer(&sessions, "gone", &mut ctx).err(),
        Some(RouteError::SessionNotFound)
    );
    assert_eq!(ctx.server_name, "");
}

fn noted(entry: Option<SessionEntry>) -> (String, String) {
    let entry = entry.unwrap();
    (entry.id, entry.server)
}

#[test]
fn opened_session_comes_back() {
    let (_, ctx) = connected("/vs/time/http");
    let answer = fields(&[("Mcp-Session-Id", b"abc 1")]);
    let (id, name) = noted(DynamicMcpGateway::response_filter(&ctx, &answer).session);
    assert_eq!(id, "abc 1");
    assert_eq!(name, "time");
    let mut sessions = SessionTable::new();
    sessions.insert(id, name);
    let wanted = looked_up("/http", Some("sessionId=other"), &answer);
    let conf = config();
    let mut ctx = DynamicMcpGateway::new_ctx();
    let peer = DynamicMcpGateway { conf: &conf }
        .session_peer(&sessions, &wanted, &mut ctx)
        .ok()
        .unwrap();
    assert_eq!(peer.address, "127.0.0.1:8111");
}

#[test]
fn announced_session_comes_back() {
    let (_, ctx) = connected("/vs/time/sse");
    let body = b"event: endpoint\r\ndata: /message?sessionId=ab-C_9\r\n\r\n";
    let (id, name) = noted(DynamicMcpGateway::response_body_filter(&ctx, Some(body)));
    assert_eq!(id, "ab-C_9");
    let mut sessions = SessionTable::new();
    sessions.insert(id, name);
    let wanted = looked_up("/message", Some("sessionId=ab-C_9&x=1"), &no_fields());
    let conf = config();
    let mut ctx = DynamicMcpGateway::new_ctx();
    let peer = DynamicMcpGateway { conf: &conf }
        .session_peer(&sessions, &wanted, &mut ctx)
        .ok()
        .unwrap();
    assert_eq!(peer.address, "127.0.0.1:8111");
}

#[test]
fn body_without_announcement_opens_no_session() {
    let (_, ctx) = connected("/vs/time/sse");
    assert!(DynamicMcpGateway::response_body_filter(&ctx, None).is_none());
    assert!(DynamicMcpGateway::response_body_filter(&ctx, Some(b"data: hello\n")).is_none());
}

#[test]
fn stream_and_session_fields_are_forwarded() {
    let (_, ctx) = connected("/plain");
    let headers = fields(&[
        ("Cache-Control", b"no-cache"),
        ("x-other", b"dropped"),
        ("ACCEPT", b"text/event-stream"),
        ("accept", b"application/json"),
        ("Mcp-Session-Id", b"\xff"),
    ]);
    let edit = DynamicMcpGateway::upstream_request_filter(&ctx, "GET", "/plain", &headers);
    let forwarded: Vec<(&str, Vec<u8>)> =
        edit.headers.into_iter().map(|field| (field.name, field.value)).collect();
    assert_eq!(
        forwarded,
        vec![
            ("Accept", b"text/event-stream".to_vec()),
            ("Cache-Control", b"no-cache".to_vec()),
            ("Mcp-Session-Id", b"\xff".to_vec()),
        ]
    );
    let headers = fields(&[("Connection", b"keep-alive")]);
    let edit = DynamicMcpGateway::upstream_request_filter(&ctx, "GET", "/plain", &headers);
    assert_eq!(edit.headers.len(), 1);
    assert_eq!(edit.headers[0].name, "Connection");
    assert_eq!(edit.headers[0].value, b"keep-alive");
}

#[test]
fn preflight_requests_stay_as_they_are() {
    let (_, ctx) = connected("/vs/time/http");
    let headers = fields(&[("Accept", b"*/*")]);
    let edit =
        DynamicMcpGateway::upstream_request_filter(&ctx, "OPTIONS", "/vs/time/http", &headers);
    assert_eq!(edit.path, None);
    assert!(edit.headers.is_empty());
    let edit =
        DynamicMcpGateway::upstream_request_filter(&ctx, "options", "/vs/time/http", &headers);
    assert_eq!(edit.path.as_deref(), Some("/http"));
    assert_eq!(edit.headers.len(), 1);
}

#[test]
fn answers_may_be_read_from_anywhere() {
    let (_, ctx) = connected("/plain");
    let edit = DynamicMcpGateway::response_filter(&ctx, &no_fields());
    assert_eq!(
        edit.headers,
        vec![
            ("Access-Control-Allow-Origin", "*".to_string()),
            (
                "Access-Control-Allow-Headers",
                "Content-Type, Authorization".to_string()
            ),
            ("Access-Control-Allow-Methods", "GET, POST, OPTIONS".to_string()),
        ]
    );
    assert!(edit.session.is_none());
}

#[test]
fn unreadable_session_header_opens_no_session() {
    let (_, ctx) = connected("/plain");
    let answer = fields(&[("Mcp-Session-Id", b"caf\xc3\xa9")]);
    assert!(DynamicMcpGateway::response_filter(&ctx, &answer).session.is_none());
    let answer = fields(&[("Mcp-Session-Id", b"a\tb")]);
    assert_eq!(
        noted(DynamicMcpGateway::response_filter(&ctx, &answer).session),
        ("a\tb".to_string(), "plain".to_string())
    );
}

#[test]
fn cut_paths_are_rooted() {
    for (path, seen) in [
        ("/vs/time", "/"),
        ("/vs/time/", "/"),
        ("/vs/time//x", "//x"),
        ("/files", "/"),
        ("/files/", "/"),
        ("/files//x", "//x"),
    ] {
        let (_, ctx) = connected(path);
        let edit = DynamicMcpGateway::upstream_request_filter(&ctx, "GET", path, &no_fields());
        assert_eq!(edit.path.as_deref(), Some(seen), "{}", path);
    }
}
