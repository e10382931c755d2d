//! The parts of server URLs, and how servers are found.

use mcp_gateway::config::{McpConfig, McpServerConfig};

fn server(name: &str, url: &str, mcp: bool) -> McpServerConfig {
    McpServerConfig {
        name: name.to_string(),
        url: url.to_string(),
        strip_slug: false,
        use_tls: false,
        mcp,
    }
}

#[test]
fn url_has_host_and_path() {
    let time = server("time", "127.0.0.1:8111/http", true);
    assert_eq!(time.path_slug(), "http");
    assert_eq!(time.host_port(), "127.0.0.1:8111");
    assert_eq!(time.base_path(), "/http");
}

#[test]
fn url_may_have_no_path() {
    let plain = server("plain", "example.org:80", false);
    assert_eq!(plain.path_slug(), "");
    assert_eq!(plain.host_port(), "example.org:80");
    assert_eq!(plain.base_path(), "/");
    let rooted = server("rooted", "example.org:80/", false);
    assert_eq!(rooted.path_slug(), "");
    assert_eq!(rooted.host_port(), "example.org:80");
    assert_eq!(rooted.base_path(), "/");
    let empty = server("empty", "", false);
    assert_eq!(empty.path_slug(), "");
    assert_eq!(empty.host_port(), "");
    assert_eq!(empty.base_path(), "/");
}

#[test]
fn slashes_at_the_end_are_no_part_of_the_slug() {
    let deep = server("deep", "häst:1/a/ß///", false);
    assert_eq!(deep.path_slug(), "a/ß");
    assert_eq!(deep.host_port(), "häst:1");
    assert_eq!(deep.base_path(), "/a/ß///");
    assert_eq!(server("slashes", "h////", false).path_slug(), "");
}

#[test]
fn url_is_host_and_path_together() {
    for url in ["h:1/http", "h:1/", "/x", "h:1/a/b//"] {
        let server = server("s", url, false);
        assert_eq!(format!("{}{}", server.host_port(), server.base_path()), url);
    }
}

#[test]
fn first_server_of_a_name_is_found() {
    let conf = McpConfig {
        servers: vec![
            server("a", "one", false),
            server("a", "two", true),
            server("a", "three", true),
            server("b", "four/p", true),
        ],
    };
    let url = |name: &str, mcp: Option<bool>| conf.find(name, mcp).map(|s| s.url.clone());
    assert_eq!(url("a", None).as_deref(), Some("one"));
    assert_eq!(url("a", Some(false)).as_deref(), Some("one"));
    assert_eq!(url("a", Some(true)).as_deref(), Some("two"));
    assert_eq!(url("b", Some(false)), None);
    assert_eq!(url("c", None), None);
    assert!(conf.is_configured_path("p"));
    assert!(conf.is_configured_path(""));
    assert!(!conf.is_configured_path("q"));
    assert!(!McpConfig { servers: vec![] }.is_configured_path(""));
}
