//! Counting calls, comparing runs, and what is said of them.

use mcp_gateway::arguments::tool_arguments;
use mcp_gateway::benchmark::{
    build_direct_url, build_gateway_url, build_streaming_url, compare, load_server_config,
    verify_tool_exists, BenchmarkConfig, BenchmarkStats, CallOutcome, ClientRun, ConfigError,
    ToolListing, Verdict, MAX_NANOS,
};
use mcp_gateway::config::{McpConfig, McpServerConfig};
use mcp_gateway::gateway::{DynamicMcpGateway, UpstreamStep};

fn server(name: &str, url: &str, use_tls: bool) -> McpServerConfig {
    McpServerConfig {
        name: name.to_string(),
        url: url.to_string(),
        strip_slug: false,
        use_tls,
        mcp: true,
    }
}

fn counts(total: usize, successful: usize) -> BenchmarkStats {
    BenchmarkStats {
        total_requests: total,
        successful_requests: successful,
        failed_requests: total - successful,
        total_latency: 0,
        elapsed: 0,
    }
}

#[test]
fn new_counts_are_zero() {
    let stats = BenchmarkStats::new();
    assert_eq!(stats.total_requests, 0);
    assert_eq!(stats.successful_requests, 0);
    assert_eq!(stats.failed_requests, 0);
    assert_eq!(stats.total_latency, 0);
    assert_eq!(stats.elapsed, 0);
}

#[test]
fn longest_time_is_that_of_a_duration() {
    assert_eq!(MAX_NANOS, std::time::Duration::MAX.as_nanos());
}

#[test]
fn every_call_counts_once() {
    let mut run = ClientRun::new(3, 4);
    assert!(run.has_calls_left());
    assert_eq!(run.call_finished(&CallOutcome::Answered, 10), None);
    assert_eq!(run.call_finished(&CallOutcome::Empty, 20), None);
    assert_eq!(run.call_finished(&CallOutcome::Failed("x".to_string()), 30), None);
    assert!(run.has_calls_left());
    assert_eq!(run.call_finished(&CallOutcome::Answered, 40), None);
    assert!(!run.has_calls_left());
    assert_eq!(run.client_id, 3);
    assert_eq!(run.num_requests, 4);
    assert_eq!(run.stats.total_requests, 4);
    assert_eq!(run.stats.successful_requests, 2);
    assert_eq!(run.stats.failed_requests, 2);
    assert_eq!(run.stats.total_latency, 100);
}

#[test]
fn first_call_that_fails_is_told() {
    let mut run = ClientRun::new(12, 2);
    assert_eq!(
        run.call_finished(&CallOutcome::Empty, 1).as_deref(),
        Some("   Client 12 error: Empty response")
    );
    let mut run = ClientRun::new(0, 2);
    assert_eq!(
        run.call_finished(&CallOutcome::Failed("refused".to_string()), 1).as_deref(),
        Some("   Client 0 error: refused")
    );
    assert_eq!(run.stats.failed_requests, 1);
}

#[test]
fn client_without_a_session_fails_all_its_calls() {
    let mut run = ClientRun::new(7, 5);
    assert_eq!(
        run.init_failed("no route"),
        "   Client 7 failed to initialize: no route"
    );
    assert!(!run.has_calls_left());
    assert_eq!(run.stats, counts(5, 0));
    assert!(!ClientRun::new(0, 0).has_calls_left());
}

#[test]
fn run_adds_its_clients_up() {
    let mut all = BenchmarkStats::new();
    for successful in [5, 3, 0] {
        let mut client = counts(5, successful);
        client.total_latency = 7;
        client.elapsed = 1000;
        all.add_client(&client);
    }
    assert_eq!(all.total_requests, 15);
    assert_eq!(all.successful_requests, 8);
    assert_eq!(all.failed_requests, 7);
    assert_eq!(all.total_latency, 21);
    assert_eq!(all.elapsed, 0);
    let done = all.finished(99);
    assert_eq!(done.elapsed, 99);
    assert_eq!(done.total_requests, 15);
    assert_eq!(done.successful_requests, 8);
    assert_eq!(done.failed_requests, 7);
    assert_eq!(done.total_latency, 21);
}

#[test]
fn success_is_a_whole_percentage() {
    assert_eq!(counts(3, 2).success_percent(), 66);
    assert_eq!(counts(3, 3).success_percent(), 100);
    assert_eq!(counts(1000, 999).success_percent(), 99);
    assert_eq!(counts(4, 0).success_percent(), 0);
    assert_eq!(counts(0, 0).success_percent(), 0);
}

#[test]
fn runs_compare_by_their_successes() {
    let verdict = |direct: usize, gateway: usize| {
        compare(&counts(100, direct), &counts(100, gateway))
    };
    assert_eq!(verdict(100, 100), Verdict::SameThroughput);
    assert_eq!(verdict(0, 0), Verdict::SameThroughput);
    assert_eq!(verdict(100, 90), Verdict::Acceptable);
    assert_eq!(verdict(100, 89), Verdict::SignificantOverhead);
    assert_eq!(verdict(50, 100), Verdict::Acceptable);
    assert_eq!(verdict(1, 0), Verdict::Acceptable);
    assert_eq!(verdict(2, 0), Verdict::SignificantOverhead);
    let most = BenchmarkStats {
        successful_requests: usize::MAX,
        ..BenchmarkStats::new()
    };
    assert_eq!(compare(&most, &most), Verdict::SameThroughput);
}

#[test]
fn urls_lead_to_the_server() {
    let plain = server("fast", "127.0.0.1:8111/http", false);
    assert_eq!(build_direct_url(&plain), "http://127.0.0.1:8111/http");
    assert_eq!(build_gateway_url(&plain), "http://localhost:3000/vs/fast/http");
    let secure = server("slow", "example.org", true);
    assert_eq!(build_direct_url(&secure), "https://example.org");
    assert_eq!(build_gateway_url(&secure), "https://localhost:3000/vs/slow/");
}

#[test]
fn streaming_endpoint_is_added_once() {
    assert_eq!(build_streaming_url("http://h"), "http://h/http");
    assert_eq!(build_streaming_url("http://h/http"), "http://h/http");
    assert_eq!(build_streaming_url("http://h/http/"), "http://h/http//http");
    assert_eq!(build_streaming_url("http"), "http/http");
    assert_eq!(build_streaming_url(""), "/http");
}

#[test]
fn gateway_and_direct_requests_agree() {
    for url in ["127.0.0.1:8111/http", "127.0.0.1:8111/api"] {
        let fast = server("fast", url, false);
        let direct = build_streaming_url(&build_direct_url(&fast));
        let gateway = build_streaming_url(&build_gateway_url(&fast));
        let path = gateway.strip_prefix("http://localhost:3000").unwrap();
        let conf = McpConfig { servers: vec![fast] };
        let mut ctx = DynamicMcpGateway::new_ctx();
        let headers = http::HeaderMap::new();
        let step = DynamicMcpGateway { conf: &conf }.upstream_peer(path, None, &headers, &mut ctx);
        let peer = match step {
            UpstreamStep::Connect(peer) => peer,
            _ => panic!("no server is reached"),
        };
        let edit = DynamicMcpGateway::upstream_request_filter(&ctx, "POST", path, &headers);
        assert_eq!(format!("http://{}{}", peer.address, edit.path.unwrap()), direct);
    }
}

#[test]
fn runs_are_named_after_their_way() {
    let fast = server("fast", "127.0.0.1:8111/http", false);
    let direct = BenchmarkConfig::direct(&fast, 2, 3, "now".to_string(), None);
    assert_eq!(direct.name, "Direct (fast)");
    assert_eq!(direct.base_url, "http://127.0.0.1:8111/http");
    assert_eq!(direct.concurrent_clients, 2);
    assert_eq!(direct.requests_per_client, 3);
    assert_eq!(direct.tool_name, "now");
    assert!(direct.arguments.is_none());
    let arguments = tool_arguments("{\"a\": 1}").ok().unwrap();
    let gateway = BenchmarkConfig::gateway(&fast, 2, 3, "now".to_string(), arguments);
    assert_eq!(gateway.name, "Gateway /vs/fast");
    assert_eq!(gateway.base_url, "http://localhost:3000/vs/fast/http");
    assert_eq!(gateway.arguments.map(|members| members.len()), Some(1));
}

#[test]
fn run_says_what_it_starts() {
    let fast = server("fast", "127.0.0.1:8111/http", false);
    let run = BenchmarkConfig::direct(&fast, 125, 10000, "now".to_string(), None);
    assert_eq!(
        run.start_lines(),
        vec![
            "\n🚀 Starting benchmark: Direct (fast) (125 clients × 10000 requests = 1250000 total)",
            "   Tool: now",
        ]
    );
    let arguments = tool_arguments("{ \"a\" : [ 1 , \"b\" ] }").ok().unwrap();
    let run = BenchmarkConfig::gateway(&fast, 0, 7, "now".to_string(), arguments);
    assert_eq!(
        run.start_lines(),
        vec![
            "\n🚀 Starting benchmark: Gateway /vs/fast (0 clients × 7 requests = 0 total)",
            "   Tool: now",
            "   Arguments: {\"a\":[1,\"b\"]}",
        ]
    );
}

#[test]
fn run_says_what_it_counted() {
    let fast = server("fast", "127.0.0.1:8111/http", false);
    let run = BenchmarkConfig::direct(&fast, 1, 10, "now".to_string(), None);
    assert_eq!(
        run.result_lines(&counts(10, 7)),
        vec![
            "\n📊 Direct (fast) Results:",
            "   Total: 10 requests (7 success, 3 failed)",
        ]
    );
}

#[test]
fn server_is_loaded_by_its_name() {
    let config = Ok(McpConfig {
        servers: vec![
            server("a", "one", false),
            server("b", "two", false),
            server("b", "three", true),
        ],
    });
    assert_eq!(load_server_config(&config, "b").unwrap().url, "two");
    assert_eq!(
        load_server_config(&config, "c").err().as_deref(),
        Some("Server 'c' not found in mcp-servers.toml")
    );
    let config = Err(ConfigError::Read("gone".to_string()));
    assert_eq!(
        load_server_config(&config, "b").err().as_deref(),
        Some("Failed to read mcp-servers.toml: gone")
    );
    let config = Err(ConfigError::Parse("bad".to_string()));
    assert_eq!(
        load_server_config(&config, "b").err().as_deref(),
        Some("Failed to parse mcp-servers.toml: bad")
    );
}

#[test]
fn tool_is_found_among_the_tools() {
    let listing = ToolListing::Tools(vec!["now".to_string(), "later".to_string()]);
    assert!(verify_tool_exists(&listing, "later").is_ok());
    let error = verify_tool_exists(&listing, "lat").err().unwrap();
    assert_eq!(error.message, "Tool 'lat' not found");
    assert_eq!(
        error.lines,
        vec![
            "\n❌ Tool 'lat' not found on server",
            "\nAvailable tools:",
            "  - now",
            "  - later",
        ]
    );
    let error = verify_tool_exists(&ToolListing::Tools(vec![]), "now").err().unwrap();
    assert_eq!(error.lines.len(), 2);
}

#[test]
fn tools_that_cannot_be_listed_are_not_found() {
    let error = verify_tool_exists(&ToolListing::ConnectFailed("refused".to_string()), "now")
        .err()
        .unwrap();
    assert_eq!(error.message, "Failed to connect to server: refused");
    assert!(error.lines.is_empty());
    let error = verify_tool_exists(&ToolListing::ListFailed("closed".to_string()), "now")
        .err()
        .unwrap();
    assert_eq!(error.message, "Failed to list tools: closed");
    assert!(error.lines.is_empty());
}
