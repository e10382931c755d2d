//! The probe of the time server.

use mcp_gateway::probe::{ListOutcome, Listing, Probe, ServerInfo};

fn listed(names: &[&str]) -> ListOutcome {
    ListOutcome::Listed(names.iter().map(|name| name.to_string()).collect())
}

#[test]
fn probes_take_their_ways() {
    assert_eq!(Probe::Gateway.url(), "http://localhost:3000/time/sse");
    assert_eq!(Probe::Direct.url(), "http://localhost:8111/sse");
    assert_eq!(Probe::Gateway.connecting_line(), "   📡 Connecting to gateway...");
    assert_eq!(
        Probe::Direct.connecting_line(),
        "   📡 Connecting directly to time server..."
    );
}

#[test]
fn server_is_named_once_connected() {
    let info = Some(ServerInfo {
        name: "time".to_string(),
        version: "1.2".to_string(),
    });
    let step = Probe::Gateway.connected(&info);
    assert_eq!(step.lines, vec!["   📡 Connected to gateway", "   ✅ Server: time v1.2"]);
    assert_eq!(step.next, Some(Listing::Tools));
    let step = Probe::Direct.connected(&None);
    assert_eq!(
        step.lines,
        vec![
            "   📡 Connected directly to time server",
            "   ⚠️  No server info available",
        ]
    );
    assert_eq!(step.next, Some(Listing::Tools));
}

fn asked(probe: Probe) -> Vec<Listing> {
    let mut asked = vec![];
    let mut next = probe.connected(&None).next;
    while let Some(listing) = next {
        asked.push(listing);
        next = probe.listed(listing, &ListOutcome::TimedOut).next;
    }
    asked
}

#[test]
fn probe_goes_through_its_lists() {
    assert_eq!(
        asked(Probe::Gateway),
        vec![Listing::Tools, Listing::Resources, Listing::Prompts]
    );
    assert_eq!(asked(Probe::Direct), vec![Listing::Tools, Listing::Resources]);
}

#[test]
fn tools_are_listed_by_name() {
    let step = Probe::Direct.listed(Listing::Tools, &listed(&["now", "later"]));
    assert_eq!(
        step.lines,
        vec![
            "   ✅ list_tools succeeded",
            "   📦 Tools available: 2",
            "      - now",
            "      - later",
        ]
    );
    let step = Probe::Direct.listed(Listing::Tools, &listed(&[]));
    assert_eq!(
        step.lines,
        vec!["   ✅ list_tools succeeded", "   📦 Tools available: 0"]
    );
}

#[test]
fn resources_and_prompts_are_counted() {
    let step = Probe::Gateway.listed(Listing::Resources, &listed(&["a"]));
    assert_eq!(
        step.lines,
        vec!["   ✅ list_resources succeeded", "   📦 Resources available: 1"]
    );
    let step = Probe::Gateway.listed(Listing::Prompts, &listed(&["a", "b", "c"]));
    assert_eq!(
        step.lines,
        vec!["   ✅ list_prompts succeeded", "   📦 Prompts available: 3"]
    );
    assert_eq!(step.next, None);
}

#[test]
fn lists_may_fail() {
    let failed = ListOutcome::Failed("closed".to_string());
    assert_eq!(
        Probe::Gateway.listed(Listing::Tools, &failed).lines,
        vec!["   ⚠️  list_tools error: closed"]
    );
    assert_eq!(
        Probe::Gateway.listed(Listing::Resources, &failed).lines,
        vec!["   ⚠️  list_resources error: closed"]
    );
    assert_eq!(
        Probe::Gateway.listed(Listing::Prompts, &ListOutcome::TimedOut).lines,
        vec!["   ⏱️  list_prompts timeout"]
    );
}

#[test]
fn probe_says_how_it_ended() {
    assert_eq!(Probe::Gateway.summary(None), "✅ Gateway connection SUCCESS\n");
    assert_eq!(Probe::Direct.summary(None), "✅ Direct connection SUCCESS\n");
    assert_eq!(
        Probe::Gateway.summary(Some("refused")),
        "❌ Gateway connection FAILED: refused\n"
    );
    assert_eq!(
        Probe::Direct.summary(Some("refused")),
        "❌ Direct connection FAILED: refused\n"
    );
}
