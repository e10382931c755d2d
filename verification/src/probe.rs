//! The probe: what a client asks of a server to see whether it answers, in
//! which order, and what is said of the answers.

use vstd::prelude::*;

use crate::text::{append_decimal, decimal, owned_texts, text_of};

verus! {

/// Which way a probe takes.
#[derive(Debug, Clone, Copy, PartialEq, Eq, Structural)]
pub enum Probe {
    /// Through the gateway.
    Gateway,
    /// Straight to the time server.
    Direct,
}

/// A list that a probe asks for.
#[derive(Debug, Clone, Copy, PartialEq, Eq, Structural)]
pub enum Listing {
    Tools,
    Resources,
    Prompts,
}

/// What came of asking for a list.
pub enum ListOutcome {
    /// The names of what is on it.
    Listed(Vec<String>),
    /// An error.
    Failed(String),
    /// No answer in time.
    TimedOut,
}

/// The name and version that a server gives.
pub struct ServerInfo {
    pub name: String,
    pub version: String,
}

/// What is said after a step of a probe, and which list is asked for next.
pub struct ProbeStep {
    pub lines: Vec<String>,
    pub next: Option<Listing>,
}

impl Probe {
    /// The URL of each probe.
    pub open spec fn address(self) -> Seq<char> {
        match self {
            Probe::Gateway => "http://localhost:3000/time/sse"@,
            Probe::Direct => "http://localhost:8111/sse"@,
        }
    }

    /// The URL that the probe connects to.
    pub fn url(&self) -> (url: &'static str)
        ensures
            url@ == self.address(),
    {
        match self {
            Probe::Gateway => "http://localhost:3000/time/sse",
            Probe::Direct => "http://localhost:8111/sse",
        }
    }

    /// What is said before the probe connects.
    pub open spec fn connecting_text(self) -> Seq<char> {
        match self {
            Probe::Gateway => "   📡 Connecting to gateway..."@,
            Probe::Direct => "   📡 Connecting directly to time server..."@,
        }
    }

    /// What is said once the probe is connected.
    pub open spec fn connected_text(self) -> Seq<char> {
        match self {
            Probe::Gateway => "   📡 Connected to gateway"@,
            Probe::Direct => "   📡 Connected directly to time server"@,
        }
    }

    /// What is said before the probe connects.
    pub fn connecting_line(&self) -> (line: &'static str)
        ensures
            line@ == self.connecting_text(),
    {
        match self {
            Probe::Gateway => "   📡 Connecting to gateway...",
            Probe::Direct => "   📡 Connecting directly to time server...",
        }
    }

    /// The lists that a probe asks for, in this order.
    pub open spec fn listings(self) -> Seq<Listing> {
        match self {
            Probe::Gateway => seq![Listing::Tools, Listing::Resources, Listing::Prompts],
            Probe::Direct => seq![Listing::Tools, Listing::Resources],
        }
    }

    /// The probe is connected, and the server may have said who it is: what is
    /// said of it. The list of tools comes next.
    pub fn connected(&self, info: &Option<ServerInfo>) -> (step: ProbeStep)
        ensures
            step.next == Some(self.listings()[0]),
            owned_texts(step.lines@) == seq![self.connected_text(), info_text(*info)],
    {
        let first = match self {
            Probe::Gateway => "   📡 Connected to gateway",
            Probe::Direct => "   📡 Connected directly to time server",
        };
        let second = match info {
            Some(info) => {
                let mut line: String = "   ✅ Server: ".to_string();
                line.append(info.name.as_str());
                line.append(" v");
                line.append(info.version.as_str());
                line
            },
            None => "   ⚠️  No server info available".to_string(),
        };
        let mut lines: Vec<String> = Vec::new();
        lines.push(first.to_string());
        lines.push(second);
        assert(owned_texts(lines@) =~= seq![self.connected_text(), info_text(*info)]);
        ProbeStep { lines, next: Some(Listing::Tools) }
    }

    /// The list that comes after `listing`, where there is one.
    pub open spec fn after(self, listing: Listing) -> Option<Listing> {
        match (listing, self) {
            (Listing::Tools, _) => Some(Listing::Resources),
            (Listing::Resources, Probe::Gateway) => Some(Listing::Prompts),
            _ => None,
        }
    }

    /// A list was asked for: what is said of the outcome, and which list comes
    /// next.
    pub fn listed(&self, listing: Listing, outcome: &ListOutcome) -> (step: ProbeStep)
        ensures
            step.next == self.after(listing),
            owned_texts(step.lines@) == outcome_texts(listing, *outcome),
    {
        let lines = outcome_lines(listing, outcome);
        let next = match (listing, self) {
            (Listing::Tools, _) => Some(Listing::Resources),
            (Listing::Resources, Probe::Gateway) => Some(Listing::Prompts),
            _ => None,
        };
        ProbeStep { lines, next }
    }

    /// What is said when a probe is over.
    pub open spec fn summary_text(self, error: Option<Seq<char>>) -> Seq<char> {
        let way = match self {
            Probe::Gateway => "Gateway"@,
            Probe::Direct => "Direct"@,
        };
        match error {
            None => "✅ "@ + way + " connection SUCCESS\n"@,
            Some(e) => "❌ "@ + way + " connection FAILED: "@ + e + "\n"@,
        }
    }

    /// What is said when the probe is over, with the error that ended it, where
    /// one did.
    pub fn summary(&self, error: Option<&str>) -> (line: String)
        ensures
            line@ == self.summary_text(text_of(error)),
    {
        let way = match self {
            Probe::Gateway => "Gateway",
            Probe::Direct => "Direct",
        };
        match error {
            None => {
                let mut line: String = "✅ ".to_string();
                line.append(way);
                line.append(" connection SUCCESS\n");
                line
            },
            Some(e) => {
                let mut line: String = "❌ ".to_string();
                line.append(way);
                line.append(" connection FAILED: ");
                line.append(e);
                line.append("\n");
                line
            },
        }
    }
}

/// What is said of who a server says it is.
pub open spec fn info_text(info: Option<ServerInfo>) -> Seq<char> {
    match info {
        Some(i) => "   ✅ Server: "@ + i.name@ + " v"@ + i.version@,
        None => "   ⚠️  No server info available"@,
    }
}

/// The call that asks for a list.
pub open spec fn call_name(listing: Listing) -> Seq<char> {
    match listing {
        Listing::Tools => "list_tools"@,
        Listing::Resources => "list_resources"@,
        Listing::Prompts => "list_prompts"@,
    }
}

/// What a list is of.
pub open spec fn kind_name(listing: Listing) -> Seq<char> {
    match listing {
        Listing::Tools => "Tools"@,
        Listing::Resources => "Resources"@,
        Listing::Prompts => "Prompts"@,
    }
}

/// Each name, as a line of an indented list.
pub open spec fn entries(names: Seq<Seq<char>>) -> Seq<Seq<char>> {
    Seq::new(names.len(), |i: int| "      - "@ + names[i])
}

/// What is said of the outcome of asking for a list. Of tools the names are
/// said too.
pub open spec fn outcome_texts(listing: Listing, outcome: ListOutcome) -> Seq<Seq<char>> {
    match outcome {
        ListOutcome::Listed(names) => seq![
            "   ✅ "@ + call_name(listing) + " succeeded"@,
            "   📦 "@ + kind_name(listing) + " available: "@ + decimal(names@.len()),
        ] + (if listing == Listing::Tools {
            entries(owned_texts(names@))
        } else {
            seq![]
        }),
        ListOutcome::Failed(error) => seq!["   ⚠️  "@ + call_name(listing) + " error: "@ + error@],
        ListOutcome::TimedOut => seq!["   ⏱️  "@ + call_name(listing) + " timeout"@],
    }
}

/// What is said of the outcome of asking for a list.
fn outcome_lines(listing: Listing, outcome: &ListOutcome) -> (lines: Vec<String>)
    ensures
        owned_texts(lines@) == outcome_texts(listing, *outcome),
{
    let call = match listing {
        Listing::Tools => "list_tools",
        Listing::Resources => "list_resources",
        Listing::Prompts => "list_prompts",
    };
    let kind = match listing {
        Listing::Tools => "Tools",
        Listing::Resources => "Resources",
        Listing::Prompts => "Prompts",
    };
    let mut lines: Vec<String> = Vec::new();
    match outcome {
        ListOutcome::Listed(names) => {
            let mut first: String = "   ✅ ".to_string();
            first.append(call);
            first.append(" succeeded");
            let mut second: String = "   📦 ".to_string();
            second.append(kind);
            second.append(" available: ");
            append_decimal(&mut second, names.len());
            lines.push(first);
            lines.push(second);
            if listing == Listing::Tools {
                push_entries(names, &mut lines);
            }
            assert(owned_texts(lines@) =~= outcome_texts(listing, *outcome));
        },
        ListOutcome::Failed(error) => {
            let mut line: String = "   ⚠️  ".to_string();
            line.append(call);
            line.append(" error: ");
            line.append(error.as_str());
            lines.push(line);
            assert(owned_texts(lines@) =~= outcome_texts(listing, *outcome));
        },
        ListOutcome::TimedOut => {
            let mut line: String = "   ⏱️  ".to_string();
            line.append(call);
            line.append(" timeout");
            lines.push(line);
            assert(owned_texts(lines@) =~= outcome_texts(listing, *outcome));
        },
    }
    lines
}

/// Adds each name, as a line of an indented list.
fn push_entries(names: &Vec<String>, lines: &mut Vec<String>)
    ensures
        owned_texts(final(lines)@) == owned_texts(old(lines)@) + entries(owned_texts(names@)),
{
    let ghost head = owned_texts(lines@);
    let mut i: usize = 0;
    assert(owned_texts(lines@) =~= head + entries(owned_texts(names@).take(0)));
    while i < names.len()
        invariant
            i <= names@.len(),
            owned_texts(lines@) == head + entries(owned_texts(names@).take(i as int)),
        decreases names@.len() - i,
    {
        let mut line: String = "      - ".to_string();
        line.append(names[i].as_str());
        let ghost had = owned_texts(lines@);
        lines.push(line);
        assert(owned_texts(lines@) =~= had.push(line@));
        assert(owned_texts(lines@) =~= head + entries(owned_texts(names@).take(i as int + 1)));
        i = i + 1;
    }
    assert(owned_texts(names@).take(i as int) =~= owned_texts(names@));
}

} // verus!
